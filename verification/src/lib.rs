//! A dispatch-and-lifecycle bridge between a fixed, externally defined plugin
//! ABI (a "host ABI") and a single user-supplied plugin core.
//!
//! The host drives the plugin through a fixed set of entry points. This
//! library holds the verified heart of such a bridge: the process-wide
//! [`bridge::Bridge`] keeps at most one registered core, every entry point is
//! a pure transition over that state, and each transition yields either a
//! [`types::Fatal`] diagnostic (the ABI offers no error channel, so contract
//! violations must abort) or a *plan* describing exactly which core hooks to
//! invoke, in which order, with which call-scoped context.
//!
//! The unverified runtime adapter around this crate owns the raw ABI surface:
//! it reads pointer nullness into plain booleans, hands those to the bridge,
//! executes the returned plan against the user core, and aborts the process
//! on a `Fatal`.

pub mod bridge;
pub mod contexts;
pub mod laws;
pub mod plan;
pub mod plugin;
pub mod slot;
pub mod types;

//! Call-scoped context values. Each dispatch entry point synthesizes exactly
//! one context variant, exposing only the host services that are legal at
//! that lifecycle stage; a context never outlives the entry-point call whose
//! plan carries it. Narrowing per stage turns the ABI's informal ordering
//! rules into structure: a core cannot reach a service its current stage does
//! not expose.

use vstd::prelude::*;

use crate::types::CallbackAddr;
use crate::types::ServiceInterfaces;

verus! {

/// The generic stage (reset, deinit, unload, serialize-size query, cheat
/// handling, memory queries): environment query only.
#[derive(Clone, Copy, Debug, PartialEq, Eq)]
pub struct GenericContext {
    pub environment: Option<CallbackAddr>,
}

/// The init stage: environment query only. The duplicate-frame support flag
/// is negotiated with the host before the core's init hook runs.
#[derive(Clone, Copy, Debug, PartialEq, Eq)]
pub struct InitContext {
    pub environment: Option<CallbackAddr>,
}

/// The set-environment stage: environment query and set.
#[derive(Clone, Copy, Debug, PartialEq, Eq)]
pub struct SetEnvironmentContext {
    pub environment: Option<CallbackAddr>,
}

/// The options-changed notification: environment query only.
#[derive(Clone, Copy, Debug, PartialEq, Eq)]
pub struct OptionsChangedContext {
    pub environment: Option<CallbackAddr>,
}

/// The AV-info query: environment query only; the result is copied field by
/// field into host-owned storage.
#[derive(Clone, Copy, Debug, PartialEq, Eq)]
pub struct GetAvInfoContext {
    pub environment: Option<CallbackAddr>,
}

/// The load-game stage: environment query plus the negotiable host service
/// interfaces, so the core may opt into them while a game loads. The adapter
/// writes the (possibly extended) interfaces back through
/// [`crate::bridge::Bridge::commit_services`] after the load hook returns.
#[derive(Clone, Copy, Debug, PartialEq, Eq)]
pub struct LoadGameContext {
    pub environment: Option<CallbackAddr>,
    pub services: ServiceInterfaces,
}

/// The special-load stage: environment query only.
#[derive(Clone, Copy, Debug, PartialEq, Eq)]
pub struct LoadGameSpecialContext {
    pub environment: Option<CallbackAddr>,
}

/// The run stage: environment query, every registered I/O callback, the
/// negotiated flags, and the frame-timing state the core may update. The
/// adapter writes the frame-timing fields back through
/// [`crate::bridge::Bridge::commit_frame_state`] after the run hook returns.
#[derive(Clone, Copy, Debug, PartialEq, Eq)]
pub struct RunContext {
    pub environment: Option<CallbackAddr>,
    pub video_refresh: Option<CallbackAddr>,
    pub audio_sample: Option<CallbackAddr>,
    pub audio_sample_batch: Option<CallbackAddr>,
    pub input_poll: Option<CallbackAddr>,
    pub input_state: Option<CallbackAddr>,
    pub can_dupe: bool,
    pub supports_bitmasks: bool,
    pub had_frame: bool,
    pub last_width: u32,
    pub last_height: u32,
    pub last_pitch: usize,
}

/// The audio-write stage, for hosts driving audio by callback: environment
/// query plus the two audio sample callbacks.
#[derive(Clone, Copy, Debug, PartialEq, Eq)]
pub struct AudioContext {
    pub environment: Option<CallbackAddr>,
    pub audio_sample: Option<CallbackAddr>,
    pub audio_sample_batch: Option<CallbackAddr>,
}

} // verus!

//! The bridge's cross-call guarantees, stated and proved over the spec-level
//! transitions and plan linearizations that the entry points' own contracts
//! pin down.

use vstd::prelude::*;

use crate::bridge::Bridge;
use crate::contexts::SetEnvironmentContext;
use crate::plan::LoadGamePlan;
use crate::plan::LoadSpecialPlan;
use crate::plan::LoadSpecialStep;
use crate::plan::LoadStep;
use crate::plan::RunPlan;
use crate::plan::RunStep;
use crate::plan::SetupStep;
use crate::types::CallbackAddr;
use crate::types::EntryPoint;
use crate::types::Fatal;
use crate::types::FatalReason;
use crate::types::SystemInfo;
use crate::types::entry_name;
use crate::types::spec_fatal_message;

verus! {

/// `needle` occurs somewhere in `hay` as a contiguous run.
pub open spec fn contains_seq(hay: Seq<char>, needle: Seq<char>) -> bool {
    exists|i: int|
        0 <= i && i + needle.len() <= hay.len() && #[trigger] hay.subrange(i, i + needle.len())
            == needle
}

/// Law: registering a core twice always fails. The first registration over
/// an empty slot succeeds; the second leaves the bridge untouched and is
/// refused with a diagnostic carrying the identity of the core registered
/// first.
pub proof fn lemma_double_registration_fatal(b: Bridge, first: SystemInfo, second: SystemInfo)
    requires
        b.slot is None,
    ensures
        Bridge::spec_register(b, first).1 is Ok,
        ({
            let b1 = Bridge::spec_register(b, first).0;
            &&& Bridge::spec_register(b1, second).0 == b1
            &&& Bridge::spec_register(b1, second).1 == Err::<(), Fatal>(
                (Fatal {
                    entry: EntryPoint::Register,
                    reason: FatalReason::AlreadyRegistered {
                        name: first.library_name,
                        version: first.library_version,
                    },
                }),
            )
        }),
{
}

/// Law: the diagnostic of a refused second registration names the
/// already-registered core — its name and its version both appear in the
/// message text.
pub proof fn lemma_already_registered_message_names_core(f: Fatal, name: String, version: String)
    requires
        f.reason == (FatalReason::AlreadyRegistered { name, version }),
    ensures
        contains_seq(spec_fatal_message(f), name@),
        contains_seq(spec_fatal_message(f), version@),
{
    let prefix =
        "Attempted to set a core after the system was already initialized.\nAlready registered core: "@;
    let m = spec_fatal_message(f);
    assert(m.subrange(prefix.len() as int, prefix.len() + name@.len() as int) =~= name@);
    assert(m.subrange(m.len() - version@.len(), m.len() as int) =~= version@);
}

/// Law: the diagnostic of an entry point that ran before registration begins
/// with that entry point's name.
pub proof fn lemma_not_initialized_message_names_entry(f: Fatal)
    requires
        f.reason == FatalReason::NotInitialized,
    ensures
        spec_fatal_message(f).subrange(0, entry_name(f.entry).len() as int) == entry_name(f.entry),
        contains_seq(spec_fatal_message(f), entry_name(f.entry)),
{
    assert(spec_fatal_message(f).subrange(0, 0 + entry_name(f.entry).len() as int) =~= entry_name(
        f.entry,
    ));
}

/// Law: once a system-info query has succeeded, the answer is pinned — every
/// later query returns the same value and leaves the bridge unchanged, and
/// the lazy self-registration path can never be triggered again.
pub proof fn lemma_system_info_stable(b: Bridge)
    requires
        Bridge::spec_system_info_lookup(b, false).1 is Ok,
    ensures
        ({
            let b1 = Bridge::spec_system_info_lookup(b, false).0;
            &&& !(b1.sys_info is None && b1.slot is None)
            &&& Bridge::spec_system_info_lookup(b1, false).0 == b1
            &&& Bridge::spec_system_info_lookup(b1, false).1 == Bridge::spec_system_info_lookup(
                b,
                false,
            ).1
        }),
{
}

/// Law: the one-time setup of the set-environment stage runs exactly once.
/// After any call that delivered a non-null callback, no later call — with or
/// without a callback — is initial: its plan is the bare notification, with
/// no setup step.
pub proof fn lemma_environment_setup_once(
    b: Bridge,
    first: Option<CallbackAddr>,
    later: Option<CallbackAddr>,
)
    requires
        b.slot is Some,
        first is Some,
    ensures
        ({
            let b1 = Bridge::spec_set_environment(b, first).0;
            &&& Bridge::spec_set_environment(b1, later).1 matches Ok(p)
            &&& p.initial == false
            &&& p.spec_steps() == seq![
                SetupStep::NotifyEnvironment {
                    initial: false,
                    ctx: (SetEnvironmentContext { environment: later }),
                },
            ]
        }),
{
    let b1 = Bridge::spec_set_environment(b, first).0;
    match Bridge::spec_set_environment(b1, later).1 {
        Ok(p) => {
            assert(p.spec_steps() =~= seq![
                SetupStep::NotifyEnvironment {
                    initial: false,
                    ctx: (SetEnvironmentContext { environment: later }),
                },
            ]);
        }
        Err(_) => {}
    }
}

/// Law: a null callback leaves the one-time setup pending. While no callback
/// has ever been delivered, a call that delivers none is not initial and
/// clears nothing that was set, so a later call with a callback is still
/// initial.
pub proof fn lemma_null_callback_defers_setup(b: Bridge, later: Option<CallbackAddr>)
    requires
        b.slot matches Some(s) && !s.environment_set,
        later is Some,
    ensures
        ({
            let b1 = Bridge::spec_set_environment(b, None).0;
            &&& Bridge::spec_set_environment(b, None).1 matches Ok(p0) && p0.initial == false
            &&& Bridge::spec_set_environment(b1, later).1 matches Ok(p1) && p1.initial == true
        }),
{
}

/// Law: the steps of any run plan come in the ABI's required order. The run
/// hook is the single last step; the options-changed notification appears
/// exactly when the host signalled an update, only at the front; the input
/// poll appears exactly when one is registered, immediately before the run
/// hook.
pub proof fn lemma_run_step_order(p: RunPlan)
    ensures
        ({
            let s = p.spec_steps();
            &&& s.len() == 1 + (if p.notify_options_changed {
                1int
            } else {
                0int
            }) + (if p.input_poll is Some {
                1int
            } else {
                0int
            })
            &&& s.last() == (RunStep::RunCore { ctx: p.ctx, frame_delta: p.frame_delta })
            &&& forall|i: int| 0 <= i < s.len() - 1 ==> !(s[i] is RunCore)
            &&& p.notify_options_changed ==> s[0] == RunStep::NotifyOptionsChanged(p.options_ctx)
            &&& forall|i: int| 0 < i < s.len() ==> !(s[i] is NotifyOptionsChanged)
            &&& !p.notify_options_changed ==> forall|i: int|
                0 <= i < s.len() ==> !(s[i] is NotifyOptionsChanged)
            &&& (p.input_poll matches Some(addr) ==> s[s.len() - 2] == RunStep::InvokeInputPoll(
                addr,
            ))
            &&& forall|i: int| 0 <= i < s.len() && i != s.len() - 2 ==> !(s[i] is InvokeInputPoll)
            &&& p.input_poll is None ==> forall|i: int|
                0 <= i < s.len() ==> !(s[i] is InvokeInputPoll)
        }),
{
    let s = p.spec_steps();
    if p.notify_options_changed {
        match p.input_poll {
            Some(addr) => {
                assert(s.len() == 3);
                assert(s[0] == RunStep::NotifyOptionsChanged(p.options_ctx));
                assert(s[1] == RunStep::InvokeInputPoll(addr));
                assert(s[2] == (RunStep::RunCore { ctx: p.ctx, frame_delta: p.frame_delta }));
            }
            None => {
                assert(s.len() == 2);
                assert(s[0] == RunStep::NotifyOptionsChanged(p.options_ctx));
                assert(s[1] == (RunStep::RunCore { ctx: p.ctx, frame_delta: p.frame_delta }));
            }
        }
    } else {
        match p.input_poll {
            Some(addr) => {
                assert(s.len() == 2);
                assert(s[0] == RunStep::InvokeInputPoll(addr));
                assert(s[1] == (RunStep::RunCore { ctx: p.ctx, frame_delta: p.frame_delta }));
            }
            None => {
                assert(s.len() == 1);
                assert(s[0] == (RunStep::RunCore { ctx: p.ctx, frame_delta: p.frame_delta }));
            }
        }
    }
}

/// Law: a load plan is the options-changed notification immediately followed
/// by the load hook, and the load step hands the core the presence of a game
/// exactly as the host described it.
pub proof fn lemma_load_order(p: LoadGamePlan)
    ensures
        p.spec_steps().len() == 2,
        p.spec_steps()[0] == LoadStep::NotifyOptionsChanged(p.options_ctx),
        p.spec_steps()[1] == (LoadStep::LoadCore { game_present: p.game_present, ctx: p.ctx }),
{
}

/// Law: a special-load plan is the options-changed notification — exactly
/// once, strictly before the hook — immediately followed by the single
/// special-load step, which carries the host's game type and record count.
pub proof fn lemma_load_special_order(p: LoadSpecialPlan)
    ensures
        p.spec_steps().len() == 2,
        p.spec_steps()[0] == LoadSpecialStep::NotifyOptionsChanged(p.options_ctx),
        p.spec_steps()[1] == (LoadSpecialStep::LoadSpecialCore {
            game_type: p.game_type,
            num_info: p.num_info,
            ctx: p.ctx,
        }),
{
}

} // verus!


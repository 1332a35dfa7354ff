//! Dispatch outcomes. A plan is the value an entry point returns in place of
//! the side effects it decided on: which core hooks to invoke, in which
//! order, with which context. The runtime adapter executes a plan's steps
//! front to back; the order proved about a plan is therefore the order the
//! core observes.

use vstd::prelude::*;

use crate::contexts::AudioContext;
use crate::contexts::GenericContext;
use crate::contexts::GetAvInfoContext;
use crate::contexts::InitContext;
use crate::contexts::LoadGameContext;
use crate::contexts::LoadGameSpecialContext;
use crate::contexts::OptionsChangedContext;
use crate::contexts::RunContext;
use crate::contexts::SetEnvironmentContext;
use crate::types::CallbackAddr;
use crate::types::EntryPoint;

verus! {

/// The init stage: negotiate duplicate-frame support (already recorded by
/// the time the plan is produced), then invoke the core's init hook.
#[derive(Clone, Copy, Debug, PartialEq, Eq)]
pub struct InitPlan {
    pub ctx: InitContext,
}

/// The entry points of the generic stage: they share one shape — require a
/// registered core, synthesize a [`GenericContext`], invoke one hook.
#[derive(Clone, Copy, Debug, PartialEq, Eq)]
pub enum GenericEntry {
    CheatReset,
    Deinit,
    GetRegion,
    Reset,
    SerializeSize,
    UnloadGame,
}

/// The [`EntryPoint`] a generic-stage event arrived through.
pub open spec fn generic_entry_point(g: GenericEntry) -> EntryPoint {
    match g {
        GenericEntry::CheatReset => EntryPoint::CheatReset,
        GenericEntry::Deinit => EntryPoint::Deinit,
        GenericEntry::GetRegion => EntryPoint::GetRegion,
        GenericEntry::Reset => EntryPoint::Reset,
        GenericEntry::SerializeSize => EntryPoint::SerializeSize,
        GenericEntry::UnloadGame => EntryPoint::UnloadGame,
    }
}

impl GenericEntry {
    /// Executable counterpart of [`generic_entry_point`].
    pub fn entry_point(&self) -> (r: EntryPoint)
        ensures
            r == generic_entry_point(*self),
    {
        match self {
            GenericEntry::CheatReset => EntryPoint::CheatReset,
            GenericEntry::Deinit => EntryPoint::Deinit,
            GenericEntry::GetRegion => EntryPoint::GetRegion,
            GenericEntry::Reset => EntryPoint::Reset,
            GenericEntry::SerializeSize => EntryPoint::SerializeSize,
            GenericEntry::UnloadGame => EntryPoint::UnloadGame,
        }
    }
}

/// A generic-stage dispatch: invoke the hook belonging to `entry` with `ctx`.
#[derive(Clone, Copy, Debug, PartialEq, Eq)]
pub struct GenericPlan {
    pub entry: GenericEntry,
    pub ctx: GenericContext,
}

/// The AV-info query: invoke the core's AV-info hook — always freshly, the
/// bridge caches no AV info — and copy the result into host storage.
#[derive(Clone, Copy, Debug, PartialEq, Eq)]
pub struct AvInfoPlan {
    pub ctx: GetAvInfoContext,
}

/// Outcome of a serialize or unserialize request.
#[derive(Clone, Copy, Debug, PartialEq, Eq)]
pub enum SerializeOutcome {
    /// The host passed a null data pointer: answer negatively, without
    /// invoking the core.
    Rejected,
    /// Hand the core a view of the host buffer, `len` bytes long, and return
    /// the hook's verdict to the host.
    Invoke { len: usize, ctx: GenericContext },
}

/// Outcome of a cheat-set request.
#[derive(Clone, Copy, Debug, PartialEq, Eq)]
pub enum CheatOutcome {
    /// The host passed a null code pointer: ignore the request (the entry
    /// point has no return channel), without invoking the core.
    Ignored,
    /// Invoke the core's cheat hook with the host's code string.
    Invoke { index: u32, enabled: bool, ctx: GenericContext },
}

/// A memory query: invoke the core's memory hook for region `id`.
#[derive(Clone, Copy, Debug, PartialEq, Eq)]
pub struct MemoryPlan {
    pub id: u32,
    pub ctx: GenericContext,
}

/// A controller-port assignment: forward both values to the core (this entry
/// point synthesizes no context).
#[derive(Clone, Copy, Debug, PartialEq, Eq)]
pub struct DevicePlan {
    pub port: u32,
    pub device: u32,
}

/// A keyboard notification to forward to the core.
#[derive(Clone, Copy, Debug, PartialEq, Eq)]
pub struct KeyboardEvent {
    pub down: bool,
    pub keycode: u32,
    pub character: u32,
    pub key_modifiers: u16,
}

/// One step of the set-environment stage.
#[derive(Clone, Copy, Debug, PartialEq, Eq)]
pub enum SetupStep {
    /// Redirect logging through the host (one-time setup).
    InitializeLogging,
    /// Ask the host whether it supports bitmask input queries and record the
    /// answer through [`crate::bridge::Bridge::record_bitmask_support`]
    /// (one-time setup).
    NegotiateBitmaskInput,
    /// Invoke the core's default option-registration routine (one-time
    /// setup, before the general notification).
    RegisterDefaultOptions(SetEnvironmentContext),
    /// Invoke the core's set-environment notification hook.
    NotifyEnvironment { initial: bool, ctx: SetEnvironmentContext },
}

/// The set-environment stage: one-time setup steps exactly when this is the
/// first call that delivered a non-null callback, then the notification hook.
#[derive(Clone, Copy, Debug, PartialEq, Eq)]
pub struct SetEnvironmentPlan {
    pub initial: bool,
    pub ctx: SetEnvironmentContext,
}

impl SetEnvironmentPlan {
    /// The steps of this plan, in execution order.
    pub open spec fn spec_steps(self) -> Seq<SetupStep> {
        if self.initial {
            seq![
                SetupStep::InitializeLogging,
                SetupStep::NegotiateBitmaskInput,
                SetupStep::RegisterDefaultOptions(self.ctx),
                SetupStep::NotifyEnvironment { initial: true, ctx: self.ctx },
            ]
        } else {
            seq![SetupStep::NotifyEnvironment { initial: false, ctx: self.ctx }]
        }
    }

    /// Executable counterpart of [`SetEnvironmentPlan::spec_steps`]; the
    /// adapter performs these front to back.
    pub fn steps(&self) -> (r: Vec<SetupStep>)
        ensures
            r@ == self.spec_steps(),
    {
        let mut r: Vec<SetupStep> = Vec::new();
        if self.initial {
            r.push(SetupStep::InitializeLogging);
            r.push(SetupStep::NegotiateBitmaskInput);
            r.push(SetupStep::RegisterDefaultOptions(self.ctx));
            r.push(SetupStep::NotifyEnvironment { initial: true, ctx: self.ctx });
        } else {
            r.push(SetupStep::NotifyEnvironment { initial: false, ctx: self.ctx });
        }
        proof {
            assert(r@ =~= self.spec_steps());
        }
        r
    }
}

/// One step of the load-game stage.
#[derive(Clone, Copy, Debug, PartialEq, Eq)]
pub enum LoadStep {
    /// Fire the options-changed notification, so variable state is fresh at
    /// load time.
    NotifyOptionsChanged(OptionsChangedContext),
    /// Invoke the core's load hook. `game_present` tells the adapter whether
    /// to pass the host's game description or the explicit "no game" value —
    /// the core sees the absence itself, which keeps "no game" distinct from
    /// a present game whose load then fails (a failed load is the hook
    /// returning false).
    LoadCore { game_present: bool, ctx: LoadGameContext },
}

/// The load-game stage: options-changed notification, immediately followed
/// by the load hook.
#[derive(Clone, Copy, Debug, PartialEq, Eq)]
pub struct LoadGamePlan {
    pub options_ctx: OptionsChangedContext,
    pub game_present: bool,
    pub ctx: LoadGameContext,
}

impl LoadGamePlan {
    /// The steps of this plan, in execution order.
    pub open spec fn spec_steps(self) -> Seq<LoadStep> {
        seq![
            LoadStep::NotifyOptionsChanged(self.options_ctx),
            LoadStep::LoadCore { game_present: self.game_present, ctx: self.ctx },
        ]
    }

    /// Executable counterpart of [`LoadGamePlan::spec_steps`]; the adapter
    /// performs these front to back.
    pub fn steps(&self) -> (r: Vec<LoadStep>)
        ensures
            r@ == self.spec_steps(),
    {
        let mut r: Vec<LoadStep> = Vec::new();
        r.push(LoadStep::NotifyOptionsChanged(self.options_ctx));
        r.push(LoadStep::LoadCore { game_present: self.game_present, ctx: self.ctx });
        proof {
            assert(r@ =~= self.spec_steps());
        }
        r
    }
}

/// One step of the special-load stage.
#[derive(Clone, Copy, Debug, PartialEq, Eq)]
pub enum LoadSpecialStep {
    /// Fire the options-changed notification, so variable state is fresh at
    /// load time.
    NotifyOptionsChanged(OptionsChangedContext),
    /// Invoke the core's special-load hook with the host's game type and its
    /// `num_info` game records, which the adapter converts to owned
    /// [`crate::types::GameInfo`] values and hands to the hook.
    LoadSpecialCore { game_type: u32, num_info: usize, ctx: LoadGameSpecialContext },
}

/// The special-load stage: options-changed notification, immediately
/// followed by the special-load hook.
#[derive(Clone, Copy, Debug, PartialEq, Eq)]
pub struct LoadSpecialPlan {
    pub options_ctx: OptionsChangedContext,
    pub game_type: u32,
    pub num_info: usize,
    pub ctx: LoadGameSpecialContext,
}

impl LoadSpecialPlan {
    /// The steps of this plan, in execution order.
    pub open spec fn spec_steps(self) -> Seq<LoadSpecialStep> {
        seq![
            LoadSpecialStep::NotifyOptionsChanged(self.options_ctx),
            LoadSpecialStep::LoadSpecialCore {
                game_type: self.game_type,
                num_info: self.num_info,
                ctx: self.ctx,
            },
        ]
    }

    /// Executable counterpart of [`LoadSpecialPlan::spec_steps`]; the adapter
    /// performs these front to back.
    pub fn steps(&self) -> (r: Vec<LoadSpecialStep>)
        ensures
            r@ == self.spec_steps(),
    {
        let mut r: Vec<LoadSpecialStep> = Vec::new();
        r.push(LoadSpecialStep::NotifyOptionsChanged(self.options_ctx));
        r.push(LoadSpecialStep::LoadSpecialCore {
            game_type: self.game_type,
            num_info: self.num_info,
            ctx: self.ctx,
        });
        proof {
            assert(r@ =~= self.spec_steps());
        }
        r
    }
}

/// Outcome of a special-load request.
#[derive(Clone, Copy, Debug, PartialEq, Eq)]
pub enum LoadSpecialOutcome {
    /// The host passed a null record pointer: answer negatively, without
    /// invoking the core.
    Rejected,
    /// Notify options changed, then invoke the special-load hook.
    Invoke(LoadSpecialPlan),
}

/// One step of the run stage.
#[derive(Clone, Copy, Debug, PartialEq, Eq)]
pub enum RunStep {
    /// Fire the options-changed notification (the host signalled a variable
    /// update).
    NotifyOptionsChanged(OptionsChangedContext),
    /// Invoke the host's input polling callback.
    InvokeInputPoll(CallbackAddr),
    /// Invoke the core's per-frame run hook, handing it the one-shot
    /// frame-time delta (already consumed from the slot).
    RunCore { ctx: RunContext, frame_delta: Option<i64> },
}

/// The run stage: at most one options-changed notification and at most one
/// input poll, both before the single run hook.
#[derive(Clone, Copy, Debug, PartialEq, Eq)]
pub struct RunPlan {
    pub notify_options_changed: bool,
    pub options_ctx: OptionsChangedContext,
    pub input_poll: Option<CallbackAddr>,
    pub ctx: RunContext,
    pub frame_delta: Option<i64>,
}

impl RunPlan {
    /// The steps of this plan, in execution order.
    pub open spec fn spec_steps(self) -> Seq<RunStep> {
        let run = seq![RunStep::RunCore { ctx: self.ctx, frame_delta: self.frame_delta }];
        let polled = match self.input_poll {
            Some(addr) => seq![RunStep::InvokeInputPoll(addr)] + run,
            None => run,
        };
        if self.notify_options_changed {
            seq![RunStep::NotifyOptionsChanged(self.options_ctx)] + polled
        } else {
            polled
        }
    }

    /// Executable counterpart of [`RunPlan::spec_steps`]; the adapter
    /// performs these front to back.
    pub fn steps(&self) -> (r: Vec<RunStep>)
        ensures
            r@ == self.spec_steps(),
    {
        let mut r: Vec<RunStep> = Vec::new();
        if self.notify_options_changed {
            r.push(RunStep::NotifyOptionsChanged(self.options_ctx));
        }
        if let Some(addr) = self.input_poll {
            r.push(RunStep::InvokeInputPoll(addr));
        }
        r.push(RunStep::RunCore { ctx: self.ctx, frame_delta: self.frame_delta });
        proof {
            assert(r@ =~= self.spec_steps());
        }
        r
    }
}

/// The audio-write notification: invoke the core's audio hook with the
/// audio-stage context.
#[derive(Clone, Copy, Debug, PartialEq, Eq)]
pub struct AudioWritePlan {
    pub ctx: AudioContext,
}

} // verus!

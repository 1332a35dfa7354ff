//! The dispatch layer. [`Bridge`] is the process-wide state: an optional
//! [`InstanceSlot`] plus the lazily built, immortal system-info value. Every
//! ABI entry point is a method here — a pure transition from the current
//! state and the call's plain-value inputs (pointer nullness read as
//! booleans, host query answers as booleans) to the next state and either a
//! [`Fatal`] diagnostic or a plan of hook invocations for the adapter to
//! execute.
//!
//! The host is trusted to drive entry points sequentially from one thread;
//! the bridge enforces instead what the host does *not* guarantee: that no
//! entry point runs against an absent core, that a core is registered only
//! once, and that no null callback or data pointer reaches the core.

use vstd::prelude::*;

use crate::contexts::AudioContext;
use crate::contexts::GenericContext;
use crate::contexts::GetAvInfoContext;
use crate::contexts::InitContext;
use crate::contexts::LoadGameContext;
use crate::contexts::LoadGameSpecialContext;
use crate::contexts::OptionsChangedContext;
use crate::contexts::RunContext;
use crate::contexts::SetEnvironmentContext;
use crate::plan::AudioWritePlan;
use crate::plan::AvInfoPlan;
use crate::plan::CheatOutcome;
use crate::plan::DevicePlan;
use crate::plan::GenericEntry;
use crate::plan::GenericPlan;
use crate::plan::InitPlan;
use crate::plan::KeyboardEvent;
use crate::plan::LoadGamePlan;
use crate::plan::LoadSpecialOutcome;
use crate::plan::LoadSpecialPlan;
use crate::plan::MemoryPlan;
use crate::plan::RunPlan;
use crate::plan::SerializeOutcome;
use crate::plan::SetEnvironmentPlan;
use crate::plan::generic_entry_point;
use crate::slot::InstanceSlot;
use crate::types::CallbackAddr;
use crate::types::CallbackKind;
use crate::types::EntryPoint;
use crate::types::Fatal;
use crate::types::FatalReason;
use crate::types::ServiceInterfaces;
use crate::types::SystemInfo;
use crate::types::callback_entry;

verus! {

/// The ABI revision this bridge implements.
pub const RETRO_API_VERSION: u32 = 1;

/// Answers the host's version query.
pub fn api_version() -> (r: u32)
    ensures
        r == RETRO_API_VERSION,
{
    RETRO_API_VERSION
}

/// The process-wide bridge state: at most one registered core, and the
/// immortal system-info value built lazily on the first info query.
#[derive(Clone, Debug, PartialEq, Eq)]
pub struct Bridge {
    /// The instance slot; populated by the one successful registration and
    /// never replaced afterwards.
    pub slot: Option<InstanceSlot>,
    /// The statically stable system info. The host may read it repeatedly
    /// without a paired release, so once built it is kept for the rest of
    /// the process.
    pub sys_info: Option<SystemInfo>,
}

impl Bridge {
    /// Well-formedness: whatever the slot holds satisfies the slot's own
    /// invariant (no registered callback has a null address).
    pub open spec fn wf(self) -> bool {
        self.slot matches Some(s) ==> s.wf()
    }

    /// The bridge as the module starts: nothing registered, nothing cached.
    pub fn new() -> (r: Bridge)
        ensures
            r.slot is None,
            r.sys_info is None,
            r.wf(),
    {
        Bridge { slot: None, sys_info: None }
    }

    /// Whether a core currently owns the instance slot.
    pub fn is_registered(&self) -> (r: bool)
        ensures
            r == (self.slot is Some),
    {
        self.slot.is_some()
    }

    /// The stored environment callback, for the adapter's host queries:
    /// absent while no core is registered or while the host has not
    /// delivered one.
    pub fn environment_handle(&self) -> (r: Option<CallbackAddr>)
        ensures
            r == match self.slot {
                Some(s) => s.environment,
                None => None,
            },
    {
        match &self.slot {
            Some(s) => s.environment,
            None => None,
        }
    }

    /// Registration as a transition: a second registration fails and names
    /// the identity of the core that already owns the slot; a first
    /// registration installs a fresh slot with every capability unset.
    pub open spec fn spec_register(b: Bridge, info: SystemInfo) -> (Bridge, Result<(), Fatal>) {
        match b.slot {
            Some(s) => (
                b,
                Err(
                    Fatal {
                        entry: EntryPoint::Register,
                        reason: FatalReason::AlreadyRegistered {
                            name: s.info.library_name,
                            version: s.info.library_version,
                        },
                    },
                ),
            ),
            None => (
                Bridge { slot: Some(InstanceSlot::spec_fresh(info)), sys_info: b.sys_info },
                Ok(()),
            ),
        }
    }

    /// The one-time registration call. Succeeds only while the slot is
    /// empty; afterwards the slot holds the given core with all negotiated
    /// flags and callbacks at their default, unset state. A second attempt
    /// fails fatally, reporting the already-registered core's identity.
    pub fn register(&mut self, info: SystemInfo) -> (r: Result<(), Fatal>)
        requires
            old(self).wf(),
        ensures
            final(self).wf(),
            (*final(self), r) == Bridge::spec_register(*old(self), info),
    {
        match &self.slot {
            Some(s) => Err(
                Fatal {
                    entry: EntryPoint::Register,
                    reason: FatalReason::AlreadyRegistered {
                        name: s.info.library_name.clone(),
                        version: s.info.library_version.clone(),
                    },
                },
            ),
            None => {
                self.slot = Some(InstanceSlot::fresh(info));
                Ok(())
            }
        }
    }

    /// Whether an info query must first trigger the lazy self-registration
    /// path: true exactly while neither a cached value nor a registered core
    /// exists.
    pub fn system_info_needs_registration(&self) -> (r: bool)
        ensures
            r == (self.sys_info is None && self.slot is None),
    {
        self.sys_info.is_none() && self.slot.is_none()
    }

    /// The system-info query as a transition: a null output structure is
    /// fatal; a cached value is answered from the cache unchanged; otherwise
    /// the registered core's info is cached and returned; with no core at
    /// all the lazy registration path has failed, which is fatal.
    pub open spec fn spec_system_info_lookup(b: Bridge, info_is_null: bool) -> (
        Bridge,
        Result<SystemInfo, Fatal>,
    ) {
        if info_is_null {
            (
                b,
                Err(Fatal { entry: EntryPoint::GetSystemInfo, reason: FatalReason::NullStructPointer }),
            )
        } else {
            match b.sys_info {
                Some(v) => (b, Ok(v)),
                None => match b.slot {
                    Some(s) => (Bridge { sys_info: Some(s.info), ..b }, Ok(s.info)),
                    None => (
                        b,
                        Err(
                            Fatal {
                                entry: EntryPoint::GetSystemInfo,
                                reason: FatalReason::NoCoreInstance,
                            },
                        ),
                    ),
                },
            }
        }
    }

    /// Answers the host's system-info query. The adapter first consults
    /// [`Bridge::system_info_needs_registration`] and, when needed, runs the
    /// module's registration hook; this method then builds the immortal
    /// cached value exactly once and returns the same data on every call.
    pub fn get_system_info(&mut self, info_is_null: bool) -> (r: Result<SystemInfo, Fatal>)
        requires
            old(self).wf(),
        ensures
            final(self).wf(),
            (*final(self), r) == Bridge::spec_system_info_lookup(*old(self), info_is_null),
    {
        if info_is_null {
            return Err(
                Fatal { entry: EntryPoint::GetSystemInfo, reason: FatalReason::NullStructPointer },
            );
        }
        if let Some(v) = &self.sys_info {
            return Ok(v.duplicate());
        }
        let found = match &self.slot {
            Some(s) => Some(s.info.duplicate()),
            None => None,
        };
        match found {
            Some(v) => {
                self.sys_info = Some(v.duplicate());
                Ok(v)
            }
            None => Err(
                Fatal { entry: EntryPoint::GetSystemInfo, reason: FatalReason::NoCoreInstance },
            ),
        }
    }

    /// The init entry point. The adapter negotiates duplicate-frame support
    /// with the host beforehand (through the stored environment callback) and
    /// passes the answer in; the bridge records it and directs the adapter to
    /// the core's init hook.
    pub fn init(&mut self, can_dupe: bool) -> (r: Result<InitPlan, Fatal>)
        requires
            old(self).wf(),
        ensures
            final(self).wf(),
            old(self).slot is None ==> r == Err::<InitPlan, Fatal>(
                (Fatal { entry: EntryPoint::Init, reason: FatalReason::NotInitialized }),
            ) && *final(self) == *old(self),
            old(self).slot matches Some(s) ==> {
                &&& *final(self) == (Bridge {
                    slot: Some((InstanceSlot { can_dupe, ..s })),
                    ..*old(self)
                })
                &&& r == Ok::<InitPlan, Fatal>(
                    (InitPlan { ctx: (InitContext { environment: s.environment }) }),
                )
            },
    {
        match &mut self.slot {
            Some(s) => {
                s.can_dupe = can_dupe;
                Ok(InitPlan { ctx: InitContext { environment: s.environment } })
            }
            None => Err(Fatal { entry: EntryPoint::Init, reason: FatalReason::NotInitialized }),
        }
    }

    /// The set-environment entry point as a transition. The stored callback
    /// is replaced by whatever the host delivered (cleared when null); the
    /// call counts as *initial* exactly when it delivers the first non-null
    /// callback, and only then does the plan carry the one-time setup steps.
    pub open spec fn spec_set_environment(b: Bridge, callback: Option<CallbackAddr>) -> (
        Bridge,
        Result<SetEnvironmentPlan, Fatal>,
    ) {
        match b.slot {
            None => (
                b,
                Err(Fatal { entry: EntryPoint::SetEnvironment, reason: FatalReason::NotInitialized }),
            ),
            Some(s) => {
                let initial = callback is Some && !s.environment_set;
                let updated = InstanceSlot {
                    environment: callback,
                    environment_set: s.environment_set || callback is Some,
                    ..s
                };
                (
                    Bridge { slot: Some(updated), ..b },
                    Ok(
                        SetEnvironmentPlan {
                            initial,
                            ctx: SetEnvironmentContext { environment: callback },
                        },
                    ),
                )
            }
        }
    }

    /// The set-environment entry point. The host may legally call it more
    /// than once; one-time setup (logging, bitmask negotiation, default
    /// option registration) belongs to the first call that delivers a
    /// non-null callback, and a null callback clears the stored one.
    pub fn set_environment(&mut self, callback: Option<CallbackAddr>) -> (r: Result<
        SetEnvironmentPlan,
        Fatal,
    >)
        requires
            old(self).wf(),
        ensures
            final(self).wf(),
            (*final(self), r) == Bridge::spec_set_environment(*old(self), callback),
    {
        match &mut self.slot {
            None => Err(
                Fatal { entry: EntryPoint::SetEnvironment, reason: FatalReason::NotInitialized },
            ),
            Some(s) => {
                let initial = callback.is_some() && !s.environment_set;
                if callback.is_some() {
                    s.environment_set = true;
                }
                s.environment = callback;
                Ok(
                    SetEnvironmentPlan {
                        initial,
                        ctx: SetEnvironmentContext { environment: callback },
                    },
                )
            }
        }
    }

    /// Records the host's answer to the bitmask-input negotiation that the
    /// plan of an initial set-environment call directs the adapter to
    /// perform.
    pub fn record_bitmask_support(&mut self, supported: bool)
        requires
            old(self).wf(),
            old(self).slot is Some,
        ensures
            final(self).wf(),
            old(self).slot matches Some(s) ==> *final(self) == (Bridge {
                slot: Some((InstanceSlot { supports_bitmasks: supported, ..s })),
                ..*old(self)
            }),
    {
        match &mut self.slot {
            Some(s) => s.supports_bitmasks = supported,
            None => {}
        }
    }

    /// A generic-stage entry point (reset, deinit, unload, serialize-size
    /// query, cheat reset, region query): requires a registered core and
    /// synthesizes the environment-query-only context.
    pub fn generic_event(&self, entry: GenericEntry) -> (r: Result<GenericPlan, Fatal>)
        ensures
            self.slot is None ==> r == Err::<GenericPlan, Fatal>(
                (Fatal { entry: generic_entry_point(entry), reason: FatalReason::NotInitialized }),
            ),
            self.slot matches Some(s) ==> r == Ok::<GenericPlan, Fatal>(
                (GenericPlan { entry, ctx: (GenericContext { environment: s.environment }) }),
            ),
    {
        match &self.slot {
            None => Err(
                Fatal { entry: entry.entry_point(), reason: FatalReason::NotInitialized },
            ),
            Some(s) => Ok(GenericPlan { entry, ctx: GenericContext { environment: s.environment } }),
        }
    }

    /// The AV-info query: fatal without a core, fatal on a null output
    /// structure, and otherwise always a fresh hook invocation — the bridge
    /// keeps no AV-info cache, so the host never observes a stale value.
    pub fn get_av_info(&self, info_is_null: bool) -> (r: Result<AvInfoPlan, Fatal>)
        ensures
            self.slot is None ==> r == Err::<AvInfoPlan, Fatal>(
                (Fatal { entry: EntryPoint::GetAvInfo, reason: FatalReason::NotInitialized }),
            ),
            self.slot is Some && info_is_null ==> r == Err::<AvInfoPlan, Fatal>(
                (Fatal { entry: EntryPoint::GetAvInfo, reason: FatalReason::NullStructPointer }),
            ),
            self.slot matches Some(s) ==> !info_is_null ==> r == Ok::<AvInfoPlan, Fatal>(
                (AvInfoPlan { ctx: (GetAvInfoContext { environment: s.environment }) }),
            ),
    {
        match &self.slot {
            None => Err(Fatal { entry: EntryPoint::GetAvInfo, reason: FatalReason::NotInitialized }),
            Some(s) => {
                if info_is_null {
                    Err(Fatal { entry: EntryPoint::GetAvInfo, reason: FatalReason::NullStructPointer })
                } else {
                    Ok(AvInfoPlan { ctx: GetAvInfoContext { environment: s.environment } })
                }
            }
        }
    }

    /// The controller-port assignment: forwarded verbatim to the core.
    pub fn set_controller_port_device(&self, port: u32, device: u32) -> (r: Result<
        DevicePlan,
        Fatal,
    >)
        ensures
            self.slot is None ==> r == Err::<DevicePlan, Fatal>(
                (Fatal {
                    entry: EntryPoint::SetControllerPortDevice,
                    reason: FatalReason::NotInitialized,
                }),
            ),
            self.slot is Some ==> r == Ok::<DevicePlan, Fatal>((DevicePlan { port, device })),
    {
        match &self.slot {
            None => Err(
                Fatal {
                    entry: EntryPoint::SetControllerPortDevice,
                    reason: FatalReason::NotInitialized,
                },
            ),
            Some(_) => Ok(DevicePlan { port, device }),
        }
    }

    /// The run entry point, called once per frame. The adapter first asks
    /// the host whether variables changed (through the stored environment
    /// callback) and passes the answer in. The returned plan notifies the
    /// core of changed options exactly when the host signalled an update,
    /// invokes the input poll exactly when one is registered — both before
    /// the run hook — and hands the run hook the one-shot frame-time delta,
    /// which is consumed here: the slot's copy is cleared.
    pub fn run(&mut self, variables_updated: bool) -> (r: Result<RunPlan, Fatal>)
        requires
            old(self).wf(),
        ensures
            final(self).wf(),
            old(self).slot is None ==> r == Err::<RunPlan, Fatal>(
                (Fatal { entry: EntryPoint::Run, reason: FatalReason::NotInitialized }),
            ) && *final(self) == *old(self),
            old(self).slot matches Some(s) ==> {
                &&& *final(self) == (Bridge {
                    slot: Some((InstanceSlot { frame_delta: None, ..s })),
                    ..*old(self)
                })
                &&& r == Ok::<RunPlan, Fatal>(
                    (RunPlan {
                        notify_options_changed: variables_updated,
                        options_ctx: (OptionsChangedContext { environment: s.environment }),
                        input_poll: s.input_poll,
                        frame_delta: s.frame_delta,
                        ctx: (RunContext {
                            environment: s.environment,
                            video_refresh: s.video_refresh,
                            audio_sample: s.audio_sample,
                            audio_sample_batch: s.audio_sample_batch,
                            input_poll: s.input_poll,
                            input_state: s.input_state,
                            can_dupe: s.can_dupe,
                            supports_bitmasks: s.supports_bitmasks,
                            had_frame: s.had_frame,
                            last_width: s.last_width,
                            last_height: s.last_height,
                            last_pitch: s.last_pitch,
                        }),
                    }),
                )
            },
    {
        match &mut self.slot {
            None => Err(Fatal { entry: EntryPoint::Run, reason: FatalReason::NotInitialized }),
            Some(s) => {
                let frame_delta = s.frame_delta;
                s.frame_delta = None;
                Ok(
                    RunPlan {
                        notify_options_changed: variables_updated,
                        options_ctx: OptionsChangedContext { environment: s.environment },
                        input_poll: s.input_poll,
                        frame_delta,
                        ctx: RunContext {
                            environment: s.environment,
                            video_refresh: s.video_refresh,
                            audio_sample: s.audio_sample,
                            audio_sample_batch: s.audio_sample_batch,
                            input_poll: s.input_poll,
                            input_state: s.input_state,
                            can_dupe: s.can_dupe,
                            supports_bitmasks: s.supports_bitmasks,
                            had_frame: s.had_frame,
                            last_width: s.last_width,
                            last_height: s.last_height,
                            last_pitch: s.last_pitch,
                        },
                    },
                )
            }
        }
    }

    /// Writes the frame-timing state back after the run hook returned; the
    /// core updated it through its run context.
    pub fn commit_frame_state(&mut self, ctx: &RunContext)
        requires
            old(self).wf(),
            old(self).slot is Some,
        ensures
            final(self).wf(),
            old(self).slot matches Some(s) ==> *final(self) == (Bridge {
                slot: Some((InstanceSlot {
                    had_frame: ctx.had_frame,
                    last_width: ctx.last_width,
                    last_height: ctx.last_height,
                    last_pitch: ctx.last_pitch,
                    ..s
                })),
                ..*old(self)
            }),
    {
        match &mut self.slot {
            Some(s) => {
                s.had_frame = ctx.had_frame;
                s.last_width = ctx.last_width;
                s.last_height = ctx.last_height;
                s.last_pitch = ctx.last_pitch;
            }
            None => {}
        }
    }

    /// The serialize entry point. A null data pointer is answered negatively
    /// without consulting the core — even before the instance check, so it
    /// never aborts a process that merely lacks a core; otherwise the core
    /// serializes into the host's buffer of `size` bytes.
    pub fn serialize(&self, data_is_null: bool, size: usize) -> (r: Result<SerializeOutcome, Fatal>)
        ensures
            data_is_null ==> r == Ok::<SerializeOutcome, Fatal>(SerializeOutcome::Rejected),
            !data_is_null && self.slot is None ==> r == Err::<SerializeOutcome, Fatal>(
                (Fatal { entry: EntryPoint::Serialize, reason: FatalReason::NotInitialized }),
            ),
            self.slot matches Some(s) ==> !data_is_null ==> r == Ok::<SerializeOutcome, Fatal>(
                (SerializeOutcome::Invoke {
                    len: size,
                    ctx: (GenericContext { environment: s.environment }),
                }),
            ),
    {
        if data_is_null {
            return Ok(SerializeOutcome::Rejected);
        }
        match &self.slot {
            None => Err(Fatal { entry: EntryPoint::Serialize, reason: FatalReason::NotInitialized }),
            Some(s) => Ok(
                SerializeOutcome::Invoke {
                    len: size,
                    ctx: GenericContext { environment: s.environment },
                },
            ),
        }
    }

    /// The unserialize entry point; the same boundary rules as
    /// [`Bridge::serialize`].
    pub fn unserialize(&self, data_is_null: bool, size: usize) -> (r: Result<
        SerializeOutcome,
        Fatal,
    >)
        ensures
            data_is_null ==> r == Ok::<SerializeOutcome, Fatal>(SerializeOutcome::Rejected),
            !data_is_null && self.slot is None ==> r == Err::<SerializeOutcome, Fatal>(
                (Fatal { entry: EntryPoint::Unserialize, reason: FatalReason::NotInitialized }),
            ),
            self.slot matches Some(s) ==> !data_is_null ==> r == Ok::<SerializeOutcome, Fatal>(
                (SerializeOutcome::Invoke {
                    len: size,
                    ctx: (GenericContext { environment: s.environment }),
                }),
            ),
    {
        if data_is_null {
            return Ok(SerializeOutcome::Rejected);
        }
        match &self.slot {
            None => Err(
                Fatal { entry: EntryPoint::Unserialize, reason: FatalReason::NotInitialized },
            ),
            Some(s) => Ok(
                SerializeOutcome::Invoke {
                    len: size,
                    ctx: GenericContext { environment: s.environment },
                },
            ),
        }
    }

    /// The cheat-set entry point. A null code pointer is ignored with a
    /// logged warning (this entry point has no return channel), without
    /// consulting the core.
    pub fn cheat_set(&self, code_is_null: bool, index: u32, enabled: bool) -> (r: Result<
        CheatOutcome,
        Fatal,
    >)
        ensures
            code_is_null ==> r == Ok::<CheatOutcome, Fatal>(CheatOutcome::Ignored),
            !code_is_null && self.slot is None ==> r == Err::<CheatOutcome, Fatal>(
                (Fatal { entry: EntryPoint::CheatSet, reason: FatalReason::NotInitialized }),
            ),
            self.slot matches Some(s) ==> !code_is_null ==> r == Ok::<CheatOutcome, Fatal>(
                (CheatOutcome::Invoke {
                    index,
                    enabled,
                    ctx: (GenericContext { environment: s.environment }),
                }),
            ),
    {
        if code_is_null {
            return Ok(CheatOutcome::Ignored);
        }
        match &self.slot {
            None => Err(Fatal { entry: EntryPoint::CheatSet, reason: FatalReason::NotInitialized }),
            Some(s) => Ok(
                CheatOutcome::Invoke {
                    index,
                    enabled,
                    ctx: GenericContext { environment: s.environment },
                },
            ),
        }
    }

    /// The load-game entry point. The plan fires the options-changed
    /// notification immediately before the load hook, and tells the adapter
    /// whether the host described a game at all: a null game pointer is the
    /// legal "no game" case, which the core observes as an absent argument —
    /// distinct from a present game whose load then fails.
    pub fn load_game(&self, game_present: bool) -> (r: Result<LoadGamePlan, Fatal>)
        ensures
            self.slot is None ==> r == Err::<LoadGamePlan, Fatal>(
                (Fatal { entry: EntryPoint::LoadGame, reason: FatalReason::NotInitialized }),
            ),
            self.slot matches Some(s) ==> r == Ok::<LoadGamePlan, Fatal>(
                (LoadGamePlan {
                    options_ctx: (OptionsChangedContext { environment: s.environment }),
                    game_present,
                    ctx: (LoadGameContext { environment: s.environment, services: s.services }),
                }),
            ),
    {
        match &self.slot {
            None => Err(Fatal { entry: EntryPoint::LoadGame, reason: FatalReason::NotInitialized }),
            Some(s) => Ok(
                LoadGamePlan {
                    options_ctx: OptionsChangedContext { environment: s.environment },
                    game_present,
                    ctx: LoadGameContext { environment: s.environment, services: s.services },
                },
            ),
        }
    }

    /// Writes the service interfaces back after the load hook returned; the
    /// core opted into host services through its load context.
    pub fn commit_services(&mut self, services: ServiceInterfaces)
        requires
            old(self).wf(),
            old(self).slot is Some,
        ensures
            final(self).wf(),
            old(self).slot matches Some(s) ==> *final(self) == (Bridge {
                slot: Some((InstanceSlot { services, ..s })),
                ..*old(self)
            }),
    {
        match &mut self.slot {
            Some(s) => s.services = services,
            None => {}
        }
    }

    /// The special-load entry point. A null record pointer is answered
    /// negatively without consulting the core; otherwise the plan's steps
    /// fire options-changed and then the special-load hook, to which the
    /// adapter hands the host's game type together with its `num_info` game
    /// records, converted to owned plain values.
    pub fn load_game_special(&self, info_is_null: bool, game_type: u32, num_info: usize) -> (r:
        Result<LoadSpecialOutcome, Fatal>)
        ensures
            info_is_null ==> r == Ok::<LoadSpecialOutcome, Fatal>(LoadSpecialOutcome::Rejected),
            !info_is_null && self.slot is None ==> r == Err::<LoadSpecialOutcome, Fatal>(
                (Fatal { entry: EntryPoint::LoadGameSpecial, reason: FatalReason::NotInitialized }),
            ),
            self.slot matches Some(s) ==> !info_is_null ==> r == Ok::<LoadSpecialOutcome, Fatal>(
                LoadSpecialOutcome::Invoke(
                    (LoadSpecialPlan {
                        options_ctx: (OptionsChangedContext { environment: s.environment }),
                        game_type,
                        num_info,
                        ctx: (LoadGameSpecialContext { environment: s.environment }),
                    }),
                ),
            ),
    {
        if info_is_null {
            return Ok(LoadSpecialOutcome::Rejected);
        }
        match &self.slot {
            None => Err(
                Fatal { entry: EntryPoint::LoadGameSpecial, reason: FatalReason::NotInitialized },
            ),
            Some(s) => Ok(
                LoadSpecialOutcome::Invoke(
                    LoadSpecialPlan {
                        options_ctx: OptionsChangedContext { environment: s.environment },
                        game_type,
                        num_info,
                        ctx: LoadGameSpecialContext { environment: s.environment },
                    },
                ),
            ),
        }
    }

    /// A memory-region data query for region `id`.
    pub fn memory_data(&self, id: u32) -> (r: Result<MemoryPlan, Fatal>)
        ensures
            self.slot is None ==> r == Err::<MemoryPlan, Fatal>(
                (Fatal { entry: EntryPoint::GetMemoryData, reason: FatalReason::NotInitialized }),
            ),
            self.slot matches Some(s) ==> r == Ok::<MemoryPlan, Fatal>(
                (MemoryPlan { id, ctx: (GenericContext { environment: s.environment }) }),
            ),
    {
        match &self.slot {
            None => Err(
                Fatal { entry: EntryPoint::GetMemoryData, reason: FatalReason::NotInitialized },
            ),
            Some(s) => Ok(MemoryPlan { id, ctx: GenericContext { environment: s.environment } }),
        }
    }

    /// A memory-region size query for region `id`.
    pub fn memory_size(&self, id: u32) -> (r: Result<MemoryPlan, Fatal>)
        ensures
            self.slot is None ==> r == Err::<MemoryPlan, Fatal>(
                (Fatal { entry: EntryPoint::GetMemorySize, reason: FatalReason::NotInitialized }),
            ),
            self.slot matches Some(s) ==> r == Ok::<MemoryPlan, Fatal>(
                (MemoryPlan { id, ctx: (GenericContext { environment: s.environment }) }),
            ),
    {
        match &self.slot {
            None => Err(
                Fatal { entry: EntryPoint::GetMemorySize, reason: FatalReason::NotInitialized },
            ),
            Some(s) => Ok(MemoryPlan { id, ctx: GenericContext { environment: s.environment } }),
        }
    }

    /// The I/O callback-setters: a present value with a null address is a
    /// host contract violation and fatal; an absent value clears the slot
    /// without error; anything else is recorded. No ordering among setters
    /// is enforced — the ABI guarantees they all arrive before the first run
    /// call, and the bridge trusts that.
    pub fn set_callback(&mut self, kind: CallbackKind, callback: Option<CallbackAddr>) -> (r:
        Result<(), Fatal>)
        requires
            old(self).wf(),
        ensures
            final(self).wf(),
            old(self).slot is None ==> r == Err::<(), Fatal>(
                (Fatal { entry: callback_entry(kind), reason: FatalReason::NotInitialized }),
            ) && *final(self) == *old(self),
            old(self).slot is Some && callback == Some(0usize) ==> r == Err::<(), Fatal>(
                (Fatal {
                    entry: callback_entry(kind),
                    reason: (FatalReason::NullCallbackPointer { kind }),
                }),
            ) && *final(self) == *old(self),
            old(self).slot matches Some(s) ==> callback != Some(0usize) ==> r == Ok::<(), Fatal>(())
                && *final(self) == (Bridge {
                slot: Some(s.spec_with_callback(kind, callback)),
                ..*old(self)
            }),
    {
        match &mut self.slot {
            None => Err(
                Fatal { entry: kind.entry_point(), reason: FatalReason::NotInitialized },
            ),
            Some(s) => {
                if let Some(addr) = callback {
                    if addr == 0 {
                        return Err(
                            Fatal {
                                entry: kind.entry_point(),
                                reason: FatalReason::NullCallbackPointer { kind },
                            },
                        );
                    }
                }
                match kind {
                    CallbackKind::AudioSample => s.audio_sample = callback,
                    CallbackKind::AudioSampleBatch => s.audio_sample_batch = callback,
                    CallbackKind::InputPoll => s.input_poll = callback,
                    CallbackKind::InputState => s.input_state = callback,
                    CallbackKind::VideoRefresh => s.video_refresh = callback,
                }
                Ok(())
            }
        }
    }

    /// The side callback through which the host reports the frame-time
    /// delta; it is held until the next run call consumes it. Without a
    /// registered core the report is dropped silently — this is a host
    /// callback, not a dispatch entry point.
    pub fn record_frame_time(&mut self, usec: i64)
        requires
            old(self).wf(),
        ensures
            final(self).wf(),
            old(self).slot is None ==> *final(self) == *old(self),
            old(self).slot matches Some(s) ==> *final(self) == (Bridge {
                slot: Some((InstanceSlot { frame_delta: Some(usec), ..s })),
                ..*old(self)
            }),
    {
        match &mut self.slot {
            Some(s) => s.frame_delta = Some(usec),
            None => {}
        }
    }

    /// The audio-write notification for callback-driven audio hosts: invoke
    /// the core's audio hook when a core is registered, exposing exactly the
    /// two audio callbacks beside the environment query; silently dropped
    /// otherwise.
    pub fn audio_write(&self) -> (r: Option<AudioWritePlan>)
        ensures
            self.slot is None ==> r is None,
            self.slot matches Some(s) ==> r == Some(
                (AudioWritePlan {
                    ctx: (AudioContext {
                        environment: s.environment,
                        audio_sample: s.audio_sample,
                        audio_sample_batch: s.audio_sample_batch,
                    }),
                }),
            ),
    {
        match &self.slot {
            None => None,
            Some(s) => Some(
                AudioWritePlan {
                    ctx: AudioContext {
                        environment: s.environment,
                        audio_sample: s.audio_sample,
                        audio_sample_batch: s.audio_sample_batch,
                    },
                },
            ),
        }
    }

    /// The audio-state notification: forwarded to the core when one is
    /// registered, silently dropped otherwise.
    pub fn audio_state_event(&self, enabled: bool) -> (r: Option<bool>)
        ensures
            self.slot is None ==> r is None,
            self.slot is Some ==> r == Some(enabled),
    {
        match &self.slot {
            None => None,
            Some(_) => Some(enabled),
        }
    }

    /// The keyboard notification: forwarded to the core verbatim when one is
    /// registered, silently dropped otherwise.
    pub fn keyboard_event(&self, down: bool, keycode: u32, character: u32, key_modifiers: u16) -> (r:
        Option<KeyboardEvent>)
        ensures
            self.slot is None ==> r is None,
            self.slot is Some ==> r == Some(
                (KeyboardEvent { down, keycode, character, key_modifiers }),
            ),
    {
        match &self.slot {
            None => None,
            Some(_) => Some(KeyboardEvent { down, keycode, character, key_modifiers }),
        }
    }
}

} // verus!

//! The instance slot: everything the bridge remembers about the one
//! registered core between entry-point calls.

use vstd::prelude::*;

use crate::types::CallbackAddr;
use crate::types::CallbackKind;
use crate::types::ServiceInterfaces;
use crate::types::SystemInfo;

verus! {

/// Process-wide storage for the single registered core: its static identity,
/// the environment callback the host handed in, the registered I/O
/// callbacks, the flags negotiated with the host, the frame-timing state the
/// run stage exposes, and the service interfaces negotiated during load.
#[derive(Clone, Debug, PartialEq, Eq)]
pub struct InstanceSlot {
    /// Static facts about the registered core, captured at registration.
    pub info: SystemInfo,
    /// The host's environment callback, as last delivered (cleared when the
    /// host hands in null).
    pub environment: Option<CallbackAddr>,
    /// Whether a non-null environment callback has ever been delivered; the
    /// one-time setup of the set-environment stage keys off this flag.
    pub environment_set: bool,
    /// Per-sample audio callback.
    pub audio_sample: Option<CallbackAddr>,
    /// Batched audio callback.
    pub audio_sample_batch: Option<CallbackAddr>,
    /// Input polling callback, invoked once per run call when present.
    pub input_poll: Option<CallbackAddr>,
    /// Input state query callback.
    pub input_state: Option<CallbackAddr>,
    /// Frame drawing callback.
    pub video_refresh: Option<CallbackAddr>,
    /// Whether the host accepts duplicate frames; negotiated during init.
    pub can_dupe: bool,
    /// Whether the host supports bitmask input queries; negotiated on the
    /// first set-environment call.
    pub supports_bitmasks: bool,
    /// Whether the core has produced a frame yet.
    pub had_frame: bool,
    /// Width of the last produced frame.
    pub last_width: u32,
    /// Height of the last produced frame.
    pub last_height: u32,
    /// Pitch of the last produced frame.
    pub last_pitch: usize,
    /// One-shot frame-time delta captured by a side callback, consumed by the
    /// next run call.
    pub frame_delta: Option<i64>,
    /// Host service interfaces the core opted into during load.
    pub services: ServiceInterfaces,
}

impl InstanceSlot {
    /// The slot as registration leaves it: the given identity, and every
    /// callback, flag and negotiated capability at its default, unset state.
    pub open spec fn spec_fresh(info: SystemInfo) -> InstanceSlot {
        InstanceSlot {
            info,
            environment: None,
            environment_set: false,
            audio_sample: None,
            audio_sample_batch: None,
            input_poll: None,
            input_state: None,
            video_refresh: None,
            can_dupe: false,
            supports_bitmasks: false,
            had_frame: false,
            last_width: 0,
            last_height: 0,
            last_pitch: 0,
            frame_delta: None,
            services: ServiceInterfaces::spec_absent(),
        }
    }

    /// Executable counterpart of [`InstanceSlot::spec_fresh`].
    pub fn fresh(info: SystemInfo) -> (r: InstanceSlot)
        ensures
            r == InstanceSlot::spec_fresh(info),
    {
        InstanceSlot {
            info,
            environment: None,
            environment_set: false,
            audio_sample: None,
            audio_sample_batch: None,
            input_poll: None,
            input_state: None,
            video_refresh: None,
            can_dupe: false,
            supports_bitmasks: false,
            had_frame: false,
            last_width: 0,
            last_height: 0,
            last_pitch: 0,
            frame_delta: None,
            services: ServiceInterfaces::absent(),
        }
    }

    /// The stored address of one I/O callback slot.
    pub open spec fn spec_callback(self, kind: CallbackKind) -> Option<CallbackAddr> {
        match kind {
            CallbackKind::AudioSample => self.audio_sample,
            CallbackKind::AudioSampleBatch => self.audio_sample_batch,
            CallbackKind::InputPoll => self.input_poll,
            CallbackKind::InputState => self.input_state,
            CallbackKind::VideoRefresh => self.video_refresh,
        }
    }

    /// This slot with one I/O callback slot replaced and everything else kept.
    pub open spec fn spec_with_callback(
        self,
        kind: CallbackKind,
        callback: Option<CallbackAddr>,
    ) -> InstanceSlot {
        match kind {
            CallbackKind::AudioSample => InstanceSlot { audio_sample: callback, ..self },
            CallbackKind::AudioSampleBatch => InstanceSlot {
                audio_sample_batch: callback,
                ..self
            },
            CallbackKind::InputPoll => InstanceSlot { input_poll: callback, ..self },
            CallbackKind::InputState => InstanceSlot { input_state: callback, ..self },
            CallbackKind::VideoRefresh => InstanceSlot { video_refresh: callback, ..self },
        }
    }

    /// Every registered I/O callback has a non-null address: the setters
    /// reject a present-but-null value, so a populated slot never holds one.
    pub open spec fn wf(self) -> bool {
        &&& (self.audio_sample matches Some(a) ==> a != 0)
        &&& (self.audio_sample_batch matches Some(a) ==> a != 0)
        &&& (self.input_poll matches Some(a) ==> a != 0)
        &&& (self.input_state matches Some(a) ==> a != 0)
        &&& (self.video_refresh matches Some(a) ==> a != 0)
    }
}

} // verus!

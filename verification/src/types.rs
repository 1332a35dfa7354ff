//! Plain value types shared across the bridge: entry-point identifiers,
//! fatal diagnostics, and the descriptive structures that mirror what the
//! host ABI exchanges with a core (system info, AV info, game info).

use vstd::prelude::*;

verus! {

/// Address of a host-supplied callback, as handed across the ABI. The
/// runtime adapter converts each raw function pointer to its address; a
/// present-but-zero address is a host contract violation (see
/// [`crate::bridge::Bridge::set_callback`]).
pub type CallbackAddr = usize;

/// Identifies an ABI entry point in diagnostics: every fatal error names the
/// entry point through which the violated call arrived.
#[derive(Clone, Copy, Debug, PartialEq, Eq)]
pub enum EntryPoint {
    Register,
    Init,
    Deinit,
    Reset,
    Run,
    SerializeSize,
    Serialize,
    Unserialize,
    CheatReset,
    CheatSet,
    LoadGame,
    LoadGameSpecial,
    UnloadGame,
    GetRegion,
    GetSystemInfo,
    GetAvInfo,
    SetEnvironment,
    SetControllerPortDevice,
    GetMemoryData,
    GetMemorySize,
    SetAudioSample,
    SetAudioSampleBatch,
    SetInputPoll,
    SetInputState,
    SetVideoRefresh,
}

/// The I/O callback-setter family: one slot per host-delivered callback.
#[derive(Clone, Copy, Debug, PartialEq, Eq)]
pub enum CallbackKind {
    AudioSample,
    AudioSampleBatch,
    InputPoll,
    InputState,
    VideoRefresh,
}

/// The ABI name of an entry point, as it appears in fatal diagnostics.
pub open spec fn entry_name(e: EntryPoint) -> Seq<char> {
    match e {
        EntryPoint::Register => "set_core"@,
        EntryPoint::Init => "retro_init"@,
        EntryPoint::Deinit => "retro_deinit"@,
        EntryPoint::Reset => "retro_reset"@,
        EntryPoint::Run => "retro_run"@,
        EntryPoint::SerializeSize => "retro_serialize_size"@,
        EntryPoint::Serialize => "retro_serialize"@,
        EntryPoint::Unserialize => "retro_unserialize"@,
        EntryPoint::CheatReset => "retro_cheat_reset"@,
        EntryPoint::CheatSet => "retro_cheat_set"@,
        EntryPoint::LoadGame => "retro_load_game"@,
        EntryPoint::LoadGameSpecial => "retro_load_game_special"@,
        EntryPoint::UnloadGame => "retro_unload_game"@,
        EntryPoint::GetRegion => "retro_get_region"@,
        EntryPoint::GetSystemInfo => "retro_get_system_info"@,
        EntryPoint::GetAvInfo => "retro_get_system_av_info"@,
        EntryPoint::SetEnvironment => "retro_set_environment"@,
        EntryPoint::SetControllerPortDevice => "retro_set_controller_port_device"@,
        EntryPoint::GetMemoryData => "retro_get_memory_data"@,
        EntryPoint::GetMemorySize => "retro_get_memory_size"@,
        EntryPoint::SetAudioSample => "retro_set_audio_sample"@,
        EntryPoint::SetAudioSampleBatch => "retro_set_audio_sample_batch"@,
        EntryPoint::SetInputPoll => "retro_set_input_poll"@,
        EntryPoint::SetInputState => "retro_set_input_state"@,
        EntryPoint::SetVideoRefresh => "retro_set_video_refresh"@,
    }
}

/// Executable counterpart of [`entry_name`].
pub fn entry_name_str(e: EntryPoint) -> (r: &'static str)
    ensures
        r@ == entry_name(e),
{
    match e {
        EntryPoint::Register => "set_core",
        EntryPoint::Init => "retro_init",
        EntryPoint::Deinit => "retro_deinit",
        EntryPoint::Reset => "retro_reset",
        EntryPoint::Run => "retro_run",
        EntryPoint::SerializeSize => "retro_serialize_size",
        EntryPoint::Serialize => "retro_serialize",
        EntryPoint::Unserialize => "retro_unserialize",
        EntryPoint::CheatReset => "retro_cheat_reset",
        EntryPoint::CheatSet => "retro_cheat_set",
        EntryPoint::LoadGame => "retro_load_game",
        EntryPoint::LoadGameSpecial => "retro_load_game_special",
        EntryPoint::UnloadGame => "retro_unload_game",
        EntryPoint::GetRegion => "retro_get_region",
        EntryPoint::GetSystemInfo => "retro_get_system_info",
        EntryPoint::GetAvInfo => "retro_get_system_av_info",
        EntryPoint::SetEnvironment => "retro_set_environment",
        EntryPoint::SetControllerPortDevice => "retro_set_controller_port_device",
        EntryPoint::GetMemoryData => "retro_get_memory_data",
        EntryPoint::GetMemorySize => "retro_get_memory_size",
        EntryPoint::SetAudioSample => "retro_set_audio_sample",
        EntryPoint::SetAudioSampleBatch => "retro_set_audio_sample_batch",
        EntryPoint::SetInputPoll => "retro_set_input_poll",
        EntryPoint::SetInputState => "retro_set_input_state",
        EntryPoint::SetVideoRefresh => "retro_set_video_refresh",
    }
}

/// The entry point through which a given I/O callback is delivered.
pub open spec fn callback_entry(k: CallbackKind) -> EntryPoint {
    match k {
        CallbackKind::AudioSample => EntryPoint::SetAudioSample,
        CallbackKind::AudioSampleBatch => EntryPoint::SetAudioSampleBatch,
        CallbackKind::InputPoll => EntryPoint::SetInputPoll,
        CallbackKind::InputState => EntryPoint::SetInputState,
        CallbackKind::VideoRefresh => EntryPoint::SetVideoRefresh,
    }
}

impl CallbackKind {
    /// Executable counterpart of [`callback_entry`].
    pub fn entry_point(&self) -> (r: EntryPoint)
        ensures
            r == callback_entry(*self),
    {
        match self {
            CallbackKind::AudioSample => EntryPoint::SetAudioSample,
            CallbackKind::AudioSampleBatch => EntryPoint::SetAudioSampleBatch,
            CallbackKind::InputPoll => EntryPoint::SetInputPoll,
            CallbackKind::InputState => EntryPoint::SetInputState,
            CallbackKind::VideoRefresh => EntryPoint::SetVideoRefresh,
        }
    }
}

/// The ABI type name of an I/O callback, used in the rejection diagnostic
/// for a present-but-null callback value.
pub open spec fn callback_type_name(k: CallbackKind) -> Seq<char> {
    match k {
        CallbackKind::AudioSample => "retro_audio_sample_t"@,
        CallbackKind::AudioSampleBatch => "retro_audio_sample_batch_t"@,
        CallbackKind::InputPoll => "retro_input_poll_t"@,
        CallbackKind::InputState => "retro_input_state_t"@,
        CallbackKind::VideoRefresh => "retro_video_refresh_t"@,
    }
}

/// Executable counterpart of [`callback_type_name`].
pub fn callback_type_name_str(k: CallbackKind) -> (r: &'static str)
    ensures
        r@ == callback_type_name(k),
{
    match k {
        CallbackKind::AudioSample => "retro_audio_sample_t",
        CallbackKind::AudioSampleBatch => "retro_audio_sample_batch_t",
        CallbackKind::InputPoll => "retro_input_poll_t",
        CallbackKind::InputState => "retro_input_state_t",
        CallbackKind::VideoRefresh => "retro_video_refresh_t",
    }
}

/// The ABI name of a host-owned structure an entry point must fill; only the
/// two info queries receive such a structure.
pub open spec fn struct_name(e: EntryPoint) -> Seq<char> {
    match e {
        EntryPoint::GetSystemInfo => "retro_system_info"@,
        EntryPoint::GetAvInfo => "retro_system_av_info"@,
        _ => ""@,
    }
}

/// Executable counterpart of [`struct_name`].
pub fn struct_name_str(e: EntryPoint) -> (r: &'static str)
    ensures
        r@ == struct_name(e),
{
    match e {
        EntryPoint::GetSystemInfo => "retro_system_info",
        EntryPoint::GetAvInfo => "retro_system_av_info",
        _ => "",
    }
}

/// Why an entry point had to give up. Every variant is a host contract
/// violation or an internal unrecoverable condition: the ABI has no channel
/// to report either, so the adapter aborts the process with the diagnostic
/// built by [`Fatal::message`].
#[derive(Clone, Debug, PartialEq, Eq)]
pub enum FatalReason {
    /// A dispatch entry point ran before any core was registered.
    NotInitialized,
    /// A second registration was attempted; the fields identify the core
    /// that already owns the instance slot.
    AlreadyRegistered { name: String, version: String },
    /// The host passed a null pointer for a structure the entry point must
    /// fill; no safe default exists.
    NullStructPointer,
    /// A callback-setter received a present value whose address is null.
    NullCallbackPointer { kind: CallbackKind },
    /// The lazy self-registration path ran and still found no core.
    NoCoreInstance,
}

/// A process-terminating diagnostic: which entry point was violated, and how.
#[derive(Clone, Debug, PartialEq, Eq)]
pub struct Fatal {
    pub entry: EntryPoint,
    pub reason: FatalReason,
}

/// The exact text of a fatal diagnostic.
pub open spec fn spec_fatal_message(f: Fatal) -> Seq<char> {
    match f.reason {
        FatalReason::NotInitialized => entry_name(f.entry)
            + ": Core has not been initialized yet!"@,
        FatalReason::AlreadyRegistered { name, version } =>
            "Attempted to set a core after the system was already initialized.\nAlready registered core: "@
            + name@ + " "@ + version@,
        FatalReason::NullStructPointer => "Expected "@ + struct_name(f.entry)
            + ", got NULL pointer instead!"@,
        FatalReason::NullCallbackPointer { kind } => "Expected "@ + callback_type_name(kind)
            + " got NULL pointer instead!"@,
        FatalReason::NoCoreInstance => "No core instance found!"@,
    }
}

impl Fatal {
    /// Builds the diagnostic text the adapter prints while aborting.
    pub fn message(&self) -> (m: String)
        ensures
            m@ == spec_fatal_message(*self),
    {
        match &self.reason {
            FatalReason::NotInitialized => {
                let mut m = String::from_str(entry_name_str(self.entry));
                m.append(": Core has not been initialized yet!");
                m
            }
            FatalReason::AlreadyRegistered { name, version } => {
                let mut m = String::from_str(
                    "Attempted to set a core after the system was already initialized.\nAlready registered core: ",
                );
                m.append(name.as_str());
                m.append(" ");
                m.append(version.as_str());
                m
            }
            FatalReason::NullStructPointer => {
                let mut m = String::from_str("Expected ");
                m.append(struct_name_str(self.entry));
                m.append(", got NULL pointer instead!");
                m
            }
            FatalReason::NullCallbackPointer { kind } => {
                let mut m = String::from_str("Expected ");
                m.append(callback_type_name_str(*kind));
                m.append(" got NULL pointer instead!");
                m
            }
            FatalReason::NoCoreInstance => String::from_str("No core instance found!"),
        }
    }
}

/// Statically known facts about a core, published once to the host and kept
/// alive for the rest of the process.
#[derive(Clone, Debug, PartialEq, Eq)]
pub struct SystemInfo {
    pub library_name: String,
    pub library_version: String,
    pub valid_extensions: String,
    pub need_fullpath: bool,
    pub block_extract: bool,
}

impl SystemInfo {
    /// A field-by-field copy, proven equal to the value it copies; the bridge hands
    /// out copies of its immortal cached value so every query observes the
    /// same data.
    pub fn duplicate(&self) -> (r: SystemInfo)
        ensures
            r == *self,
    {
        SystemInfo {
            library_name: self.library_name.clone(),
            library_version: self.library_version.clone(),
            valid_extensions: self.valid_extensions.clone(),
            need_fullpath: self.need_fullpath,
            block_extract: self.block_extract,
        }
    }
}

/// What the host describes about one game it asks the core to load. The raw
/// ABI hands a path, a data buffer and a metadata string, any of which may be
/// absent; the adapter turns them into owned plain values.
#[derive(Clone, Debug, PartialEq, Eq)]
pub struct GameInfo {
    pub path: Option<String>,
    pub data: Option<Vec<u8>>,
    pub meta: Option<String>,
}

/// Screen geometry reported by a core. The aspect ratio crosses the ABI as a
/// single-precision floating-point field; the bridge never reads it, so it is
/// carried as its raw bit pattern and converted only at the boundary.
#[derive(Clone, Copy, Debug, PartialEq, Eq)]
pub struct GameGeometry {
    pub base_width: u32,
    pub base_height: u32,
    pub max_width: u32,
    pub max_height: u32,
    pub aspect_ratio_bits: u32,
}

/// Timing reported by a core. Both fields cross the ABI as double-precision
/// floating-point values; the bridge copies them through untouched, so they
/// are carried as raw bit patterns.
#[derive(Clone, Copy, Debug, PartialEq, Eq)]
pub struct SystemTiming {
    pub fps_bits: u64,
    pub sample_rate_bits: u64,
}

/// Audio/video parameters, computed freshly by the core on every query and
/// copied field by field into host-owned storage.
#[derive(Clone, Copy, Debug, PartialEq, Eq)]
pub struct AvInfo {
    pub geometry: GameGeometry,
    pub timing: SystemTiming,
}

/// The host service interfaces a core may opt into while a game loads. Each
/// is an address of a host-owned interface table, negotiated during the load
/// stage and absent before it.
#[derive(Clone, Copy, Debug, PartialEq, Eq)]
pub struct ServiceInterfaces {
    pub camera: Option<CallbackAddr>,
    pub performance: Option<CallbackAddr>,
    pub location: Option<CallbackAddr>,
    pub rumble: Option<CallbackAddr>,
    pub sensor: Option<CallbackAddr>,
}

impl ServiceInterfaces {
    /// The state before any negotiation: no interface present.
    pub open spec fn spec_absent() -> ServiceInterfaces {
        ServiceInterfaces {
            camera: None,
            performance: None,
            location: None,
            rumble: None,
            sensor: None,
        }
    }

    /// Executable counterpart of [`ServiceInterfaces::spec_absent`].
    pub fn absent() -> (r: ServiceInterfaces)
        ensures
            r == ServiceInterfaces::spec_absent(),
    {
        ServiceInterfaces {
            camera: None,
            performance: None,
            location: None,
            rumble: None,
            sensor: None,
        }
    }
}

} // verus!

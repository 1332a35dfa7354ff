//! The capability interface a plugin core implements: one method per
//! lifecycle event, each taking the context of its stage. Exactly one
//! concrete core exists per build; the runtime adapter owns it and invokes
//! these hooks as the bridge's plans direct. The core is an opaque
//! collaborator — the bridge makes no assumption about what a hook does, so
//! no method carries a contract; optional events default to doing nothing.

use vstd::prelude::*;

use crate::contexts::AudioContext;
use crate::contexts::GenericContext;
use crate::contexts::GetAvInfoContext;
use crate::contexts::InitContext;
use crate::contexts::LoadGameContext;
use crate::contexts::LoadGameSpecialContext;
use crate::contexts::OptionsChangedContext;
use crate::contexts::RunContext;
use crate::contexts::SetEnvironmentContext;
use crate::types::AvInfo;
use crate::types::GameInfo;
use crate::types::SystemInfo;

verus! {

/// One lifecycle hook per entry point the host may drive. Required methods
/// are the two every core must answer (its static identity and its AV
/// parameters); everything else defaults to a no-op or a conservative
/// refusal.
#[allow(unused_variables)]
pub trait Core {
    /// Static facts about this core; captured at registration and published
    /// through the immortal system-info value.
    fn get_info(&self) -> SystemInfo;

    /// Audio/video parameters, computed freshly on every query.
    fn on_get_av_info(&mut self, ctx: &mut GetAvInfoContext) -> AvInfo;

    /// The set-environment notification; `initial` is true only on the call
    /// that delivered the first non-null environment callback.
    fn on_set_environment(&mut self, initial: bool, ctx: &mut SetEnvironmentContext) {
    }

    /// Registers the core's default options with the host; runs once, before
    /// the first set-environment notification. Returning false reports that
    /// the registration could not be completed.
    fn set_core_options(&self, ctx: &SetEnvironmentContext) -> bool {
        true
    }

    /// The init hook; duplicate-frame support has been negotiated by the
    /// time it runs.
    fn on_init(&mut self, ctx: &mut InitContext) {
    }

    /// The core is being closed and should free its resources.
    fn on_deinit(&mut self, ctx: &mut GenericContext) {
    }

    /// The host assigned a device type to a controller port.
    fn on_set_controller_port_device(&mut self, port: u32, device: u32) {
    }

    /// The current game should be reset.
    fn on_reset(&mut self, ctx: &mut GenericContext) {
    }

    /// Runs the game for one frame. `frame_delta` is the one-shot frame-time
    /// delta the host reported since the previous frame, already consumed
    /// from the slot.
    fn on_run(&mut self, ctx: &mut RunContext, frame_delta: Option<i64>) {
    }

    /// How large a buffer the host must allocate for save states.
    fn get_serialize_size(&mut self, ctx: &mut GenericContext) -> usize {
        0
    }

    /// Serializes the core's state into the host's buffer; false on error.
    /// The buffer is the host's own storage: its length is fixed by the host
    /// and the core writes in place.
    fn on_serialize(&mut self, data: &mut [u8], ctx: &mut GenericContext) -> bool {
        false
    }

    /// Restores the core's state from the host's buffer; false on error.
    fn on_unserialize(&mut self, data: &mut [u8], ctx: &mut GenericContext) -> bool {
        false
    }

    /// All cheats should be unapplied.
    fn on_cheat_reset(&mut self, ctx: &mut GenericContext) {
    }

    /// A cheat code should be applied or disabled; the format of `code` is
    /// core-specific and arrives as the host's raw bytes.
    fn on_cheat_set(&mut self, index: u32, enabled: bool, code: &[u8], ctx: &mut GenericContext) {
    }

    /// Loads a game. `game` is absent for the legal "no game" start; a
    /// present game whose load fails is reported by returning false.
    fn on_load_game(&mut self, game: Option<GameInfo>, ctx: &mut LoadGameContext) -> bool {
        false
    }

    /// Loads a game of a special type from the host's records — the content
    /// itself, one description per record; false on error.
    fn on_load_game_special(
        &mut self,
        game_type: u32,
        records: Vec<GameInfo>,
        ctx: &mut LoadGameSpecialContext,
    ) -> bool {
        false
    }

    /// The current game is being unloaded; runs before deinit.
    fn on_unload_game(&mut self, ctx: &mut GenericContext) {
    }

    /// The region this core's content belongs to, as an ABI region constant.
    fn on_get_region(&mut self, ctx: &mut GenericContext) -> u32 {
        0
    }

    /// The size in bytes of the queried memory region, or zero when the
    /// region does not apply. (Direct pointers into core memory are a raw
    /// ABI affair and stay with the adapter.)
    fn get_memory_size(&mut self, id: u32, ctx: &mut GenericContext) -> usize {
        0
    }

    /// A keyboard event arrived from the host.
    fn on_keyboard_event(&mut self, down: bool, keycode: u32, character: u32, key_modifiers: u16) {
    }

    /// The host asks for audio data (callback-driven audio).
    fn on_write_audio(&mut self, ctx: &mut AudioContext) {
    }

    /// The host's audio system became active or inactive.
    fn on_audio_set_state(&mut self, enabled: bool) {
    }

    /// The host reported that variables / options changed.
    fn on_options_changed(&mut self, ctx: &mut OptionsChangedContext) {
    }
}

} // verus!

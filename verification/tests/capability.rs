use retro_bridge::bridge::Bridge;
use retro_bridge::contexts::{
    GenericContext, GetAvInfoContext, LoadGameContext, LoadGameSpecialContext,
    SetEnvironmentContext,
};
use retro_bridge::plugin::Core;
use retro_bridge::types::{
    AvInfo, GameGeometry, ServiceInterfaces, SystemInfo, SystemTiming,
};

struct MinimalCore;

impl Core for MinimalCore {
    fn get_info(&self) -> SystemInfo {
        SystemInfo {
            library_name: String::from("MinimalCore"),
            library_version: String::from("0.1.0"),
            valid_extensions: String::from(""),
            need_fullpath: false,
            block_extract: false,
        }
    }

    fn on_get_av_info(&mut self, _ctx: &mut GetAvInfoContext) -> AvInfo {
        AvInfo {
            geometry: GameGeometry {
                base_width: 320,
                base_height: 240,
                max_width: 320,
                max_height: 240,
                aspect_ratio_bits: (4.0f32 / 3.0f32).to_bits(),
            },
            timing: SystemTiming {
                fps_bits: 60.0f64.to_bits(),
                sample_rate_bits: 44_100.0f64.to_bits(),
            },
        }
    }
}

#[test]
fn default_hooks_are_conservative() {
    let mut core = MinimalCore;
    let mut ctx = GenericContext { environment: None };
    assert_eq!(core.get_serialize_size(&mut ctx), 0);
    let mut buffer = vec![0u8; 4];
    assert!(!core.on_serialize(&mut buffer[..], &mut ctx));
    assert!(!core.on_unserialize(&mut buffer[..], &mut ctx));
    assert_eq!(buffer, vec![0u8; 4]);
    let mut special_ctx = LoadGameSpecialContext { environment: None };
    assert!(!core.on_load_game_special(3, Vec::new(), &mut special_ctx));
    let mut load_ctx =
        LoadGameContext { environment: None, services: ServiceInterfaces {
            camera: None,
            performance: None,
            location: None,
            rumble: None,
            sensor: None,
        } };
    assert!(!core.on_load_game(None, &mut load_ctx));
    assert_eq!(core.on_get_region(&mut ctx), 0);
    assert_eq!(core.get_memory_size(1, &mut ctx), 0);
    assert!(core.set_core_options(&SetEnvironmentContext { environment: None }));
}

#[test]
fn av_info_round_trips_floating_point_bits() {
    let mut core = MinimalCore;
    let av = core.on_get_av_info(&mut GetAvInfoContext { environment: None });
    assert_eq!(f32::from_bits(av.geometry.aspect_ratio_bits), 4.0f32 / 3.0f32);
    assert_eq!(f64::from_bits(av.timing.fps_bits), 60.0f64);
    assert_eq!(f64::from_bits(av.timing.sample_rate_bits), 44_100.0f64);
}

#[test]
fn registration_captures_core_identity() {
    let core = MinimalCore;
    let mut b = Bridge::new();
    b.register(core.get_info()).unwrap();
    let err = b.register(core.get_info()).unwrap_err();
    assert_eq!(
        err.message(),
        "Attempted to set a core after the system was already initialized.\nAlready registered core: MinimalCore 0.1.0"
    );
}

use retro_bridge::bridge::Bridge;
use retro_bridge::contexts::{
    GenericContext, GetAvInfoContext, LoadGameContext, OptionsChangedContext,
};
use retro_bridge::plan::{
    CheatOutcome, GenericEntry, LoadSpecialOutcome, LoadSpecialStep, LoadStep, SerializeOutcome,
};
use retro_bridge::types::{EntryPoint, FatalReason, ServiceInterfaces, SystemInfo};

fn registered() -> Bridge {
    let mut b = Bridge::new();
    b.register(SystemInfo {
        library_name: String::from("Example"),
        library_version: String::from("1.0.0"),
        valid_extensions: String::new(),
        need_fullpath: false,
        block_extract: false,
    })
    .unwrap();
    b.set_environment(Some(0x1000)).unwrap();
    b
}

#[test]
fn generic_entries_fatal_before_registration() {
    let b = Bridge::new();
    let cases = vec![
        (GenericEntry::CheatReset, "retro_cheat_reset: Core has not been initialized yet!"),
        (GenericEntry::Deinit, "retro_deinit: Core has not been initialized yet!"),
        (GenericEntry::GetRegion, "retro_get_region: Core has not been initialized yet!"),
        (GenericEntry::Reset, "retro_reset: Core has not been initialized yet!"),
        (
            GenericEntry::SerializeSize,
            "retro_serialize_size: Core has not been initialized yet!",
        ),
        (GenericEntry::UnloadGame, "retro_unload_game: Core has not been initialized yet!"),
    ];
    for (entry, text) in cases {
        let err = b.generic_event(entry).unwrap_err();
        assert_eq!(err.reason, FatalReason::NotInitialized);
        assert_eq!(err.message(), text);
    }
}

#[test]
fn generic_entries_synthesize_environment_context() {
    let b = registered();
    let plan = b.generic_event(GenericEntry::Reset).unwrap();
    assert_eq!(plan.entry, GenericEntry::Reset);
    assert_eq!(plan.ctx, GenericContext { environment: Some(0x1000) });
}

#[test]
fn av_info_requires_core_then_rejects_null() {
    let b = Bridge::new();
    let err = b.get_av_info(false).unwrap_err();
    assert_eq!(err.entry, EntryPoint::GetAvInfo);
    assert_eq!(err.reason, FatalReason::NotInitialized);

    let b = registered();
    let err = b.get_av_info(true).unwrap_err();
    assert_eq!(err.reason, FatalReason::NullStructPointer);
    assert_eq!(err.message(), "Expected retro_system_av_info, got NULL pointer instead!");

    let plan = b.get_av_info(false).unwrap();
    assert_eq!(plan.ctx, GetAvInfoContext { environment: Some(0x1000) });
}

#[test]
fn controller_port_device_forwarded() {
    let b = registered();
    let plan = b.set_controller_port_device(1, 5).unwrap();
    assert_eq!(plan.port, 1);
    assert_eq!(plan.device, 5);
    let err = Bridge::new().set_controller_port_device(1, 5).unwrap_err();
    assert_eq!(
        err.message(),
        "retro_set_controller_port_device: Core has not been initialized yet!"
    );
}

#[test]
fn serialize_null_data_rejected_without_core_involvement() {
    // Even with no core registered the null check answers first: no abort.
    let empty = Bridge::new();
    assert_eq!(empty.serialize(true, 100).unwrap(), SerializeOutcome::Rejected);
    assert_eq!(empty.unserialize(true, 100).unwrap(), SerializeOutcome::Rejected);
    let b = registered();
    assert_eq!(b.serialize(true, 100).unwrap(), SerializeOutcome::Rejected);
    assert_eq!(b.unserialize(true, 100).unwrap(), SerializeOutcome::Rejected);
}

#[test]
fn serialize_invokes_core_with_buffer_length() {
    let b = registered();
    assert_eq!(
        b.serialize(false, 64).unwrap(),
        SerializeOutcome::Invoke { len: 64, ctx: GenericContext { environment: Some(0x1000) } }
    );
    assert_eq!(
        b.unserialize(false, 128).unwrap(),
        SerializeOutcome::Invoke { len: 128, ctx: GenericContext { environment: Some(0x1000) } }
    );
}

#[test]
fn serialize_before_registration_is_fatal() {
    let b = Bridge::new();
    let err = b.serialize(false, 64).unwrap_err();
    assert_eq!(err.entry, EntryPoint::Serialize);
    assert_eq!(err.message(), "retro_serialize: Core has not been initialized yet!");
    let err = b.unserialize(false, 64).unwrap_err();
    assert_eq!(err.entry, EntryPoint::Unserialize);
    assert_eq!(err.message(), "retro_unserialize: Core has not been initialized yet!");
}

#[test]
fn cheat_set_null_code_ignored() {
    let empty = Bridge::new();
    assert_eq!(empty.cheat_set(true, 0, true).unwrap(), CheatOutcome::Ignored);
    let b = registered();
    assert_eq!(b.cheat_set(true, 2, false).unwrap(), CheatOutcome::Ignored);
}

#[test]
fn cheat_set_forwards_index_and_state() {
    let b = registered();
    assert_eq!(
        b.cheat_set(false, 7, true).unwrap(),
        CheatOutcome::Invoke {
            index: 7,
            enabled: true,
            ctx: GenericContext { environment: Some(0x1000) },
        }
    );
    let err = Bridge::new().cheat_set(false, 7, true).unwrap_err();
    assert_eq!(err.message(), "retro_cheat_set: Core has not been initialized yet!");
}

#[test]
fn load_game_distinguishes_no_game_from_present_game() {
    let b = registered();
    let absent = b.load_game(false).unwrap();
    assert!(!absent.game_present);
    let present = b.load_game(true).unwrap();
    assert!(present.game_present);
    // The distinction reaches the core inside the load step itself; a failed
    // load of a present game is a separate signal (the hook's return value).
    assert_eq!(
        absent.steps()[1],
        LoadStep::LoadCore { game_present: false, ctx: absent.ctx }
    );
    assert_eq!(
        present.steps()[1],
        LoadStep::LoadCore { game_present: true, ctx: present.ctx }
    );
}

#[test]
fn load_game_notifies_options_first() {
    let b = registered();
    let plan = b.load_game(true).unwrap();
    let steps = plan.steps();
    assert_eq!(steps.len(), 2);
    assert_eq!(
        steps[0],
        LoadStep::NotifyOptionsChanged(OptionsChangedContext { environment: Some(0x1000) })
    );
    assert!(matches!(steps[1], LoadStep::LoadCore { .. }));
}

#[test]
fn load_game_exposes_negotiated_services() {
    let mut b = registered();
    let services = ServiceInterfaces {
        camera: Some(0xa1),
        performance: Some(0xa2),
        location: None,
        rumble: Some(0xa4),
        sensor: None,
    };
    b.commit_services(services);
    let plan = b.load_game(true).unwrap();
    assert_eq!(plan.ctx, LoadGameContext { environment: Some(0x1000), services });
    assert_eq!(b.slot.as_ref().unwrap().services, services);
}

#[test]
fn load_game_before_registration_is_fatal() {
    let err = Bridge::new().load_game(true).unwrap_err();
    assert_eq!(err.entry, EntryPoint::LoadGame);
    assert_eq!(err.message(), "retro_load_game: Core has not been initialized yet!");
}

#[test]
fn load_game_special_null_info_rejected() {
    let empty = Bridge::new();
    assert_eq!(
        empty.load_game_special(true, 3, 2).unwrap(),
        LoadSpecialOutcome::Rejected
    );
    let b = registered();
    assert_eq!(b.load_game_special(true, 3, 2).unwrap(), LoadSpecialOutcome::Rejected);
}

#[test]
fn load_game_special_forwards_type_and_count() {
    let b = registered();
    match b.load_game_special(false, 3, 2).unwrap() {
        LoadSpecialOutcome::Invoke(plan) => {
            assert_eq!(plan.game_type, 3);
            assert_eq!(plan.num_info, 2);
            assert_eq!(plan.ctx.environment, Some(0x1000));
            assert_eq!(plan.options_ctx.environment, Some(0x1000));
        }
        LoadSpecialOutcome::Rejected => panic!("expected an invocation"),
    }
    let err = Bridge::new().load_game_special(false, 3, 2).unwrap_err();
    assert_eq!(err.message(), "retro_load_game_special: Core has not been initialized yet!");
}

#[test]
fn load_game_special_notifies_options_first() {
    let b = registered();
    match b.load_game_special(false, 7, 4).unwrap() {
        LoadSpecialOutcome::Invoke(plan) => {
            let steps = plan.steps();
            assert_eq!(steps.len(), 2);
            assert_eq!(
                steps[0],
                LoadSpecialStep::NotifyOptionsChanged(OptionsChangedContext {
                    environment: Some(0x1000),
                })
            );
            assert_eq!(
                steps[1],
                LoadSpecialStep::LoadSpecialCore { game_type: 7, num_info: 4, ctx: plan.ctx }
            );
        }
        LoadSpecialOutcome::Rejected => panic!("expected an invocation"),
    }
}

#[test]
fn memory_queries_forward_region_id() {
    let b = registered();
    let plan = b.memory_data(2).unwrap();
    assert_eq!(plan.id, 2);
    assert_eq!(plan.ctx, GenericContext { environment: Some(0x1000) });
    let plan = b.memory_size(4).unwrap();
    assert_eq!(plan.id, 4);

    let err = Bridge::new().memory_data(2).unwrap_err();
    assert_eq!(err.message(), "retro_get_memory_data: Core has not been initialized yet!");
    let err = Bridge::new().memory_size(2).unwrap_err();
    assert_eq!(err.message(), "retro_get_memory_size: Core has not been initialized yet!");
}

use retro_bridge::bridge::Bridge;
use retro_bridge::contexts::SetEnvironmentContext;
use retro_bridge::plan::SetupStep;
use retro_bridge::types::{CallbackKind, EntryPoint, FatalReason, SystemInfo};

fn registered() -> Bridge {
    let mut b = Bridge::new();
    b.register(SystemInfo {
        library_name: String::from("Example"),
        library_version: String::from("1.0.0"),
        valid_extensions: String::new(),
        need_fullpath: false,
        block_extract: false,
    })
    .unwrap();
    b
}

#[test]
fn first_environment_call_is_initial() {
    let mut b = registered();
    let plan = b.set_environment(Some(0x1000)).unwrap();
    assert!(plan.initial);
    assert_eq!(plan.ctx, SetEnvironmentContext { environment: Some(0x1000) });
    assert_eq!(
        plan.steps(),
        vec![
            SetupStep::InitializeLogging,
            SetupStep::NegotiateBitmaskInput,
            SetupStep::RegisterDefaultOptions(SetEnvironmentContext { environment: Some(0x1000) }),
            SetupStep::NotifyEnvironment {
                initial: true,
                ctx: SetEnvironmentContext { environment: Some(0x1000) },
            },
        ]
    );
    let s = b.slot.as_ref().unwrap();
    assert_eq!(s.environment, Some(0x1000));
    assert!(s.environment_set);
}

#[test]
fn repeat_environment_call_is_not_initial() {
    let mut b = registered();
    b.set_environment(Some(0x1000)).unwrap();
    let plan = b.set_environment(Some(0x2000)).unwrap();
    assert!(!plan.initial);
    assert_eq!(
        plan.steps(),
        vec![SetupStep::NotifyEnvironment {
            initial: false,
            ctx: SetEnvironmentContext { environment: Some(0x2000) },
        }]
    );
    assert_eq!(b.slot.as_ref().unwrap().environment, Some(0x2000));
}

#[test]
fn null_environment_clears_stored_callback() {
    let mut b = registered();
    b.set_environment(Some(0x1000)).unwrap();
    let plan = b.set_environment(None).unwrap();
    assert!(!plan.initial);
    let s = b.slot.as_ref().unwrap();
    assert_eq!(s.environment, None);
    // The one-time setup stays done: clearing does not rearm it.
    assert!(s.environment_set);
    let plan = b.set_environment(Some(0x3000)).unwrap();
    assert!(!plan.initial);
}

#[test]
fn null_environment_before_first_defers_setup() {
    let mut b = registered();
    let plan = b.set_environment(None).unwrap();
    assert!(!plan.initial);
    assert!(!b.slot.as_ref().unwrap().environment_set);
    // The first callback-bearing call that follows still runs the setup.
    let plan = b.set_environment(Some(0x1000)).unwrap();
    assert!(plan.initial);
}

#[test]
fn environment_before_registration_is_fatal() {
    let mut b = Bridge::new();
    let err = b.set_environment(Some(0x1000)).unwrap_err();
    assert_eq!(err.entry, EntryPoint::SetEnvironment);
    assert_eq!(err.reason, FatalReason::NotInitialized);
    assert_eq!(err.message(), "retro_set_environment: Core has not been initialized yet!");
}

#[test]
fn record_bitmask_support_sets_flag() {
    let mut b = registered();
    b.set_environment(Some(0x1000)).unwrap();
    assert!(!b.slot.as_ref().unwrap().supports_bitmasks);
    b.record_bitmask_support(true);
    assert!(b.slot.as_ref().unwrap().supports_bitmasks);
}

#[test]
fn callback_setter_stores_address() {
    let mut b = registered();
    b.set_callback(CallbackKind::AudioSample, Some(0x11)).unwrap();
    b.set_callback(CallbackKind::AudioSampleBatch, Some(0x22)).unwrap();
    b.set_callback(CallbackKind::InputPoll, Some(0x33)).unwrap();
    b.set_callback(CallbackKind::InputState, Some(0x44)).unwrap();
    b.set_callback(CallbackKind::VideoRefresh, Some(0x55)).unwrap();
    let s = b.slot.as_ref().unwrap();
    assert_eq!(s.audio_sample, Some(0x11));
    assert_eq!(s.audio_sample_batch, Some(0x22));
    assert_eq!(s.input_poll, Some(0x33));
    assert_eq!(s.input_state, Some(0x44));
    assert_eq!(s.video_refresh, Some(0x55));
}

#[test]
fn callback_setter_leaves_other_slots_alone() {
    let mut b = registered();
    b.set_callback(CallbackKind::InputPoll, Some(0x33)).unwrap();
    let s = b.slot.as_ref().unwrap();
    assert_eq!(s.input_poll, Some(0x33));
    assert_eq!(s.audio_sample, None);
    assert_eq!(s.video_refresh, None);
}

#[test]
fn callback_setter_null_address_is_fatal() {
    let mut b = registered();
    b.set_callback(CallbackKind::InputPoll, Some(0x33)).unwrap();
    let before = b.clone();
    let err = b.set_callback(CallbackKind::InputPoll, Some(0)).unwrap_err();
    assert_eq!(err.entry, EntryPoint::SetInputPoll);
    assert_eq!(err.reason, FatalReason::NullCallbackPointer { kind: CallbackKind::InputPoll });
    assert_eq!(err.message(), "Expected retro_input_poll_t got NULL pointer instead!");
    assert_eq!(b, before);
}

#[test]
fn callback_setter_null_address_messages_name_each_type() {
    let mut b = registered();
    let cases = vec![
        (CallbackKind::AudioSample, "Expected retro_audio_sample_t got NULL pointer instead!"),
        (
            CallbackKind::AudioSampleBatch,
            "Expected retro_audio_sample_batch_t got NULL pointer instead!",
        ),
        (CallbackKind::InputState, "Expected retro_input_state_t got NULL pointer instead!"),
        (CallbackKind::VideoRefresh, "Expected retro_video_refresh_t got NULL pointer instead!"),
    ];
    for (kind, text) in cases {
        let err = b.set_callback(kind, Some(0)).unwrap_err();
        assert_eq!(err.message(), text);
    }
}

#[test]
fn callback_setter_absent_clears_previous() {
    let mut b = registered();
    b.set_callback(CallbackKind::VideoRefresh, Some(0x55)).unwrap();
    assert!(b.set_callback(CallbackKind::VideoRefresh, None).is_ok());
    assert_eq!(b.slot.as_ref().unwrap().video_refresh, None);
}

#[test]
fn callback_setter_before_registration_is_fatal() {
    let mut b = Bridge::new();
    let err = b.set_callback(CallbackKind::AudioSample, Some(0x11)).unwrap_err();
    assert_eq!(err.entry, EntryPoint::SetAudioSample);
    assert_eq!(err.reason, FatalReason::NotInitialized);
    assert_eq!(err.message(), "retro_set_audio_sample: Core has not been initialized yet!");
}

use nvcapture::error::{ComputeStep, Domain, DriverModule, PipelineError, REMEDIATION_HINT};
use nvcapture::modules::module_candidate;
use nvcapture::pipeline::{
    Action, BufferFormat, CaptureStructSizes, CaptureType, Event, Pipeline, PipelineConfig,
    Resource, Stage, TrackingMode,
};
use nvcapture::preset::{codec_h264, preset_low_latency, EncoderPresetConfig, Guid, RateControlParams};

const CONTEXT: u64 = 0x5555_0000_1000;

fn config() -> PipelineConfig {
    PipelineConfig {
        device_ordinal: 0,
        frame_width: 3440,
        frame_height: 1440,
        capture_cursor: true,
        average_bitrate_bps: 5 * 1024 * 1024,
        max_bitrate_bps: 8 * 1024 * 1024,
    }
}

fn sizes() -> CaptureStructSizes {
    CaptureStructSizes {
        create_handle: 40,
        get_status: 48,
        create_capture_session: 96,
        to_cuda_setup: 24,
    }
}

fn baseline() -> EncoderPresetConfig {
    EncoderPresetConfig {
        version: 0xf004_000c,
        config_version: 0xf006_000c,
        profile: Guid { data1: 0x0727_bcaa, data2: 0x78c4, data3: 0x4c83, data4: 0x8c2f_ef3d_ff26_7c6a },
        gop_length: 0xffff_ffff,
        frame_interval_p: 1,
        mono_chrome_encoding: 0,
        frame_field_mode: 1,
        mv_precision: 3,
        rate_control: RateControlParams {
            version: 0x7001_000c,
            rate_control_mode: 0,
            average_bit_rate: 0,
            max_bit_rate: 0,
            vbv_buffer_size: 0,
            vbv_initial_delay: 0,
            other: vec![3, 1, 4, 1, 5, 9, 2, 6],
        },
        codec_config: vec![7; 32],
        reserved: vec![0; 8],
    }
}

fn ok() -> Event {
    Event::Status { status: 0, last_error: None }
}

fn happy_events() -> Vec<Event> {
    vec![
        Event::ModuleFound,
        Event::ModuleFound,
        Event::ModuleFound,
        ok(),
        ok(),
        Event::Context { status: 0, context: CONTEXT },
        ok(),
        ok(),
        ok(),
        Event::Probe { status: 0, can_create: true, last_error: None },
        ok(),
        ok(),
        ok(),
        Event::Codecs { status: 0, codecs: vec![codec_h264()] },
        Event::Preset { status: 0, config: baseline() },
    ]
}

/// Feeds events until the machine stops asking; returns every action issued,
/// the first request included.
fn drive(p: &mut Pipeline, events: Vec<Event>) -> Vec<Action> {
    let mut actions = vec![p.start()];
    for e in events {
        actions.push(p.step(e));
    }
    actions
}

fn is_request(a: &Action) -> bool {
    !matches!(a, Action::Ready { .. } | Action::Abort { .. } | Action::Idle)
}

#[test]
fn happy_path_yields_overridden_preset() {
    let mut p = Pipeline::new(config(), sizes());
    let actions = drive(&mut p, happy_events());
    assert_eq!(actions.len(), 16);
    assert!(matches!(actions[0], Action::Resolve { module: DriverModule::Compute }));
    assert!(matches!(actions[1], Action::Resolve { module: DriverModule::Capture }));
    assert!(matches!(actions[2], Action::Resolve { module: DriverModule::Encode }));
    assert!(matches!(actions[3], Action::InitCompute));
    assert!(matches!(actions[4], Action::GetDevice { ordinal: 0 }));
    assert!(matches!(actions[5], Action::CreateContext));
    assert!(matches!(actions[6], Action::CreateCaptureInstance { version: 0x108 }));
    assert!(matches!(actions[7], Action::CreateEncodeInstance { version: 0x7002_000c }));
    assert!(matches!(actions[8], Action::CreateCaptureHandle { version: 0x0802_0028 }));
    assert!(matches!(actions[9], Action::ProbeCapture { version: 0x0802_0030 }));
    match &actions[10] {
        Action::CreateCaptureSession { version, capture_type, with_cursor, width, height, tracking } => {
            assert_eq!(*version, 0x0806_0060);
            assert_eq!(*capture_type, CaptureType::SharedGpuMemory);
            assert!(*with_cursor);
            assert_eq!((*width, *height), (3440, 1440));
            assert_eq!(*tracking, TrackingMode::Default);
        }
        other => panic!("unexpected {:?}", other),
    }
    assert!(matches!(actions[11], Action::SetUpCapture { version: 0x0801_0018, format: BufferFormat::Nv12 }));
    match &actions[12] {
        Action::OpenEncodeSession { version, api_version, context } => {
            assert_eq!(*version, 0x7001_000c);
            assert_eq!(*api_version, 12);
            assert_eq!(*context, CONTEXT);
        }
        other => panic!("unexpected {:?}", other),
    }
    assert!(matches!(actions[13], Action::QueryCodecs));
    match &actions[14] {
        Action::QueryPreset { version, config_version, codec, preset } => {
            assert_eq!(*version, 0xf004_000c);
            assert_eq!(*config_version, 0xf006_000c);
            assert_eq!(*codec, codec_h264());
            assert_eq!(*preset, preset_low_latency());
        }
        other => panic!("unexpected {:?}", other),
    }
    match &actions[15] {
        Action::Ready { config } => {
            let base = baseline();
            assert_eq!(config.rate_control.average_bit_rate, 5 * 1024 * 1024);
            assert_eq!(config.rate_control.max_bit_rate, 8 * 1024 * 1024);
            assert_eq!(config.version, base.version);
            assert_eq!(config.config_version, base.config_version);
            assert_eq!(config.profile, base.profile);
            assert_eq!(config.gop_length, base.gop_length);
            assert_eq!(config.frame_interval_p, base.frame_interval_p);
            assert_eq!(config.mono_chrome_encoding, base.mono_chrome_encoding);
            assert_eq!(config.frame_field_mode, base.frame_field_mode);
            assert_eq!(config.mv_precision, base.mv_precision);
            assert_eq!(config.rate_control.version, base.rate_control.version);
            assert_eq!(config.rate_control.rate_control_mode, base.rate_control.rate_control_mode);
            assert_eq!(config.rate_control.vbv_buffer_size, base.rate_control.vbv_buffer_size);
            assert_eq!(config.rate_control.vbv_initial_delay, base.rate_control.vbv_initial_delay);
            assert_eq!(config.rate_control.other, base.rate_control.other);
            assert_eq!(config.codec_config, base.codec_config);
            assert_eq!(config.reserved, base.reserved);
        }
        other => panic!("unexpected {:?}", other),
    }
    assert_eq!(p.stage(), Stage::Ready);
    assert_eq!(
        p.held().clone(),
        vec![
            Resource::ComputeContext,
            Resource::CaptureInstance,
            Resource::EncodeInstance,
            Resource::CaptureHandle,
            Resource::CaptureSession,
            Resource::EncodeSession,
        ]
    );
    assert!(matches!(p.step(ok()), Action::Idle));
}

#[test]
fn shutdown_releases_in_reverse() {
    let mut p = Pipeline::new(config(), sizes());
    drive(&mut p, happy_events());
    let released = p.teardown();
    assert_eq!(
        released,
        vec![
            Resource::EncodeSession,
            Resource::CaptureSession,
            Resource::CaptureHandle,
            Resource::EncodeInstance,
            Resource::CaptureInstance,
            Resource::ComputeContext,
        ]
    );
    assert_eq!(p.stage(), Stage::Finished);
    assert!(p.held().is_empty());
    assert!(p.teardown().is_empty());
}

#[test]
fn failure_at_every_step_releases_acquired_in_reverse() {
    let all = happy_events();
    for fail_at in 3..all.len() {
        let mut p = Pipeline::new(config(), sizes());
        let mut acquired: Vec<Resource> = Vec::new();
        let mut events: Vec<Event> = all.clone().into_iter().take(fail_at).collect();
        events.push(match &all[fail_at] {
            Event::Context { .. } => Event::Context { status: 201, context: 0 },
            Event::Probe { .. } => Event::Probe { status: 1, can_create: false, last_error: None },
            Event::Codecs { .. } => Event::Codecs { status: 8, codecs: vec![] },
            Event::Preset { .. } => Event::Preset { status: 8, config: baseline() },
            _ => Event::Status { status: 2, last_error: Some("boom".to_string()) },
        });
        p.start();
        let mut aborted = false;
        for e in events {
            let before = p.held().len();
            let a = p.step(e);
            if p.held().len() > before {
                acquired.push(*p.held().last().unwrap());
            }
            if matches!(a, Action::Abort { .. }) {
                aborted = true;
            }
        }
        assert!(aborted, "no abort when failing at {}", fail_at);
        assert_eq!(p.stage(), Stage::Failed);
        assert!(matches!(p.step(ok()), Action::Idle));
        let mut expected = acquired.clone();
        expected.reverse();
        assert_eq!(p.teardown(), expected);
        assert_eq!(p.stage(), Stage::Failed);
    }
}

#[test]
fn unsupported_hardware_on_capture_session() {
    let mut p = Pipeline::new(config(), sizes());
    let mut events: Vec<Event> = happy_events().into_iter().take(10).collect();
    events.push(Event::Status { status: 7, last_error: Some("unsupported".to_string()) });
    let actions = drive(&mut p, events);
    match actions.last().unwrap() {
        Action::Abort { error } => {
            assert!(matches!(error, PipelineError::UnsupportedHardware { domain: Domain::Capture, status: 7, .. }));
            assert_eq!(error.remediation_hint(), Some(REMEDIATION_HINT));
        }
        other => panic!("unexpected {:?}", other),
    }
    assert!(actions[..actions.len() - 1].iter().all(is_request));
    assert!(matches!(p.step(ok()), Action::Idle));
    assert_eq!(
        p.teardown(),
        vec![
            Resource::CaptureHandle,
            Resource::EncodeInstance,
            Resource::CaptureInstance,
            Resource::ComputeContext,
        ]
    );
}

#[test]
fn unsupported_hardware_on_capture_handle() {
    let mut p = Pipeline::new(config(), sizes());
    let mut events: Vec<Event> = happy_events().into_iter().take(8).collect();
    events.push(Event::Status { status: 7, last_error: None });
    let actions = drive(&mut p, events);
    match actions.last().unwrap() {
        Action::Abort { error } => {
            assert!(matches!(error, PipelineError::UnsupportedHardware { .. }));
            assert!(error.remediation_hint().unwrap().contains("nvidia-patch"));
        }
        other => panic!("unexpected {:?}", other),
    }
}

#[test]
fn other_capture_failure_is_generic_with_last_error() {
    let mut p = Pipeline::new(config(), sizes());
    let mut events: Vec<Event> = happy_events().into_iter().take(10).collect();
    events.push(Event::Status { status: 3, last_error: Some("bad frame size".to_string()) });
    let actions = drive(&mut p, events);
    match actions.last().unwrap() {
        Action::Abort { error } => {
            match error {
                PipelineError::Driver { domain, status, last_error } => {
                    assert_eq!(*domain, Domain::Capture);
                    assert_eq!(*status, 3);
                    assert_eq!(last_error.as_deref(), Some("bad frame size"));
                }
                other => panic!("unexpected {:?}", other),
            }
            assert!(error.remediation_hint().is_none());
        }
        other => panic!("unexpected {:?}", other),
    }
}

#[test]
fn missing_module_fails_before_any_driver_call() {
    let mut p = Pipeline::new(config(), sizes());
    let actions = drive(&mut p, vec![Event::ModuleFound, Event::ModuleMissing]);
    assert_eq!(actions.len(), 3);
    assert!(matches!(actions[0], Action::Resolve { module: DriverModule::Compute }));
    assert!(matches!(actions[1], Action::Resolve { module: DriverModule::Capture }));
    assert!(matches!(
        actions[2],
        Action::Abort { error: PipelineError::ModuleLoad { module: DriverModule::Capture } }
    ));
    assert!(matches!(p.step(ok()), Action::Idle));
    assert!(p.teardown().is_empty());
}

#[test]
fn compute_init_failure_names_step() {
    let mut p = Pipeline::new(config(), sizes());
    let mut events: Vec<Event> = happy_events().into_iter().take(4).collect();
    events.push(Event::Status { status: 100, last_error: None });
    let actions = drive(&mut p, events);
    assert!(matches!(
        actions.last().unwrap(),
        Action::Abort { error: PipelineError::DriverInit { step: ComputeStep::DeviceGet, status: 100 } }
    ));
}

#[test]
fn null_context_is_refused() {
    let mut p = Pipeline::new(config(), sizes());
    let mut events: Vec<Event> = happy_events().into_iter().take(5).collect();
    events.push(Event::Context { status: 0, context: 0 });
    let actions = drive(&mut p, events);
    assert!(matches!(actions.last().unwrap(), Action::Abort { error: PipelineError::InvalidContext }));
    assert!(p.teardown().is_empty());
}

#[test]
fn probe_reporting_no_capture_aborts() {
    let mut p = Pipeline::new(config(), sizes());
    let mut events: Vec<Event> = happy_events().into_iter().take(9).collect();
    events.push(Event::Probe { status: 0, can_create: false, last_error: None });
    let actions = drive(&mut p, events);
    assert!(matches!(actions.last().unwrap(), Action::Abort { error: PipelineError::CaptureUnavailable }));
}

#[test]
fn missing_codec_is_configuration_error() {
    let mut p = Pipeline::new(config(), sizes());
    let mut events: Vec<Event> = happy_events().into_iter().take(13).collect();
    events.push(Event::Codecs { status: 0, codecs: vec![preset_low_latency()] });
    let actions = drive(&mut p, events);
    match actions.last().unwrap() {
        Action::Abort { error: PipelineError::ConfigurationUnsupported { codec } } => {
            assert_eq!(*codec, codec_h264())
        }
        other => panic!("unexpected {:?}", other),
    }
    assert_eq!(p.teardown().len(), 6);
}

#[test]
fn encode_failure_is_generic() {
    let mut p = Pipeline::new(config(), sizes());
    let mut events: Vec<Event> = happy_events().into_iter().take(12).collect();
    events.push(Event::Status { status: 2, last_error: None });
    let actions = drive(&mut p, events);
    assert!(matches!(
        actions.last().unwrap(),
        Action::Abort { error: PipelineError::Driver { domain: Domain::Encode, status: 2, .. } }
    ));
}

#[test]
fn wrong_event_kind_is_refused() {
    let mut p = Pipeline::new(config(), sizes());
    let actions = drive(&mut p, vec![ok()]);
    assert!(matches!(actions[1], Action::Abort { error: PipelineError::UnexpectedEvent }));
}

#[test]
fn module_candidates_in_order() {
    assert_eq!(module_candidate(DriverModule::Compute, 0), Some("libcuda.so.1"));
    assert_eq!(
        module_candidate(DriverModule::Capture, 1),
        Some("/lib/x86_64-linux-gnu/libnvidia-fbc.so.1")
    );
    assert_eq!(
        module_candidate(DriverModule::Encode, 1),
        Some("/lib/x86_64-linux-gnu/libnvidia-encode.so.1")
    );
    assert_eq!(module_candidate(DriverModule::Encode, 3), Some("/usr/lib64/libnvidia-encode.so.1"));
    assert_eq!(module_candidate(DriverModule::Compute, 4), None);
}

#[test]
fn teardown_midway_finishes() {
    let mut p = Pipeline::new(config(), sizes());
    let events: Vec<Event> = happy_events().into_iter().take(8).collect();
    drive(&mut p, events);
    assert_eq!(p.stage(), Stage::CreateCaptureHandle);
    assert_eq!(
        p.teardown(),
        vec![Resource::EncodeInstance, Resource::CaptureInstance, Resource::ComputeContext]
    );
    assert_eq!(p.stage(), Stage::Finished);
    assert!(matches!(p.step(ok()), Action::Idle));
}

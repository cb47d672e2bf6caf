use system_audio::capture::{
    check_system_audio_permissions, find_monitor, list_system_audio_devices, select_backend,
    start_system_audio_capture, Backend, CaptureAction, CaptureError, CaptureErrorKind,
    CaptureState, Platform, SystemAudioCapture, SystemAudioStream,
};
use system_audio::devices::DeviceQuery;
use system_audio::samples::{Conversion, SampleFormat};

fn found(names: &[Option<&str>]) -> DeviceQuery {
    DeviceQuery::Found(names.iter().map(|n| n.map(|s| s.to_string())).collect())
}

fn fail(kind: CaptureErrorKind, message: &str) -> CaptureAction {
    CaptureAction::Fail(CaptureError { kind, message: message.to_string() })
}

fn querying() -> SystemAudioCapture {
    let (mut capture, action) = start_system_audio_capture(Platform::Linux);
    assert_eq!(action, CaptureAction::ListInputs);
    let action = capture.inputs_listed(&found(&[Some("mic"), Some("x.monitor")]));
    assert_eq!(action, CaptureAction::QueryDefaultConfig { device: 1 });
    capture
}

#[test]
fn each_platform_has_its_backend() {
    assert_eq!(select_backend(Platform::MacOs), Backend::Tap);
    assert_eq!(select_backend(Platform::Linux), Backend::MonitorDevice);
    assert_eq!(select_backend(Platform::Other), Backend::Unimplemented);
    let capture = SystemAudioCapture::new(Platform::Linux);
    assert_eq!(capture.backend, Backend::MonitorDevice);
    assert_eq!(capture.state, CaptureState::Idle);
}

#[test]
fn no_monitor_device_fails_without_any_setup() {
    let (mut capture, action) = start_system_audio_capture(Platform::Linux);
    assert_eq!(action, CaptureAction::ListInputs);
    let action = capture.inputs_listed(&found(&[Some("USB Mic"), None, Some("Webcam")]));
    assert_eq!(
        action,
        fail(
            CaptureErrorKind::NoMonitorDeviceFound,
            "No system audio monitor device found. Make sure PulseAudio/PipeWire is running."
        )
    );
    assert_eq!(capture.state, CaptureState::Stopped);
    assert_eq!(capture.config_answered(&Ok((48000, SampleFormat::F32))), CaptureAction::Ignore);
    assert_eq!(capture.stream_built(&Ok(())), CaptureAction::Ignore);
    assert_eq!(capture.stream_started(&Ok(())), CaptureAction::Ignore);
    assert_eq!(capture.state, CaptureState::Stopped);
}

#[test]
fn failed_input_enumeration_counts_as_no_monitor() {
    let (mut capture, _) = start_system_audio_capture(Platform::Linux);
    let action = capture.inputs_listed(&DeviceQuery::Failed("no host".to_string()));
    assert!(matches!(
        action,
        CaptureAction::Fail(CaptureError { kind: CaptureErrorKind::NoMonitorDeviceFound, .. })
    ));
    assert_eq!(capture.state, CaptureState::Stopped);
}

#[test]
fn the_first_monitor_is_chosen() {
    let names: Vec<Option<String>> = vec![
        Some("mic".to_string()),
        None,
        Some("A Monitor".to_string()),
        Some("b.monitor".to_string()),
    ];
    assert_eq!(find_monitor(&names), Some(2));
    assert_eq!(find_monitor(&vec![None, Some("mic".to_string())]), None);
    assert_eq!(find_monitor(&Vec::new()), None);
}

#[test]
fn a_session_is_negotiated_step_by_step() {
    let mut capture = querying();
    assert_eq!(capture.state, CaptureState::QueryingConfig { device: 1 });
    assert_eq!(
        capture.config_answered(&Ok((44100, SampleFormat::I16))),
        CaptureAction::BuildStream { conversion: Conversion::ScaleSigned }
    );
    assert_eq!(capture.state, CaptureState::BuildingStream { sample_rate: 44100 });
    assert_eq!(capture.stream_built(&Ok(())), CaptureAction::StartStream);
    assert_eq!(capture.state, CaptureState::StartingStream { sample_rate: 44100 });
    let stream = match capture.stream_started(&Ok(())) {
        CaptureAction::Deliver(stream) => stream,
        action => panic!("unexpected {:?}", action),
    };
    assert_eq!(stream.sample_rate(), 44100);
    assert!(!stream.stop_sent);
    assert_eq!(capture.state, CaptureState::Streaming { sample_rate: 44100 });
    capture.session_over();
    assert_eq!(capture.state, CaptureState::Stopped);
}

#[test]
fn each_supported_format_names_its_conversion() {
    for (format, conversion) in [
        (SampleFormat::F32, Conversion::PassThrough),
        (SampleFormat::I16, Conversion::ScaleSigned),
        (SampleFormat::U16, Conversion::CenterUnsigned),
    ] {
        let mut capture = querying();
        assert_eq!(
            capture.config_answered(&Ok((48000, format))),
            CaptureAction::BuildStream { conversion }
        );
    }
}

#[test]
fn an_unsupported_format_ends_the_session() {
    let mut capture = querying();
    assert_eq!(
        capture.config_answered(&Ok((48000, SampleFormat::I32))),
        fail(CaptureErrorKind::UnsupportedSampleFormat, "Unsupported sample format: I32")
    );
    assert_eq!(capture.state, CaptureState::Stopped);
}

#[test]
fn a_refused_configuration_ends_the_session() {
    let mut capture = querying();
    assert_eq!(
        capture.config_answered(&Err("device busy".to_string())),
        fail(CaptureErrorKind::DeviceConfigError, "Failed to get default config: device busy")
    );
    assert_eq!(capture.state, CaptureState::Stopped);
}

#[test]
fn a_stream_that_cannot_be_built_or_started_ends_the_session() {
    let mut capture = querying();
    capture.config_answered(&Ok((48000, SampleFormat::F32)));
    assert_eq!(
        capture.stream_built(&Err("bad config".to_string())),
        fail(CaptureErrorKind::StreamBuildError, "Failed to build input stream: bad config")
    );
    assert_eq!(capture.state, CaptureState::Stopped);

    let mut capture = querying();
    capture.config_answered(&Ok((48000, SampleFormat::F32)));
    capture.stream_built(&Ok(()));
    assert_eq!(
        capture.stream_started(&Err("gone".to_string())),
        fail(CaptureErrorKind::StreamBuildError, "Failed to start stream: gone")
    );
    assert_eq!(capture.state, CaptureState::Stopped);
}

#[test]
fn the_tap_backend_opens_its_tap() {
    let (mut capture, action) = start_system_audio_capture(Platform::MacOs);
    assert_eq!(action, CaptureAction::OpenTap);
    assert_eq!(capture.state, CaptureState::OpeningTap);
    assert_eq!(
        capture.tap_opened(&Ok(48000)),
        CaptureAction::Deliver(SystemAudioStream { sample_rate: 48000, stop_sent: false })
    );
    assert_eq!(capture.state, CaptureState::Streaming { sample_rate: 48000 });

    let (mut capture, _) = start_system_audio_capture(Platform::MacOs);
    assert_eq!(
        capture.tap_opened(&Err("tap refused".to_string())),
        fail(CaptureErrorKind::StreamBuildError, "tap refused")
    );
    assert_eq!(capture.state, CaptureState::Stopped);
}

#[test]
fn other_platforms_are_unsupported() {
    let (capture, action) = start_system_audio_capture(Platform::Other);
    assert_eq!(
        action,
        fail(
            CaptureErrorKind::PlatformUnsupported,
            "System audio capture not yet implemented for this platform"
        )
    );
    assert_eq!(capture.state, CaptureState::Stopped);
}

#[test]
fn a_session_is_entered_once() {
    let (mut capture, _) = start_system_audio_capture(Platform::Linux);
    assert_eq!(capture.start_system_audio_capture(), CaptureAction::Ignore);
    assert_eq!(capture.state, CaptureState::ListingInputs);
    let (mut stopped, _) = start_system_audio_capture(Platform::Other);
    assert_eq!(stopped.start_system_audio_capture(), CaptureAction::Ignore);
    assert_eq!(stopped.inputs_listed(&found(&[Some("monitor")])), CaptureAction::Ignore);
    assert_eq!(stopped.tap_opened(&Ok(1)), CaptureAction::Ignore);
    stopped.session_over();
    assert_eq!(stopped.state, CaptureState::Stopped);
}

#[test]
fn reports_out_of_turn_change_nothing() {
    let mut capture = SystemAudioCapture::new(Platform::Linux);
    assert_eq!(capture.inputs_listed(&found(&[Some("monitor")])), CaptureAction::Ignore);
    assert_eq!(capture.tap_opened(&Ok(48000)), CaptureAction::Ignore);
    capture.session_over();
    assert_eq!(capture.state, CaptureState::Idle);
    let mut capture = querying();
    assert_eq!(capture.stream_started(&Ok(())), CaptureAction::Ignore);
    assert_eq!(capture.state, CaptureState::QueryingConfig { device: 1 });
}

#[test]
fn the_stop_signal_is_sent_once() {
    let mut stream = SystemAudioStream { sample_rate: 16000, stop_sent: false };
    assert!(stream.stop());
    assert!(!stream.stop());
    assert!(!stream.stop());
    assert_eq!(stream.sample_rate(), 16000);
}

#[test]
fn output_devices_are_listed_by_name() {
    let outputs = found(&[Some("Speakers"), None, Some("HDMI")]);
    assert_eq!(
        list_system_audio_devices(&outputs),
        Ok(vec!["Speakers".to_string(), "HDMI".to_string()])
    );
    assert_eq!(SystemAudioCapture::list_system_devices(&found(&[])), Ok(vec![]));
    assert!(check_system_audio_permissions(&outputs));
    assert!(SystemAudioCapture::check_system_audio_permissions(&found(&[])));
}

#[test]
fn a_failed_enumeration_is_reported() {
    let outputs = DeviceQuery::Failed("backend unavailable".to_string());
    assert_eq!(
        list_system_audio_devices(&outputs),
        Err(CaptureError {
            kind: CaptureErrorKind::EnumerationError,
            message: "Failed to enumerate output devices: backend unavailable".to_string(),
        })
    );
    assert!(!check_system_audio_permissions(&outputs));
}

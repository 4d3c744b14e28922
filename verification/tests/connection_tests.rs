use moonlight::audio::{
    audio_output_plan, audio_packet_length, AudioHealth, AudioOutputPlan, AudioRenderer, AudioSetup,
};
use moonlight::connection::{
    check_copied_length, check_pulled_frame, input_result, positive_int, prepare_start,
    reported_error, start_failure, wire_key_code, ConnectionError, HostConnectionInfo,
    HostStrings, InputAction, InputError, KeyboardModifiers, MouseButton, StreamConfiguration,
    VideoSetup, NO_REPORTED_ERROR,
};
use moonlight::stream_control::ConnectionControl;

#[test]
fn copies_the_negotiated_channel_mapping() {
    let mapping = [0_u8, 1];
    let setup = AudioSetup::from_raw(0, 48_000, 2, 1, 1, 240, Some(&mapping[..]))
        .expect("valid stereo Opus setup");

    assert_eq!(setup.sample_rate(), 48_000);
    assert_eq!(setup.channel_count(), 2);
    assert_eq!(setup.streams(), 1);
    assert_eq!(setup.coupled_streams(), 1);
    assert_eq!(setup.samples_per_frame(), 240);
    assert_eq!(setup.mapping(), &[0, 1]);
}

#[test]
fn rejects_an_out_of_range_channel_count() {
    let mapping = [0_u8; 8];
    assert!(AudioSetup::from_raw(0, 48_000, 9, 1, 1, 240, Some(&mapping[..])).is_err());
}

#[test]
fn audio_setup_rejects_each_bad_parameter() {
    let mapping = [0_u8; 8];
    let m = Some(&mapping[..]);
    assert_eq!(
        AudioSetup::from_raw(0, 0, 2, 1, 1, 240, m).unwrap_err(),
        "invalid Opus sample rate"
    );
    assert_eq!(
        AudioSetup::from_raw(0, 48_000, 2, 0, 0, 240, m).unwrap_err(),
        "invalid Opus stream count"
    );
    assert_eq!(
        AudioSetup::from_raw(0, 48_000, 2, 1, 2, 240, m).unwrap_err(),
        "invalid Opus coupled-stream count"
    );
    assert_eq!(
        AudioSetup::from_raw(0, 48_000, 2, 1, 1, 0, m).unwrap_err(),
        "invalid Opus frame size"
    );
    assert_eq!(
        AudioSetup::from_raw(0, 48_000, 2, 1, 1, 240, None).unwrap_err(),
        "missing Opus channel mapping"
    );
}

#[test]
fn validates_default_h264_stream_configuration() {
    let stream = StreamConfiguration::new(1_920, 1_080, 60, [1; 16], [2; 16])
        .validated()
        .expect("stream configuration");

    assert_eq!(stream.width, 1_920);
    assert_eq!(stream.height, 1_080);
    assert_eq!(stream.fps, 60);
    assert_eq!(stream.bitrate, 20_000);
    assert_eq!(stream.packet_size, 1_024);
    assert_eq!(stream.client_refresh_rate_x100, 6_000);
}

#[test]
fn rejects_zero_stream_dimensions() {
    let error = StreamConfiguration::new(0, 1_080, 60, [0; 16], [0; 16])
        .validated()
        .expect_err("zero width must fail");

    assert!(error.to_string().contains("width must be non-zero"));
}

#[test]
fn rejects_oversized_stream_values() {
    let error = StreamConfiguration::new(1_920, 1_080, 60, [0; 16], [0; 16])
        .with_bitrate_kbps(u32::MAX)
        .validated()
        .expect_err("bitrate too large");
    assert!(error
        .to_string()
        .contains("bitrate does not fit in a C integer"));
    let error = StreamConfiguration::new(1_920, 1_080, 50_000_000, [0; 16], [0; 16])
        .validated()
        .expect_err("refresh rate too large");
    assert!(error.to_string().contains("refresh rate is too large"));
    let small = StreamConfiguration::new(640, 480, 30, [0; 16], [0; 16])
        .with_packet_size(512)
        .validated()
        .expect("valid");
    assert_eq!(small.packet_size, 512);
    assert_eq!(positive_int("width", 7), Ok(7));
}

#[test]
fn rejects_interior_nul_in_host_fields() {
    let host = HostConnectionInfo::new(
        String::from("sunshine\0invalid"),
        String::from("7.1.431.-1"),
        Some(String::from("3.23.0.74")),
        String::from("rtspenc://sunshine:48010"),
        1,
    );
    let error = HostStrings::new(&host).expect_err("interior NUL must fail");

    assert!(error
        .to_string()
        .contains("address contains an interior NUL"));
}

#[test]
fn prepares_start_parameters_from_valid_values() {
    let host = HostConnectionInfo::new(
        String::from("sunshine"),
        String::from("7.1.431.-1"),
        None,
        String::from("rtspenc://sunshine:48010"),
        1,
    );
    assert_eq!(host.server_codec_mode_support(), 1);
    let start = prepare_start(&host, StreamConfiguration::new(1_280, 720, 60, [3; 16], [4; 16]))
        .expect("start parameters");
    assert_eq!(start.host.address, "sunshine");
    assert_eq!(start.stream.width, 1_280);
    assert_eq!(start.stream.remote_input_aes_iv, [4; 16]);
}

#[test]
fn packs_keyboard_modifiers_for_the_core() {
    let modifiers = KeyboardModifiers::new(true, false, true, true);

    assert_eq!(modifiers.bits(), 0x0D);
}

#[test]
fn marks_win32_virtual_key_codes_for_the_wire() {
    assert_eq!(wire_key_code(0x41), 0x8041);
    assert_eq!(wire_key_code(0x8041), 0x8041);
}

#[test]
fn rejects_input_after_connection_shutdown_without_calling_c() {
    let control = ConnectionControl::new(false, true);

    assert_eq!(
        control.send_input("mouse move", || panic!("the core must not be called")),
        Err(InputError::ConnectionInactive)
    );
    assert_eq!(
        control.send_input("mouse button", || {
            let _ = (MouseButton::Left, InputAction::Press);
            panic!("the core must not be called")
        }),
        Err(InputError::ConnectionInactive)
    );
    assert_eq!(
        control.send_input("keyboard", || {
            let _ = KeyboardModifiers::default();
            panic!("the core must not be called")
        }),
        Err(InputError::ConnectionInactive)
    );
}

#[test]
fn active_connection_reports_core_failures() {
    let control = ConnectionControl::new(true, false);
    assert_eq!(control.send_input("keyboard", || 0), Ok(()));
    assert_eq!(
        control.send_input("keyboard", || -1),
        Err(InputError::Core {
            operation: "keyboard",
            code: -1
        })
    );
    assert!(control.mark_stop_requested());
    assert!(control.stop_requested());
    control.deactivate();
    assert!(!control.is_active());
    assert_eq!(input_result("mouse", 0), Ok(()));
}

#[test]
fn start_failures_name_the_failing_stage() {
    assert_eq!(reported_error(NO_REPORTED_ERROR), None);
    assert_eq!(reported_error(5), Some(5));
    let audio = start_failure(-1, Some(String::from("opus failed")), 0, 0);
    assert_eq!(audio, ConnectionError::Audio(String::from("opus failed")));
    assert_eq!(
        audio.to_string(),
        "audio initialization failed: opus failed"
    );
    let error = start_failure(-1, None, 3, NO_REPORTED_ERROR);
    assert_eq!(
        error,
        ConnectionError::StartFailed {
            code: -1,
            stage: 3,
            stage_error: None
        }
    );
    assert_eq!(
        start_failure(-1, None, 3, 7).to_string(),
        "stream connection failed with -1 at stage 3 (stage error 7)"
    );
}

#[test]
fn pulled_frames_are_checked_before_copying() {
    assert!(check_pulled_frame(false, true, 10).is_err());
    assert!(check_pulled_frame(true, false, 10).is_err());
    assert!(check_pulled_frame(true, true, -1).is_err());
    assert_eq!(check_pulled_frame(true, true, 10), Ok(10));
    assert!(check_copied_length(9, 10).is_err());
    assert_eq!(check_copied_length(10, 10), Ok(()));
}

#[test]
fn video_setup_is_read_from_the_core_values() {
    let setup = VideoSetup::from_raw(1, 1_920, 1_080, 60).expect("setup");
    assert!(setup.is_h264());
    assert_eq!((setup.width(), setup.height(), setup.fps()), (1_920, 1_080, 60));
    assert!(VideoSetup::from_raw(1, -1, 1_080, 60).is_none());
}

struct Recorder {
    initialized: bool,
    decoded: Vec<usize>,
    fail_decode: bool,
}

impl AudioRenderer for Recorder {
    fn initialize(&mut self, _setup: AudioSetup) -> Result<(), String> {
        self.initialized = true;
        Ok(())
    }

    fn decode_and_play(&mut self, packet: Option<&[u8]>) -> Result<(), String> {
        if self.fail_decode {
            Err(String::from("decoder failed"))
        } else {
            self.decoded.push(packet.map_or(0, |p| p.len()));
            Ok(())
        }
    }
}

#[test]
fn audio_health_keeps_the_first_error() {
    let mut failing = AudioHealth::new();
    assert_eq!(
        failing.initialize::<Recorder>(None, 0, 48_000, 9, 1, 1, 240, None),
        -1
    );
    assert_eq!(
        failing.current_error(),
        Some(String::from("invalid Opus channel count"))
    );
    let mut health = AudioHealth::new();
    assert!(!health.failed());
    health.record(String::from("first"));
    health.record(String::from("second"));
    assert!(health.failed());
    assert_eq!(health.current_error(), Some(String::from("first")));
}

#[test]
fn audio_packets_reach_the_renderer() {
    let mut renderer = Recorder {
        initialized: false,
        decoded: Vec::new(),
        fail_decode: false,
    };
    let mut health = AudioHealth::new();
    let mapping = [0_u8, 1];
    assert_eq!(
        health.initialize(Some(&mut renderer), 0, 48_000, 2, 1, 1, 240, Some(&mapping[..])),
        0
    );
    assert!(renderer.initialized);
    health.deliver_packet(Some(&mut renderer), Some(&[1_u8, 2, 3][..]));
    assert_eq!(renderer.decoded, vec![3]);
    assert!(!health.failed());
    renderer.fail_decode = true;
    health.deliver_packet(Some(&mut renderer), Some(&[1_u8][..]));
    assert_eq!(health.current_error(), Some(String::from("decoder failed")));
    health.deliver_packet(Some(&mut renderer), None);
    assert_eq!(renderer.decoded, vec![3]);
    assert_eq!(audio_packet_length(4, true), Ok(Some(4)));
    assert_eq!(audio_packet_length(0, false), Ok(None));
    assert!(audio_packet_length(-1, true).is_err());
    assert!(audio_packet_length(4, false).is_err());
}

#[test]
fn audio_output_accepts_only_48_khz_stereo() {
    let stereo = [0_u8, 1];
    let setup = AudioSetup::from_raw(0, 48_000, 2, 1, 1, 240, Some(&stereo[..])).expect("setup");
    assert_eq!(
        audio_output_plan(setup),
        Ok(AudioOutputPlan {
            sample_rate: 48_000,
            channels: 2,
            period_frames: 480,
            buffer_frames: 9_600,
            sample_capacity: 480,
        })
    );
    let slow = AudioSetup::from_raw(0, 44_100, 2, 1, 1, 240, Some(&stereo[..])).expect("setup");
    assert_eq!(
        audio_output_plan(slow).unwrap_err(),
        "Scarlet audio requires 48 kHz stereo, got 44100 Hz and 2 channel(s)"
    );
    let long = AudioSetup::from_raw(0, 48_000, 2, 1, 1, 5_761, Some(&stereo[..])).expect("setup");
    assert_eq!(
        audio_output_plan(long).unwrap_err(),
        "Opus frame contains too many samples: 5761"
    );
}

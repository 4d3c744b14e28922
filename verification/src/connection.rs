//! Configuration, validation and input encoding for the streaming core: what
//! the core is handed when a stream starts, and what its answers mean.
use vstd::prelude::*;

use crate::text::{
    chars_of, concat, concat3, contains_char, decimal, signed_decimal, spec_decimal, spec_signed_decimal,
};

verus! {

/// Let the core decide between local and remote streaming.
pub const STREAM_CFG_AUTO: i32 = 2;

/// Stereo audio: two channels, channel mask `0x3`.
pub const AUDIO_CONFIGURATION_STEREO: i32 = 0x300CA;

/// The H.264 bit of the video-format bitmap.
pub const VIDEO_FORMAT_H264: i32 = 0x0001;

/// Rec. 709 colorspace.
pub const COLORSPACE_REC_709: i32 = 1;

/// Limited color range.
pub const COLOR_RANGE_LIMITED: i32 = 0;

/// Encrypt every stream the host supports encrypting.
pub const ENCRYPTION_ALL: i32 = -1;

/// Decoder status: the frame was consumed.
pub const DR_OK: i32 = 0;

/// Decoder status: the decoder needs a fresh IDR frame.
pub const DR_NEED_IDR: i32 = -1;

/// The value with which the core reports that no error occurred.
pub const NO_REPORTED_ERROR: i32 = -2147483648;

/// Largest coded access unit accepted from the core.
pub const MAX_ACCESS_UNIT_LENGTH: usize = 67108864;

/// Mouse-button action codes of the input protocol.
pub const BUTTON_ACTION_PRESS: i8 = 0x07;

/// Mouse-button release code.
pub const BUTTON_ACTION_RELEASE: i8 = 0x08;

/// Key-down code of the input protocol.
pub const KEY_ACTION_DOWN: i8 = 0x03;

/// Key-up code of the input protocol.
pub const KEY_ACTION_UP: i8 = 0x04;

/// Shift modifier bit.
pub const MODIFIER_SHIFT: u8 = 0x01;

/// Control modifier bit.
pub const MODIFIER_CONTROL: u8 = 0x02;

/// Alt modifier bit.
pub const MODIFIER_ALT: u8 = 0x04;

/// Meta (Windows, Super or Command) modifier bit.
pub const MODIFIER_META: u8 = 0x08;

/// Marker of a Win32 virtual-key code on the wire.
pub const KEY_CODE_VIRTUAL_KEY: u16 = 0x8000;

/// Error raised while configuring, starting, or consuming a core connection.
#[derive(Debug, PartialEq, Eq)]
pub enum ConnectionError {
    /// The process-wide connection is already owned.
    AlreadyActive,
    /// A configuration value cannot be represented by the core.
    InvalidConfiguration(String),
    /// Starting the connection failed during the reported stage.
    StartFailed {
        /// Raw error returned when starting.
        code: i32,
        /// Last initialization stage entered by the core.
        stage: i32,
        /// Stage-specific failure code when one was reported.
        stage_error: Option<i32>,
    },
    /// A queued video frame had invalid pointers, lengths, or buffer contents.
    InvalidVideoFrame(String),
    /// The configured audio renderer could not initialize.
    Audio(String),
}

/// The message of a connection error.
pub open spec fn spec_connection_error_text(e: ConnectionError) -> Seq<char> {
    match e {
        ConnectionError::AlreadyActive => "a Moonlight stream is already active"@,
        ConnectionError::InvalidConfiguration(m) => "invalid stream configuration: "@ + m@,
        ConnectionError::StartFailed { code, stage, stage_error } => "stream connection failed with "@
            + spec_signed_decimal(code as int) + " at stage "@ + spec_signed_decimal(stage as int)
            + match stage_error {
            Some(s) => " (stage error "@ + spec_signed_decimal(s as int) + ")"@,
            None => Seq::empty(),
        },
        ConnectionError::InvalidVideoFrame(m) => "invalid video frame: "@ + m@,
        ConnectionError::Audio(m) => "audio initialization failed: "@ + m@,
    }
}

/// Whether `e` is an invalid-configuration error with exactly `message`.
pub open spec fn is_invalid_configuration(e: ConnectionError, message: Seq<char>) -> bool {
    e matches ConnectionError::InvalidConfiguration(m) && m@ == message
}

/// Whether `e` is an invalid-video-frame error with exactly `message`.
pub open spec fn is_invalid_video_frame(e: ConnectionError, message: Seq<char>) -> bool {
    e matches ConnectionError::InvalidVideoFrame(m) && m@ == message
}

impl ConnectionError {
    /// The message shown for this error.
    pub fn to_string(&self) -> (res: String)
        ensures
            res@ == spec_connection_error_text(*self),
    {
        match self {
            ConnectionError::AlreadyActive => "a Moonlight stream is already active".to_owned(),
            ConnectionError::InvalidConfiguration(m) => concat("invalid stream configuration: ", m.as_str()),
            ConnectionError::StartFailed { code, stage, stage_error } => {
                let code_text = signed_decimal(*code as i64);
                let stage_text = signed_decimal(*stage as i64);
                let head = concat3("stream connection failed with ", code_text.as_str(), " at stage ");
                let text = concat(head.as_str(), stage_text.as_str());
                match stage_error {
                    Some(s) => {
                        let error_text = signed_decimal(*s as i64);
                        let tail = concat3(" (stage error ", error_text.as_str(), ")");
                        concat(text.as_str(), tail.as_str())
                    },
                    None => {
                        assert(text@ + Seq::<char>::empty() =~= text@);
                        text
                    },
                }
            },
            ConnectionError::InvalidVideoFrame(m) => concat("invalid video frame: ", m.as_str()),
            ConnectionError::Audio(m) => concat("audio initialization failed: ", m.as_str()),
        }
    }
}

/// `value` as a positive C integer: it must be non-zero and fit in an
/// `i32`, else the error names the setting.
pub fn positive_int(name: &str, value: u32) -> (res: Result<i32, ConnectionError>)
    ensures
        match spec_positive_int_error(name@, value as int) {
            Some(m) => res is Err && is_invalid_configuration(res->Err_0, m),
            None => res == Ok::<i32, ConnectionError>(value as i32),
        },
{
    if value == 0 {
        return Err(ConnectionError::InvalidConfiguration(concat(name, " must be non-zero")));
    }
    if value > 0x7fff_ffff {
        return Err(ConnectionError::InvalidConfiguration(concat(name, " does not fit in a C integer")));
    }
    Ok(value as i32)
}

/// Whether a string can be handed to the core as a C string: non-empty and
/// without a NUL character.
pub open spec fn spec_c_string_error(name: Seq<char>, value: Seq<char>) -> Option<Seq<char>> {
    if value.len() == 0 {
        Some(name + " is empty"@)
    } else if value.contains('\0') {
        Some(name + " contains an interior NUL byte"@)
    } else {
        None
    }
}

/// Checks that `value` can be handed to the core as a C string.
pub fn c_string(name: &str, value: &str) -> (res: Result<String, ConnectionError>)
    ensures
        match spec_c_string_error(name@, value@) {
            Some(m) => res is Err && is_invalid_configuration(res->Err_0, m),
            None => res is Ok && res->Ok_0@ == value@,
        },
{
    if value.is_empty() {
        return Err(ConnectionError::InvalidConfiguration(concat(name, " is empty")));
    }
    let chars = chars_of(value);
    if contains_char(chars.as_slice(), '\0') {
        return Err(ConnectionError::InvalidConfiguration(concat(name, " contains an interior NUL byte")));
    }
    Ok(value.to_owned())
}

/// Host fields required by the streaming core after launch or resume.
#[derive(Debug)]
pub struct HostConnectionInfo {
    address: String,
    app_version: String,
    gfe_version: Option<String>,
    rtsp_session_url: String,
    server_codec_mode_support: u32,
}

/// Mathematical value of a [`HostConnectionInfo`].
pub struct HostConnectionInfoView {
    pub address: Seq<char>,
    pub app_version: Seq<char>,
    pub gfe_version: Option<Seq<char>>,
    pub rtsp_session_url: Seq<char>,
    pub server_codec_mode_support: u32,
}

impl View for HostConnectionInfo {
    type V = HostConnectionInfoView;

    closed spec fn view(&self) -> HostConnectionInfoView {
        HostConnectionInfoView {
            address: self.address@,
            app_version: self.app_version@,
            gfe_version: crate::control::opt_view(self.gfe_version),
            rtsp_session_url: self.rtsp_session_url@,
            server_codec_mode_support: self.server_codec_mode_support,
        }
    }
}

impl HostConnectionInfo {
    /// The host information consumed by the streaming core: the address of
    /// its sockets, the `appversion` and optional `GfeVersion` of
    /// `serverinfo`, the session URL of launch or resume, and the raw
    /// `ServerCodecModeSupport` bitmap.
    pub fn new(
        address: String,
        app_version: String,
        gfe_version: Option<String>,
        rtsp_session_url: String,
        server_codec_mode_support: u32,
    ) -> (res: Self)
        ensures
            res@ == (HostConnectionInfoView {
                address: address@,
                app_version: app_version@,
                gfe_version: crate::control::opt_view(gfe_version),
                rtsp_session_url: rtsp_session_url@,
                server_codec_mode_support,
            }),
    {
        HostConnectionInfo { address, app_version, gfe_version, rtsp_session_url, server_codec_mode_support }
    }

    /// The raw `ServerCodecModeSupport` bitmap.
    pub fn server_codec_mode_support(&self) -> (res: u32)
        ensures
            res == self@.server_codec_mode_support,
    {
        self.server_codec_mode_support
    }
}

/// The host strings, each checked to be a valid C string.
#[derive(Debug)]
pub struct HostStrings {
    /// Address of the streaming sockets.
    pub address: String,
    /// GameStream `appversion`.
    pub app_version: String,
    /// Optional `GfeVersion`.
    pub gfe_version: Option<String>,
    /// Session URL from launch or resume.
    pub rtsp_session_url: String,
}

/// Why the host strings cannot be handed to the core, checked in the
/// order address, app version, GFE version, session URL.
pub open spec fn spec_host_strings_error(host: HostConnectionInfoView) -> Option<Seq<char>> {
    if spec_c_string_error("address"@, host.address) is Some {
        spec_c_string_error("address"@, host.address)
    } else if spec_c_string_error("app version"@, host.app_version) is Some {
        spec_c_string_error("app version"@, host.app_version)
    } else if host.gfe_version is Some && spec_c_string_error(
        "GFE version"@,
        host.gfe_version->Some_0,
    ) is Some {
        spec_c_string_error("GFE version"@, host.gfe_version->Some_0)
    } else {
        spec_c_string_error("RTSP session URL"@, host.rtsp_session_url)
    }
}

impl HostStrings {
    /// Checks each host string in turn.
    pub fn new(host: &HostConnectionInfo) -> (res: Result<Self, ConnectionError>)
        ensures
            match spec_host_strings_error(host@) {
                Some(m) => res is Err && is_invalid_configuration(res->Err_0, m),
                None => res matches Ok(s) && s.address@ == host@.address && s.app_version@
                    == host@.app_version && crate::control::opt_view(s.gfe_version) == host@.gfe_version
                    && s.rtsp_session_url@ == host@.rtsp_session_url,
            },
    {
        let address = c_string("address", host.address.as_str())?;
        let app_version = c_string("app version", host.app_version.as_str())?;
        let gfe_version = match &host.gfe_version {
            Some(value) => Some(c_string("GFE version", value.as_str())?),
            None => None,
        };
        let rtsp_session_url = c_string("RTSP session URL", host.rtsp_session_url.as_str())?;
        Ok(HostStrings { address, app_version, gfe_version, rtsp_session_url })
    }
}

/// Video and transport preferences passed to the streaming core.
#[derive(Clone, Copy, Debug, PartialEq, Eq)]
pub struct StreamConfiguration {
    width: u32,
    height: u32,
    fps: u32,
    bitrate_kbps: u32,
    packet_size: u32,
    remote_input_aes_key: [u8; 16],
    remote_input_aes_iv: [u8; 16],
}

/// Mathematical value of a [`StreamConfiguration`].
pub struct StreamConfigurationView {
    pub width: u32,
    pub height: u32,
    pub fps: u32,
    pub bitrate_kbps: u32,
    pub packet_size: u32,
    pub remote_input_aes_key: Seq<u8>,
    pub remote_input_aes_iv: Seq<u8>,
}

impl View for StreamConfiguration {
    type V = StreamConfigurationView;

    closed spec fn view(&self) -> StreamConfigurationView {
        StreamConfigurationView {
            width: self.width,
            height: self.height,
            fps: self.fps,
            bitrate_kbps: self.bitrate_kbps,
            packet_size: self.packet_size,
            remote_input_aes_key: self.remote_input_aes_key@,
            remote_input_aes_iv: self.remote_input_aes_iv@,
        }
    }
}

/// Stream values in the form the core takes them.
#[derive(Debug)]
pub struct RawStreamConfiguration {
    pub width: i32,
    pub height: i32,
    pub fps: i32,
    pub bitrate: i32,
    pub packet_size: i32,
    pub client_refresh_rate_x100: i32,
    pub remote_input_aes_key: [u8; 16],
    pub remote_input_aes_iv: [u8; 16],
}

/// Why `value` is no positive C integer, as the message naming the setting.
pub open spec fn spec_positive_int_error(name: Seq<char>, value: int) -> Option<Seq<char>> {
    if value == 0 {
        Some(name + " must be non-zero"@)
    } else if value > i32::MAX {
        Some(name + " does not fit in a C integer"@)
    } else {
        None
    }
}

/// Why a stream configuration cannot be handed to the core, checked in the
/// order width, height, FPS, bitrate, packet size, refresh rate.
pub open spec fn spec_stream_error(c: StreamConfigurationView) -> Option<Seq<char>> {
    if spec_positive_int_error("width"@, c.width as int) is Some {
        spec_positive_int_error("width"@, c.width as int)
    } else if spec_positive_int_error("height"@, c.height as int) is Some {
        spec_positive_int_error("height"@, c.height as int)
    } else if spec_positive_int_error("FPS"@, c.fps as int) is Some {
        spec_positive_int_error("FPS"@, c.fps as int)
    } else if spec_positive_int_error("bitrate"@, c.bitrate_kbps as int) is Some {
        spec_positive_int_error("bitrate"@, c.bitrate_kbps as int)
    } else if spec_positive_int_error("packet size"@, c.packet_size as int) is Some {
        spec_positive_int_error("packet size"@, c.packet_size as int)
    } else if c.fps * 100 > u32::MAX {
        Some("refresh rate is too large"@)
    } else {
        spec_positive_int_error("refresh rate"@, c.fps * 100)
    }
}

impl StreamConfiguration {
    /// An H.264 stereo stream configuration with a 20 Mbps bitrate and
    /// 1024-byte video packets.
    pub fn new(
        width: u32,
        height: u32,
        fps: u32,
        remote_input_aes_key: [u8; 16],
        remote_input_aes_iv: [u8; 16],
    ) -> (res: Self)
        ensures
            res@ == (StreamConfigurationView {
                width,
                height,
                fps,
                bitrate_kbps: 20000,
                packet_size: 1024,
                remote_input_aes_key: remote_input_aes_key@,
                remote_input_aes_iv: remote_input_aes_iv@,
            }),
    {
        StreamConfiguration {
            width,
            height,
            fps,
            bitrate_kbps: 20_000,
            packet_size: 1_024,
            remote_input_aes_key,
            remote_input_aes_iv,
        }
    }

    /// The configuration with another video bitrate, in kilobits per second.
    pub fn with_bitrate_kbps(self, bitrate_kbps: u32) -> (res: Self)
        ensures
            res@ == (StreamConfigurationView { bitrate_kbps, ..self@ }),
    {
        StreamConfiguration { bitrate_kbps, ..self }
    }

    /// The configuration with another maximum video packet size, in bytes.
    pub fn with_packet_size(self, packet_size: u32) -> (res: Self)
        ensures
            res@ == (StreamConfigurationView { packet_size, ..self@ }),
    {
        StreamConfiguration { packet_size, ..self }
    }

    /// The configuration in the form the core takes it, with the refresh
    /// rate in hundredths of a hertz.
    pub fn validated(self) -> (res: Result<RawStreamConfiguration, ConnectionError>)
        ensures
            match spec_stream_error(self@) {
                Some(m) => res is Err && is_invalid_configuration(res->Err_0, m),
                None => res matches Ok(raw) && raw.width == self@.width && raw.height == self@.height
                    && raw.fps == self@.fps && raw.bitrate == self@.bitrate_kbps && raw.packet_size
                    == self@.packet_size && raw.client_refresh_rate_x100 == self@.fps * 100
                    && raw.remote_input_aes_key@ == self@.remote_input_aes_key
                    && raw.remote_input_aes_iv@ == self@.remote_input_aes_iv,
            },
    {
        let width = positive_int("width", self.width)?;
        let height = positive_int("height", self.height)?;
        let fps = positive_int("FPS", self.fps)?;
        let bitrate = positive_int("bitrate", self.bitrate_kbps)?;
        let packet_size = positive_int("packet size", self.packet_size)?;
        let refresh_rate = match self.fps.checked_mul(100) {
            Some(rate) => rate,
            None => {
                return Err(ConnectionError::InvalidConfiguration("refresh rate is too large".to_owned()));
            },
        };
        let client_refresh_rate_x100 = positive_int("refresh rate", refresh_rate)?;
        Ok(RawStreamConfiguration {
            width,
            height,
            fps,
            bitrate,
            packet_size,
            client_refresh_rate_x100,
            remote_input_aes_key: self.remote_input_aes_key,
            remote_input_aes_iv: self.remote_input_aes_iv,
        })
    }
}

/// What starting a connection is handed: the checked host strings, the
/// stream in the core's form and the codec bitmap as a positive C integer.
pub struct StartParameters {
    /// Checked host strings.
    pub host: HostStrings,
    /// Stream values in the core's form.
    pub stream: RawStreamConfiguration,
    /// `ServerCodecModeSupport` as a C integer.
    pub codec_support: i32,
}

/// Checks what a connection start needs, in the order host strings, stream
/// configuration, codec bitmap.
pub fn prepare_start(host: &HostConnectionInfo, stream: StreamConfiguration) -> (res: Result<
    StartParameters,
    ConnectionError,
>)
    ensures
        match spec_host_strings_error(host@) {
            Some(m) => res is Err && is_invalid_configuration(res->Err_0, m),
            None => match spec_stream_error(stream@) {
                Some(m) => res is Err && is_invalid_configuration(res->Err_0, m),
                None => match spec_positive_int_error(
                    "server codec support"@,
                    host@.server_codec_mode_support as int,
                ) {
                    Some(m) => res is Err && is_invalid_configuration(res->Err_0, m),
                    None => res matches Ok(p) && p.codec_support == host@.server_codec_mode_support
                        && p.host.address@ == host@.address && p.stream.width == stream@.width
                        && p.stream.height == stream@.height && p.stream.fps == stream@.fps
                        && p.stream.client_refresh_rate_x100 == stream@.fps * 100,
                },
            },
        },
{
    let host_strings = HostStrings::new(host)?;
    let raw = stream.validated()?;
    let codec_support = positive_int("server codec support", host.server_codec_mode_support)?;
    Ok(StartParameters { host: host_strings, stream: raw, codec_support })
}

/// `value` unless it is the core's marker for "no error".
pub fn reported_error(value: i32) -> (res: Option<i32>)
    ensures
        value == NO_REPORTED_ERROR ==> res is None,
        value != NO_REPORTED_ERROR ==> res == Some(value),
{
    if value != NO_REPORTED_ERROR {
        Some(value)
    } else {
        None
    }
}

/// The error for a failed connection start: the audio renderer's error when
/// it reported one, else the core's code and stage.
pub fn start_failure(code: i32, audio_error: Option<String>, stage: i32, stage_error: i32) -> (res:
    ConnectionError)
    ensures
        match audio_error {
            Some(a) => res matches ConnectionError::Audio(m) && m@ == a@,
            None => res == (ConnectionError::StartFailed {
                code,
                stage,
                stage_error: if stage_error == NO_REPORTED_ERROR {
                    None
                } else {
                    Some(stage_error)
                },
            }),
        },
{
    match audio_error {
        Some(message) => ConnectionError::Audio(message),
        None => ConnectionError::StartFailed { code, stage, stage_error: reported_error(stage_error) },
    }
}

/// Checks a frame pulled from the core: both pointers must be present and
/// the access unit between one byte and the supported maximum long. Gives
/// the length.
pub fn check_pulled_frame(handle_present: bool, unit_present: bool, full_length: i32) -> (res: Result<
    usize,
    ConnectionError,
>)
    ensures
        !(handle_present && unit_present) ==> res is Err && is_invalid_video_frame(
            res->Err_0,
            "core returned a null frame pointer"@,
        ),
        handle_present && unit_present && full_length < 0 ==> res is Err && is_invalid_video_frame(
            res->Err_0,
            "core returned a non-positive access-unit length"@,
        ),
        handle_present && unit_present && (full_length == 0 || full_length > MAX_ACCESS_UNIT_LENGTH)
            ==> res is Err && is_invalid_video_frame(
            res->Err_0,
            "access-unit length "@ + spec_decimal(full_length as nat) + " is outside the supported range"@,
        ),
        handle_present && unit_present && 0 < full_length <= MAX_ACCESS_UNIT_LENGTH ==> res == Ok::<
            usize,
            ConnectionError,
        >(full_length as usize),
{
    if !handle_present || !unit_present {
        return Err(ConnectionError::InvalidVideoFrame("core returned a null frame pointer".to_owned()));
    }
    if full_length < 0 {
        return Err(
            ConnectionError::InvalidVideoFrame(
                "core returned a non-positive access-unit length".to_owned(),
            ),
        );
    }
    let length = full_length as usize;
    if length == 0 || length > MAX_ACCESS_UNIT_LENGTH {
        let number = decimal(length as u64);
        return Err(
            ConnectionError::InvalidVideoFrame(
                concat3("access-unit length ", number.as_str(), " is outside the supported range"),
            ),
        );
    }
    Ok(length)
}

/// Checks that the core copied exactly the advertised number of bytes.
pub fn check_copied_length(copied: i32, expected: usize) -> (res: Result<(), ConnectionError>)
    ensures
        (copied >= 0 && copied == expected) ==> res is Ok,
        !(copied >= 0 && copied == expected) ==> res is Err && is_invalid_video_frame(
            res->Err_0,
            "buffer chain did not match the advertised access-unit length"@,
        ),
{
    if copied < 0 || copied as usize != expected {
        return Err(
            ConnectionError::InvalidVideoFrame(
                "buffer chain did not match the advertised access-unit length".to_owned(),
            ),
        );
    }
    Ok(())
}

/// Press or release state for a remote key or mouse button.
#[derive(Clone, Copy, Debug, PartialEq, Eq, Structural)]
pub enum InputAction {
    /// Press the key or mouse button.
    Press,
    /// Release the key or mouse button.
    Release,
}

/// The protocol's code for a mouse-button action.
pub fn button_action_code(action: InputAction) -> (res: i8)
    ensures
        res == match action {
            InputAction::Press => BUTTON_ACTION_PRESS,
            InputAction::Release => BUTTON_ACTION_RELEASE,
        },
{
    match action {
        InputAction::Press => BUTTON_ACTION_PRESS,
        InputAction::Release => BUTTON_ACTION_RELEASE,
    }
}

/// The protocol's code for a key action.
pub fn key_action_code(action: InputAction) -> (res: i8)
    ensures
        res == match action {
            InputAction::Press => KEY_ACTION_DOWN,
            InputAction::Release => KEY_ACTION_UP,
        },
{
    match action {
        InputAction::Press => KEY_ACTION_DOWN,
        InputAction::Release => KEY_ACTION_UP,
    }
}

/// Mouse buttons supported by the GameStream input protocol.
#[derive(Clone, Copy, Debug, PartialEq, Eq, Structural)]
pub enum MouseButton {
    /// Primary mouse button.
    Left,
    /// Middle mouse button.
    Middle,
    /// Secondary mouse button.
    Right,
}

impl MouseButton {
    /// The protocol's number for the button.
    pub fn raw(self) -> (res: i32)
        ensures
            res == match self {
                MouseButton::Left => 1i32,
                MouseButton::Middle => 2i32,
                MouseButton::Right => 3i32,
            },
    {
        match self {
            MouseButton::Left => 0x01,
            MouseButton::Middle => 0x02,
            MouseButton::Right => 0x03,
        }
    }
}

/// The modifier bitmap for the given held modifiers.
pub open spec fn spec_modifier_bits(shift: bool, control: bool, alt: bool, meta: bool) -> u8 {
    ((if shift { 1int } else { 0int }) + (if control { 2int } else { 0int }) + (if alt { 4int } else {
        0int
    }) + (if meta { 8int } else { 0int })) as u8
}

/// Modifier flags accompanying a remote keyboard event.
#[derive(Clone, Copy, Debug, PartialEq, Eq, Structural)]
pub struct KeyboardModifiers {
    bits: u8,
}

impl View for KeyboardModifiers {
    type V = u8;

    closed spec fn view(&self) -> u8 {
        self.bits
    }
}

impl Default for KeyboardModifiers {
    fn default() -> (res: Self)
        ensures
            res@ == 0,
    {
        KeyboardModifiers { bits: 0 }
    }
}

impl KeyboardModifiers {
    /// The modifier flags for a key event: Shift, Control, Alt and Meta
    /// (Windows, Super or Command) held or not.
    pub fn new(shift: bool, control: bool, alt: bool, meta: bool) -> (res: Self)
        ensures
            res@ == spec_modifier_bits(shift, control, alt, meta),
    {
        let mut bits: u8 = 0;
        if shift {
            bits = bits + MODIFIER_SHIFT;
        }
        if control {
            bits = bits + MODIFIER_CONTROL;
        }
        if alt {
            bits = bits + MODIFIER_ALT;
        }
        if meta {
            bits = bits + MODIFIER_META;
        }
        KeyboardModifiers { bits }
    }

    /// The packed modifier bitmap.
    pub fn bits(self) -> (res: u8)
        ensures
            res == self@,
    {
        self.bits
    }
}

/// A Win32 virtual-key code as the wire carries it: its low byte with the
/// virtual-key marker set.
pub fn wire_key_code(key_code: u16) -> (res: u16)
    ensures
        res == 0x8000 + key_code % 256,
{
    let res = KEY_CODE_VIRTUAL_KEY | (key_code & 0x00FF);
    assert(0x8000u16 | (key_code & 0xffu16) == 0x8000 + key_code % 256) by (bit_vector);
    res
}

/// Error returned when remote input cannot be queued.
#[derive(Clone, Copy, Debug, PartialEq, Eq)]
pub enum InputError {
    /// The connection has already stopped or is not ready for input.
    ConnectionInactive,
    /// The core rejected or could not allocate an input packet.
    Core {
        /// Name of the input operation that failed.
        operation: &'static str,
        /// Raw error returned by the core.
        code: i32,
    },
}

impl InputError {
    /// The message shown for this error.
    pub fn to_string(&self) -> (res: String)
        ensures
            res@ == match *self {
                InputError::ConnectionInactive => "stream input is not active"@,
                InputError::Core { operation, code } => operation@ + " input failed with "@
                    + spec_signed_decimal(code as int),
            },
    {
        match self {
            InputError::ConnectionInactive => "stream input is not active".to_owned(),
            InputError::Core { operation, code } => {
                let number = signed_decimal(*code as i64);
                concat3(operation, " input failed with ", number.as_str())
            },
        }
    }
}

/// The outcome of queueing one input packet, from the core's return code.
pub fn input_result(operation: &'static str, code: i32) -> (res: Result<(), InputError>)
    ensures
        code == 0 ==> res is Ok,
        code != 0 ==> res == Err::<(), InputError>(InputError::Core { operation, code }),
{
    if code == 0 {
        Ok(())
    } else {
        Err(InputError::Core { operation, code })
    }
}

/// Negotiated video parameters reported by the core's renderer setup.
#[derive(Clone, Copy, Debug, PartialEq, Eq, Structural)]
pub struct VideoSetup {
    video_format: i32,
    width: u32,
    height: u32,
    fps: u32,
}

/// Mathematical value of a [`VideoSetup`].
pub struct VideoSetupView {
    pub video_format: i32,
    pub width: u32,
    pub height: u32,
    pub fps: u32,
}

impl View for VideoSetup {
    type V = VideoSetupView;

    closed spec fn view(&self) -> VideoSetupView {
        VideoSetupView { video_format: self.video_format, width: self.width, height: self.height, fps: self.fps }
    }
}

impl VideoSetup {
    /// The negotiated parameters from the core's raw values: none before the
    /// setup ran (format zero) or when a dimension or the rate is negative.
    pub fn from_raw(video_format: i32, width: i32, height: i32, fps: i32) -> (res: Option<VideoSetup>)
        ensures
            if video_format == 0 || width < 0 || height < 0 || fps < 0 {
                res is None
            } else {
                res matches Some(s) && s@ == (VideoSetupView {
                    video_format,
                    width: width as u32,
                    height: height as u32,
                    fps: fps as u32,
                })
            },
    {
        if video_format == 0 || width < 0 || height < 0 || fps < 0 {
            return None;
        }
        Some(VideoSetup { video_format, width: width as u32, height: height as u32, fps: fps as u32 })
    }

    /// The raw video-format bitmap selected by the host.
    pub fn video_format(self) -> (res: i32)
        ensures
            res == self@.video_format,
    {
        self.video_format
    }

    /// The negotiated video width.
    pub fn width(self) -> (res: u32)
        ensures
            res == self@.width,
    {
        self.width
    }

    /// The negotiated video height.
    pub fn height(self) -> (res: u32)
        ensures
            res == self@.height,
    {
        self.height
    }

    /// The negotiated redraw rate.
    pub fn fps(self) -> (res: u32)
        ensures
            res == self@.fps,
    {
        self.fps
    }

    /// Whether the selected format is an H.264 profile: any of the low four
    /// format bits.
    pub fn is_h264(self) -> (res: bool)
        ensures
            res == (self@.video_format & 0x000F != 0),
    {
        self.video_format & 0x000F != 0
    }
}

/// Completion status returned for a pulled compressed frame.
#[derive(Clone, Copy, Debug, PartialEq, Eq, Structural)]
pub enum VideoFrameStatus {
    /// The frame was accepted and processed successfully.
    Complete,
    /// The decoder could not consume the frame and needs a fresh IDR.
    NeedIdr,
}

impl VideoFrameStatus {
    /// The decoder status code the core takes for this outcome.
    pub fn raw(self) -> (res: i32)
        ensures
            res == match self {
                VideoFrameStatus::Complete => DR_OK,
                VideoFrameStatus::NeedIdr => DR_NEED_IDR,
            },
    {
        match self {
            VideoFrameStatus::Complete => DR_OK,
            VideoFrameStatus::NeedIdr => DR_NEED_IDR,
        }
    }
}

} // verus!

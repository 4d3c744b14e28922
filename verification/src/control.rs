//! Shared control-plane types: errors, host information and applications.
use vstd::prelude::*;

use crate::text::{chars_of, concat, concat3, decimal, parse_unsigned, spec_decimal, spec_parse_unsigned};

verus! {

#[verifier::external_type_specification]
#[verifier::external_body]
pub struct ExHttpError(reqwest::Error);

#[verifier::external_type_specification]
#[verifier::external_body]
pub struct ExIoError(std::io::Error);

/// Error returned by the portable control plane.
#[derive(Debug)]
pub enum ControlError {
    /// The user-provided host address is invalid.
    InvalidHost(String),
    /// An HTTP or TLS request failed.
    Http(reqwest::Error),
    /// A local identity file could not be read or written.
    Io(std::io::Error),
    /// Client identity generation or parsing failed.
    Identity(String),
    /// Persistent client configuration was malformed or unsupported.
    Configuration(String),
    /// XML returned by the host was malformed or incomplete.
    Xml(String),
    /// The host returned an explicit GameStream protocol error.
    Protocol {
        /// GameStream XML status code.
        code: u32,
        /// GameStream XML status message.
        message: String,
    },
    /// A cryptographic operation failed.
    Crypto(String),
    /// The pairing handshake was rejected or failed validation.
    Pairing(String),
    /// An application session could not be launched, resumed, or cancelled.
    Session(String),
}

/// The text of an HTTP error (`reqwest::Error` as `Display`). Nothing is
/// stated of it.
#[verifier::external_body]
fn http_error_text(error: &reqwest::Error) -> String {
    error.to_string()
}

/// The text of an I/O error (`std::io::Error` as `Display`). Nothing is
/// stated of it.
#[verifier::external_body]
fn io_error_text(error: &std::io::Error) -> String {
    error.to_string()
}

/// The fixed text that opens the message of each kind of error.
pub open spec fn spec_error_prefix(e: ControlError) -> Seq<char> {
    match e {
        ControlError::InvalidHost(_) => "invalid host: "@,
        ControlError::Http(_) => "network request failed: "@,
        ControlError::Io(_) => "identity storage failed: "@,
        ControlError::Identity(_) => "client identity failed: "@,
        ControlError::Configuration(_) => "client configuration failed: "@,
        ControlError::Xml(_) => "invalid host response: "@,
        ControlError::Protocol { .. } => "host rejected request ("@,
        ControlError::Crypto(_) => "pairing cryptography failed: "@,
        ControlError::Pairing(_) => "pairing failed: "@,
        ControlError::Session(_) => "session control failed: "@,
    }
}

/// The whole message of an error, where it is made of values the library
/// holds; `None` for the errors that carry an outside error.
pub open spec fn spec_error_text(e: ControlError) -> Option<Seq<char>> {
    match e {
        ControlError::InvalidHost(m) => Some(spec_error_prefix(e) + m@),
        ControlError::Http(_) => None,
        ControlError::Io(_) => None,
        ControlError::Identity(m) => Some(spec_error_prefix(e) + m@),
        ControlError::Configuration(m) => Some(spec_error_prefix(e) + m@),
        ControlError::Xml(m) => Some(spec_error_prefix(e) + m@),
        ControlError::Protocol { code, message } => Some(
            spec_error_prefix(e) + spec_decimal(code as nat) + "): "@ + message@,
        ),
        ControlError::Crypto(m) => Some(spec_error_prefix(e) + m@),
        ControlError::Pairing(m) => Some(spec_error_prefix(e) + m@),
        ControlError::Session(m) => Some(spec_error_prefix(e) + m@),
    }
}

impl ControlError {
    /// The message shown for this error: a fixed prefix naming the kind of
    /// failure, then its details.
    pub fn to_string(&self) -> (res: String)
        ensures
            res@.len() >= spec_error_prefix(*self).len(),
            res@.subrange(0, spec_error_prefix(*self).len() as int) == spec_error_prefix(*self),
            spec_error_text(*self) matches Some(t) ==> res@ == t,
    {
        let res = match self {
            ControlError::InvalidHost(m) => concat("invalid host: ", m.as_str()),
            ControlError::Http(e) => {
                let detail = http_error_text(e);
                concat("network request failed: ", detail.as_str())
            },
            ControlError::Io(e) => {
                let detail = io_error_text(e);
                concat("identity storage failed: ", detail.as_str())
            },
            ControlError::Identity(m) => concat("client identity failed: ", m.as_str()),
            ControlError::Configuration(m) => concat("client configuration failed: ", m.as_str()),
            ControlError::Xml(m) => concat("invalid host response: ", m.as_str()),
            ControlError::Protocol { code, message } => {
                let number = decimal(*code as u64);
                let head = concat3("host rejected request (", number.as_str(), "): ");
                concat(head.as_str(), message.as_str())
            },
            ControlError::Crypto(m) => concat("pairing cryptography failed: ", m.as_str()),
            ControlError::Pairing(m) => concat("pairing failed: ", m.as_str()),
            ControlError::Session(m) => concat("session control failed: ", m.as_str()),
        };
        assert(res@.subrange(0, spec_error_prefix(*self).len() as int) =~= spec_error_prefix(*self));
        res
    }
}

/// Whether `e` is an `Xml` error carrying exactly `message`.
pub open spec fn is_xml_error(e: ControlError, message: Seq<char>) -> bool {
    e matches ControlError::Xml(m) && m@ == message
}

/// Whether `e` is a `Session` error carrying exactly `message`.
pub open spec fn is_session_error(e: ControlError, message: Seq<char>) -> bool {
    e matches ControlError::Session(m) && m@ == message
}

/// Whether `e` is a `Pairing` error carrying exactly `message`.
pub open spec fn is_pairing_error(e: ControlError, message: Seq<char>) -> bool {
    e matches ControlError::Pairing(m) && m@ == message
}

/// Whether `e` is a `Crypto` error carrying exactly `message`.
pub open spec fn is_crypto_error(e: ControlError, message: Seq<char>) -> bool {
    e matches ControlError::Crypto(m) && m@ == message
}

/// Whether `e` is an `Identity` error carrying exactly `message`.
pub open spec fn is_identity_error(e: ControlError, message: Seq<char>) -> bool {
    e matches ControlError::Identity(m) && m@ == message
}

/// Whether `e` is an `InvalidHost` error carrying exactly `message`.
pub open spec fn is_invalid_host_error(e: ControlError, message: Seq<char>) -> bool {
    e matches ControlError::InvalidHost(m) && m@ == message
}

/// An application advertised by a paired streaming host.
#[derive(Clone, Debug, PartialEq, Eq)]
pub struct Application {
    /// Host-assigned application identifier.
    pub id: u32,
    /// User-visible application title.
    pub title: String,
}

/// Mathematical value of an [`Application`].
pub struct ApplicationView {
    pub id: u32,
    pub title: Seq<char>,
}

impl View for Application {
    type V = ApplicationView;

    open spec fn view(&self) -> ApplicationView {
        ApplicationView { id: self.id, title: self.title@ }
    }
}

/// The views of a sequence of applications.
pub open spec fn applications_view(apps: Seq<Application>) -> Seq<ApplicationView> {
    apps.map_values(|a: Application| a@)
}

/// The view of an optional string.
pub open spec fn opt_view(o: Option<String>) -> Option<Seq<char>> {
    match o {
        Some(s) => Some(s@),
        None => None,
    }
}

/// Host capabilities returned by the `serverinfo` endpoint.
#[derive(Clone, Debug, PartialEq, Eq)]
pub struct ServerInfo {
    /// User-visible Sunshine host name.
    pub hostname: String,
    /// Stable identifier advertised by the host.
    pub unique_id: String,
    /// GameStream protocol version string.
    pub app_version: String,
    /// GeForce Experience compatibility version, when advertised.
    pub gfe_version: Option<String>,
    /// Codec modes advertised through `ServerCodecModeSupport`; legacy hosts
    /// that omit the field are treated as H.264-only.
    pub server_codec_mode_support: u32,
    /// HTTPS control port.
    pub https_port: u16,
    /// Whether the current client certificate is paired.
    pub paired: bool,
    /// Currently running application ID, or zero.
    pub current_game: u32,
    /// Raw host state string.
    pub state: String,
}

/// Mathematical value of a [`ServerInfo`].
pub struct ServerInfoView {
    pub hostname: Seq<char>,
    pub unique_id: Seq<char>,
    pub app_version: Seq<char>,
    pub gfe_version: Option<Seq<char>>,
    pub server_codec_mode_support: u32,
    pub https_port: u16,
    pub paired: bool,
    pub current_game: u32,
    pub state: Seq<char>,
}

impl View for ServerInfo {
    type V = ServerInfoView;

    open spec fn view(&self) -> ServerInfoView {
        ServerInfoView {
            hostname: self.hostname@,
            unique_id: self.unique_id@,
            app_version: self.app_version@,
            gfe_version: opt_view(self.gfe_version),
            server_codec_mode_support: self.server_codec_mode_support,
            https_port: self.https_port,
            paired: self.paired,
            current_game: self.current_game,
            state: self.state@,
        }
    }
}

/// The characters before the first `.` of `s` (all of `s` when it has none).
pub open spec fn spec_first_component(s: Seq<char>) -> Seq<char>
    decreases s.len(),
{
    if s.len() == 0 || s[0] == '.' {
        Seq::empty()
    } else {
        seq![s[0]] + spec_first_component(s.drop_first())
    }
}

/// The major GameStream generation of an `appversion` string.
pub open spec fn spec_major_version(app_version: Seq<char>) -> Option<nat> {
    spec_parse_unsigned(spec_first_component(app_version), u32::MAX as nat)
}

fn first_component_end(s: &[char]) -> (end: usize)
    ensures
        end <= s.len(),
        s@.subrange(0, end as int) == spec_first_component(s@),
{
    let mut i: usize = 0;
    assert(s@.subrange(0, s.len() as int) =~= s@);
    assert(s@.subrange(0, 0) + spec_first_component(s@) =~= spec_first_component(s@));
    while i < s.len() && s[i] != '.'
        invariant
            i <= s.len(),
            spec_first_component(s@) == s@.subrange(0, i as int) + spec_first_component(
                s@.subrange(i as int, s.len() as int),
            ),
        decreases s.len() - i,
    {
        proof {
            let rest = s@.subrange(i as int, s.len() as int);
            assert(rest.drop_first() =~= s@.subrange(i + 1, s.len() as int));
            assert(s@.subrange(0, i + 1) =~= s@.subrange(0, i as int) + seq![s@[i as int]]);
        }
        i = i + 1;
    }
    proof {
        let rest = s@.subrange(i as int, s.len() as int);
        assert(spec_first_component(rest) =~= Seq::<char>::empty());
        assert(s@.subrange(0, i as int) + Seq::<char>::empty() =~= s@.subrange(0, i as int));
    }
    i
}

impl ServerInfo {
    /// A copy of this server information.
    pub fn copy(&self) -> (res: ServerInfo)
        ensures
            res@ == self@,
    {
        ServerInfo {
            hostname: self.hostname.clone(),
            unique_id: self.unique_id.clone(),
            app_version: self.app_version.clone(),
            gfe_version: match &self.gfe_version {
                Some(v) => Some(v.clone()),
                None => None,
            },
            server_codec_mode_support: self.server_codec_mode_support,
            https_port: self.https_port,
            paired: self.paired,
            current_game: self.current_game,
            state: self.state.clone(),
        }
    }

    /// Parse the major GameStream generation from `app_version`: the digits
    /// before the first `.`.
    pub fn server_major_version(&self) -> (res: Result<u32, ControlError>)
        ensures
            match spec_major_version(self.app_version@) {
                Some(v) => res == Ok::<u32, ControlError>(v as u32),
                None => res is Err && is_xml_error(
                    res->Err_0,
                    "invalid appversion: "@ + self.app_version@,
                ),
            },
    {
        let chars = chars_of(self.app_version.as_str());
        let end = first_component_end(chars.as_slice());
        let first = vstd::slice::slice_subrange(chars.as_slice(), 0, end);
        match parse_unsigned(first, 0xffff_ffff) {
            Some(v) => Ok(v as u32),
            None => Err(
                ControlError::Xml(concat("invalid appversion: ", self.app_version.as_str())),
            ),
        }
    }
}

/// Progress emitted while connecting, pairing, and loading applications.
#[derive(Clone, Debug, PartialEq, Eq)]
pub enum ConnectProgress {
    /// Fetching the public HTTP `serverinfo` document.
    FetchingServerInfo,
    /// Waiting for the user to enter this PIN on the Sunshine host.
    WaitingForPin(String),
    /// Executing one of the five pairing handshake stages.
    PairingStage(u8),
    /// Fetching the authenticated application list.
    FetchingApplications,
}

/// Mathematical value of a [`ConnectProgress`].
pub enum ConnectProgressView {
    FetchingServerInfo,
    WaitingForPin(Seq<char>),
    PairingStage(u8),
    FetchingApplications,
}

impl View for ConnectProgress {
    type V = ConnectProgressView;

    open spec fn view(&self) -> ConnectProgressView {
        match self {
            ConnectProgress::FetchingServerInfo => ConnectProgressView::FetchingServerInfo,
            ConnectProgress::WaitingForPin(pin) => ConnectProgressView::WaitingForPin(pin@),
            ConnectProgress::PairingStage(stage) => ConnectProgressView::PairingStage(*stage),
            ConnectProgress::FetchingApplications => ConnectProgressView::FetchingApplications,
        }
    }
}

/// The views of a sequence of progress reports.
pub open spec fn progress_view(p: Seq<ConnectProgress>) -> Seq<ConnectProgressView> {
    p.map_values(|x: ConnectProgress| x@)
}

/// High-level client session phase shared with the UI.
#[derive(Clone, Debug, PartialEq, Eq)]
pub enum SessionPhase {
    /// No host operation is active.
    Idle,
    /// Fetching host information.
    Connecting,
    /// Pairing credentials are being exchanged.
    Pairing,
    /// A paired host and its application list are available.
    Ready,
    /// A launch or resume request is in progress.
    Launching,
    /// Sunshine returned a stream URL, but the transport is not connected yet.
    SessionPrepared,
    /// The transport core owns an active stream session.
    Streaming,
    /// The previous operation failed.
    Failed(String),
}

impl Default for SessionPhase {
    fn default() -> (res: Self)
        ensures
            res == SessionPhase::Idle,
    {
        SessionPhase::Idle
    }
}

} // verus!

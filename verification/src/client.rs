//! Decisions of the connect flow: what the host's answers mean for pairing.
use vstd::prelude::*;

use crate::control::{
    applications_view, is_pairing_error, Application, ApplicationView, ControlError, ServerInfo,
    ServerInfoView,
};
use crate::endpoint::{pairs_view, Endpoint, EndpointView};
use crate::text::{push_char, spec_digit_char};

verus! {

/// Seconds allowed for an ordinary control request.
pub const REQUEST_TIMEOUT_SECS: u64 = 5;

/// Seconds allowed for the first pairing request, which waits for the PIN.
pub const PAIRING_TIMEOUT_SECS: u64 = 120;

/// A request to one command of a host's control API.
#[derive(Debug)]
pub struct HostRequest {
    /// Whether the request goes over HTTPS (with the client certificate)
    /// rather than plain HTTP.
    pub https: bool,
    /// Port of the host to send it to.
    pub port: u16,
    /// The command, which is the URL's path.
    pub command: String,
    /// Query arguments after the client's unique ID and the request UUID.
    pub arguments: Vec<(String, String)>,
    /// Seconds to wait for the answer.
    pub timeout_secs: u64,
}

/// Mathematical value of a [`HostRequest`].
pub struct HostRequestView {
    pub https: bool,
    pub port: u16,
    pub command: Seq<char>,
    pub arguments: Seq<(Seq<char>, Seq<char>)>,
    pub timeout_secs: u64,
}

impl View for HostRequest {
    type V = HostRequestView;

    open spec fn view(&self) -> HostRequestView {
        HostRequestView {
            https: self.https,
            port: self.port,
            command: self.command@,
            arguments: pairs_view(self.arguments@),
            timeout_secs: self.timeout_secs,
        }
    }
}

/// The URL scheme of a request.
pub open spec fn spec_scheme(https: bool) -> Seq<char> {
    if https {
        "https"@
    } else {
        "http"@
    }
}

impl HostRequest {
    /// The URL scheme of this request.
    pub fn scheme(&self) -> (res: &'static str)
        ensures
            res@ == spec_scheme(self.https),
    {
        if self.https {
            "https"
        } else {
            "http"
        }
    }
}

/// Authenticated control-plane result ready for application selection.
#[derive(Clone, Debug, PartialEq, Eq)]
pub struct ConnectedHost {
    /// Parsed endpoint used for this connection.
    pub endpoint: Endpoint,
    /// Latest server information.
    pub server: ServerInfo,
    /// Applications advertised by Sunshine.
    pub applications: Vec<Application>,
    /// True when this call completed a new pairing handshake.
    pub newly_paired: bool,
}

/// Mathematical value of a [`ConnectedHost`].
pub struct ConnectedHostView {
    pub endpoint: EndpointView,
    pub server: ServerInfoView,
    pub applications: Seq<ApplicationView>,
    pub newly_paired: bool,
}

impl View for ConnectedHost {
    type V = ConnectedHostView;

    open spec fn view(&self) -> ConnectedHostView {
        ConnectedHostView {
            endpoint: self.endpoint@,
            server: self.server@,
            applications: applications_view(self.applications@),
            newly_paired: self.newly_paired,
        }
    }
}

/// The four-digit PIN shown for a pairing: the big-endian number of two
/// random bytes, modulo 10000, with leading zeros.
pub open spec fn spec_pairing_pin(random: Seq<u8>) -> Seq<char> {
    let n = ((random[0] as int) * 256 + random[1] as int) % 10000;
    seq![
        spec_digit_char((n / 1000) as nat),
        spec_digit_char((n / 100 % 10) as nat),
        spec_digit_char((n / 10 % 10) as nat),
        spec_digit_char((n % 10) as nat),
    ]
}

fn digit(d: u16) -> (c: char)
    requires
        d < 10,
    ensures
        c == spec_digit_char(d as nat),
{
    let v: u32 = '0' as u32 + d as u32;
    proof {
        assert(v <= 0x39);
    }
    let c = char_from_ascii_digit(v);
    c
}

fn char_from_ascii_digit(v: u32) -> (c: char)
    requires
        0x30 <= v <= 0x39,
    ensures
        c as u32 == v,
{
    if v == 0x30 {
        '0'
    } else if v == 0x31 {
        '1'
    } else if v == 0x32 {
        '2'
    } else if v == 0x33 {
        '3'
    } else if v == 0x34 {
        '4'
    } else if v == 0x35 {
        '5'
    } else if v == 0x36 {
        '6'
    } else if v == 0x37 {
        '7'
    } else if v == 0x38 {
        '8'
    } else {
        '9'
    }
}

/// The PIN to show for a pairing, from two random bytes.
pub fn pairing_pin(random: [u8; 2]) -> (res: String)
    ensures
        res@ == spec_pairing_pin(random@),
{
    let n: u16 = ((random[0] as u16) * 256 + random[1] as u16) % 10000;
    let mut pin = String::new();
    push_char(&mut pin, digit(n / 1000));
    push_char(&mut pin, digit(n / 100 % 10));
    push_char(&mut pin, digit(n / 10 % 10));
    push_char(&mut pin, digit(n % 10));
    pin
}

/// A host that is streaming cannot pair: pairing needs an idle host.
pub fn check_pairable(server: &ServerInfo) -> (res: Result<(), ControlError>)
    ensures
        server.current_game == 0 ==> res is Ok,
        server.current_game != 0 ==> res is Err && is_pairing_error(
            res->Err_0,
            "Sunshine is currently streaming; stop that session before pairing"@,
        ),
{
    if server.current_game != 0 {
        return Err(
            ControlError::Pairing(
                "Sunshine is currently streaming; stop that session before pairing".to_owned(),
            ),
        );
    }
    Ok(())
}

/// After pairing, the host must report the client as paired.
pub fn check_newly_paired(server: &ServerInfo) -> (res: Result<(), ControlError>)
    ensures
        server.paired ==> res is Ok,
        !server.paired ==> res is Err && is_pairing_error(
            res->Err_0,
            "host did not report the client as paired"@,
        ),
{
    if !server.paired {
        return Err(ControlError::Pairing("host did not report the client as paired".to_owned()));
    }
    Ok(())
}

} // verus!

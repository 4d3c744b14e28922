//! Connecting to a host, as a state machine: each step takes the host's
//! answer to the previous request (or the transport's error) and gives the
//! next request, with the progress to report, or the outcome.
use vstd::prelude::*;

use crate::client::{
    check_newly_paired, check_pairable, pairing_pin, spec_pairing_pin, ConnectedHost,
    ConnectedHostView, HostRequest, HostRequestView, REQUEST_TIMEOUT_SECS,
};
use crate::control::{
    applications_view, is_pairing_error, progress_view, ConnectProgress, ConnectProgressView,
    ControlError, ServerInfo, ServerInfoView,
};
use crate::endpoint::{spec_endpoint, Endpoint, EndpointView};
use crate::identity::{random_bytes, ClientIdentity, ClientIdentityView};
use crate::pairing::{spec_advance, spec_finish, spec_start, PairingState};
use crate::xml::{
    applications_error, parse_applications, parse_server_info, server_info_error,
    spec_applications_of, spec_server_info_of,
};

verus! {

/// What a connection waits for.
pub enum ConnectStage {
    /// The public `serverinfo` document.
    FetchingServerInfo,
    /// The authenticated `serverinfo`, which tells whether the client is
    /// already paired.
    Probing { server: ServerInfo },
    /// The answer to a pairing stage.
    Pairing { server: ServerInfo, pairing: PairingState },
    /// The answer to the request that withdraws a failed pairing; the
    /// connection then fails with `error`.
    Unpairing { error: ControlError },
    /// The authenticated `serverinfo` after pairing.
    Confirming { server: ServerInfo },
    /// The application list.
    FetchingApplications { server: ServerInfo, newly_paired: bool },
    /// Nothing: the connection is over.
    Finished,
}

/// A connection to a host in progress.
pub struct ConnectFlow {
    endpoint: Endpoint,
    stage: ConnectStage,
}

impl View for ConnectFlow {
    type V = (EndpointView, ConnectStage);

    closed spec fn view(&self) -> (EndpointView, ConnectStage) {
        (self.endpoint@, self.stage)
    }
}

/// What to do next.
pub enum ConnectStep {
    /// Report `progress`, in order, then send `request` and hand its answer
    /// to the next step.
    Send { progress: Vec<ConnectProgress>, request: HostRequest },
    /// The connection is over.
    Done(Result<ConnectedHost, ControlError>),
}

/// A request for `serverinfo`, over HTTPS (authenticated) or plain HTTP.
pub open spec fn spec_server_info_request(https: bool, port: u16) -> HostRequestView {
    HostRequestView {
        https,
        port,
        command: "serverinfo"@,
        arguments: Seq::empty(),
        timeout_secs: REQUEST_TIMEOUT_SECS,
    }
}

/// The authenticated request for the application list.
pub open spec fn spec_applications_request(port: u16) -> HostRequestView {
    HostRequestView {
        https: true,
        port,
        command: "applist"@,
        arguments: Seq::empty(),
        timeout_secs: REQUEST_TIMEOUT_SECS,
    }
}

/// The request that withdraws a failed pairing.
pub open spec fn spec_unpair_request(port: u16) -> HostRequestView {
    HostRequestView {
        https: false,
        port,
        command: "unpair"@,
        arguments: Seq::empty(),
        timeout_secs: REQUEST_TIMEOUT_SECS,
    }
}

/// Whether `step` sends `request` after reporting `progress`.
pub open spec fn sends(step: ConnectStep, progress: Seq<ConnectProgressView>, request: HostRequestView) -> bool {
    step matches ConnectStep::Send { progress: p, request: r } && progress_view(p@) == progress && r@
        == request
}

/// Whether the connection, after a failed pairing step, withdraws the
/// pairing and then fails with `error`.
pub open spec fn withdraws(
    flow: ConnectFlow,
    step: ConnectStep,
    error: ControlError,
    progress: Seq<ConnectProgressView>,
) -> bool {
    &&& flow@.1 == (ConnectStage::Unpairing { error })
    &&& sends(step, progress, spec_unpair_request(flow@.0.http_port))
}

/// Whether a pairing step's outcome `r` is what the flow goes on with: the
/// next stage's request, or the withdrawal of the pairing.
pub open spec fn continues_pairing(
    flow: ConnectFlow,
    step: ConnectStep,
    server: ServerInfo,
    r: Result<(PairingState, HostRequest), ControlError>,
    progress: Seq<ConnectProgressView>,
) -> bool {
    match r {
        Ok((p, request)) => flow@.1 == (ConnectStage::Pairing { server, pairing: p }) && sends(
            step,
            progress,
            request@,
        ),
        Err(e) => withdraws(flow, step, e, Seq::empty()),
    }
}

/// Whether a connection is in a state that its steps handle.
pub open spec fn connect_well_formed(flow: ConnectFlow) -> bool {
    match flow@.1 {
        ConnectStage::Pairing { pairing, .. } => 1 <= pairing@.stage <= 5,
        _ => true,
    }
}

/// What one step of a connection does with the answer to the last request
/// and the random bytes it may need (two for the PIN, sixteen for the
/// pairing salt, sixteen for a pairing challenge or secret).
pub open spec fn spec_connect_step(
    flow: ConnectFlow,
    answer: Result<String, ControlError>,
    identity: ClientIdentityView,
    pin_random: Seq<u8>,
    salt: Seq<u8>,
    random: Seq<u8>,
    res: (ConnectFlow, ConnectStep),
) -> bool {
    &&& connect_well_formed(res.0)
    &&& res.0@.0 == flow@.0
    &&& (res.1 is Done <==> res.0@.1 is Finished)
    &&& match flow@.1 {
        ConnectStage::FetchingServerInfo => match answer {
            Err(e) => res.1 == ConnectStep::Done(Err(e)),
            Ok(xml) => match spec_server_info_of(xml@) {
                None => res.1 matches ConnectStep::Done(Err(e)) && server_info_error(xml@, e),
                Some(info) => res.0@.1 matches ConnectStage::Probing { server } && server@ == info
                    && sends(res.1, Seq::empty(), spec_server_info_request(true, info.https_port)),
            },
        },
        ConnectStage::Probing { server } => if answer matches Ok(xml) && spec_server_info_of(
            xml@,
        ) matches Some(a) && a.paired {
            res.0@.1 matches ConnectStage::FetchingApplications { server: s, newly_paired: false }
                && s@ == spec_server_info_of(answer->Ok_0@)->Some_0 && sends(
                res.1,
                seq![ConnectProgressView::FetchingApplications],
                spec_applications_request(s@.https_port),
            )
        } else if server.current_game != 0 {
            res.1 matches ConnectStep::Done(Err(e)) && is_pairing_error(
                e,
                "Sunshine is currently streaming; stop that session before pairing"@,
            )
        } else {
            let pin = spec_pairing_pin(pin_random);
            exists|r: Result<(PairingState, HostRequest), ControlError>|
                spec_start(server@, flow@.0.http_port, pin, salt, identity, r) && match r {
                    Ok((p, request)) => res.0@.1 == (ConnectStage::Pairing { server, pairing: p })
                        && sends(
                        res.1,
                        seq![
                            ConnectProgressView::WaitingForPin(pin),
                            ConnectProgressView::PairingStage(1),
                        ],
                        request@,
                    ),
                    Err(e) => withdraws(
                        res.0,
                        res.1,
                        e,
                        seq![ConnectProgressView::WaitingForPin(pin)],
                    ),
                }
        },
        ConnectStage::Pairing { server, pairing } => match answer {
            Err(e) => withdraws(res.0, res.1, e, Seq::empty()),
            Ok(xml) => if pairing@.stage == 5 {
                exists|r: Result<(), ControlError>|
                    spec_finish(xml@, r) && match r {
                        Ok(()) => res.0@.1 == (ConnectStage::Confirming { server }) && sends(
                            res.1,
                            seq![ConnectProgressView::FetchingApplications],
                            spec_server_info_request(true, server@.https_port),
                        ),
                        Err(e) => withdraws(res.0, res.1, e, Seq::empty()),
                    }
            } else {
                exists|r: Result<(PairingState, HostRequest), ControlError>|
                    spec_advance(pairing@, xml@, random, identity, r) && continues_pairing(
                        res.0,
                        res.1,
                        server,
                        r,
                        seq![ConnectProgressView::PairingStage((pairing@.stage + 1) as u8)],
                    )
            },
        },
        ConnectStage::Unpairing { error } => res.1 == ConnectStep::Done(Err(error)),
        ConnectStage::Confirming { server } => match answer {
            Err(e) => res.1 == ConnectStep::Done(Err(e)),
            Ok(xml) => match spec_server_info_of(xml@) {
                None => res.1 matches ConnectStep::Done(Err(e)) && server_info_error(xml@, e),
                Some(info) => if !info.paired {
                    res.1 matches ConnectStep::Done(Err(e)) && is_pairing_error(
                        e,
                        "host did not report the client as paired"@,
                    )
                } else {
                    res.0@.1 matches ConnectStage::FetchingApplications {
                        server: s,
                        newly_paired: true,
                    } && s@ == info && sends(
                        res.1,
                        Seq::empty(),
                        spec_applications_request(info.https_port),
                    )
                },
            },
        },
        ConnectStage::FetchingApplications { server, newly_paired } => match answer {
            Err(e) => res.1 == ConnectStep::Done(Err(e)),
            Ok(xml) => match spec_applications_of(xml@) {
                None => res.1 matches ConnectStep::Done(Err(e)) && applications_error(xml@, e),
                Some(apps) => res.1 matches ConnectStep::Done(Ok(host)) && host@ == (
                ConnectedHostView {
                    endpoint: flow@.0,
                    server: server@,
                    applications: apps,
                    newly_paired,
                }),
            },
        },
        ConnectStage::Finished => false,
    }
}

fn server_info_request(https: bool, port: u16) -> (res: HostRequest)
    ensures
        res@ == spec_server_info_request(https, port),
{
    let res = HostRequest {
        https,
        port,
        command: "serverinfo".to_owned(),
        arguments: Vec::new(),
        timeout_secs: REQUEST_TIMEOUT_SECS,
    };
    assert(crate::endpoint::pairs_view(res.arguments@) =~= Seq::empty());
    res
}

fn applications_request(port: u16) -> (res: HostRequest)
    ensures
        res@ == spec_applications_request(port),
{
    let res = HostRequest {
        https: true,
        port,
        command: "applist".to_owned(),
        arguments: Vec::new(),
        timeout_secs: REQUEST_TIMEOUT_SECS,
    };
    assert(crate::endpoint::pairs_view(res.arguments@) =~= Seq::empty());
    res
}

fn unpair_request(port: u16) -> (res: HostRequest)
    ensures
        res@ == spec_unpair_request(port),
{
    let res = HostRequest {
        https: false,
        port,
        command: "unpair".to_owned(),
        arguments: Vec::new(),
        timeout_secs: REQUEST_TIMEOUT_SECS,
    };
    assert(crate::endpoint::pairs_view(res.arguments@) =~= Seq::empty());
    res
}

fn send(progress: Vec<ConnectProgress>, request: HostRequest) -> (res: ConnectStep)
    ensures
        res == (ConnectStep::Send { progress, request }),
{
    ConnectStep::Send { progress, request }
}

fn no_progress() -> (res: Vec<ConnectProgress>)
    ensures
        progress_view(res@) == Seq::<ConnectProgressView>::empty(),
{
    let res: Vec<ConnectProgress> = Vec::new();
    assert(progress_view(res@) =~= Seq::<ConnectProgressView>::empty());
    res
}

fn one_progress(p: ConnectProgress) -> (res: Vec<ConnectProgress>)
    ensures
        progress_view(res@) == seq![p@],
{
    let mut res: Vec<ConnectProgress> = Vec::new();
    res.push(p);
    assert(progress_view(res@) =~= seq![p@]);
    res
}

impl ConnectFlow {
    /// Starts connecting to a manual host entry: the `FetchingServerInfo`
    /// report comes first, whatever the entry; then the entry must parse,
    /// and the public `serverinfo` is fetched first.
    pub fn start(address: &str) -> (res: (
        Vec<ConnectProgress>,
        Result<(ConnectFlow, HostRequest), ControlError>,
    ))
        ensures
            progress_view(res.0@) == seq![ConnectProgressView::FetchingServerInfo],
            match spec_endpoint(address@) {
                Ok(e) => res.1 matches Ok((flow, request)) && flow@ == (
                    e,
                    ConnectStage::FetchingServerInfo,
                ) && request@ == spec_server_info_request(false, e.http_port) && connect_well_formed(
                    flow,
                ),
                Err(m) => res.1 is Err && crate::control::is_invalid_host_error(res.1->Err_0, m),
            },
    {
        let progress = one_progress(ConnectProgress::FetchingServerInfo);
        let endpoint = match Endpoint::parse(address) {
            Ok(endpoint) => endpoint,
            Err(error) => return (progress, Err(error)),
        };
        let request = server_info_request(false, endpoint.http_port());
        (progress, Ok((ConnectFlow { endpoint, stage: ConnectStage::FetchingServerInfo }, request)))
    }

    /// The host endpoint that the requests go to.
    pub fn endpoint(&self) -> (res: &Endpoint)
        ensures
            res@ == self@.0,
    {
        &self.endpoint
    }

    /// Whether the connection is over.
    pub fn is_finished(&self) -> (res: bool)
        ensures
            res == (self@.1 is Finished),
    {
        match self.stage {
            ConnectStage::Finished => true,
            _ => false,
        }
    }

    /// Takes the answer to the last request, with the random bytes the next
    /// step may need: two for the PIN, sixteen for the pairing salt, sixteen
    /// for the pairing challenge or secret.
    #[verifier::rlimit(50)]
    pub fn step_with(
        self,
        answer: Result<String, ControlError>,
        identity: &ClientIdentity,
        pin_random: [u8; 2],
        salt: [u8; 16],
        random: [u8; 16],
    ) -> (res: (ConnectFlow, ConnectStep))
        requires
            connect_well_formed(self),
            !(self@.1 is Finished),
        ensures
            spec_connect_step(self, answer, identity@, pin_random@, salt@, random@, res),
    {
        let endpoint = self.endpoint;
        match self.stage {
            ConnectStage::FetchingServerInfo => {
                let xml = match answer {
                    Err(e) => return (ConnectFlow { endpoint, stage: ConnectStage::Finished }, ConnectStep::Done(Err(e))),
                    Ok(xml) => xml,
                };
                match parse_server_info(xml.as_str()) {
                    Err(e) => (ConnectFlow { endpoint, stage: ConnectStage::Finished }, ConnectStep::Done(Err(e))),
                    Ok(server) => {
                        let request = server_info_request(true, server.https_port);
                        (
                            ConnectFlow { endpoint, stage: ConnectStage::Probing { server } },
                            send(no_progress(), request),
                        )
                    },
                }
            },
            ConnectStage::Probing { server } => {
                if let Ok(xml) = &answer {
                    if let Ok(authenticated) = parse_server_info(xml.as_str()) {
                        if authenticated.paired {
                            let request = applications_request(authenticated.https_port);
                            return (
                                ConnectFlow {
                                    endpoint,
                                    stage: ConnectStage::FetchingApplications {
                                        server: authenticated,
                                        newly_paired: false,
                                    },
                                },
                                send(one_progress(ConnectProgress::FetchingApplications), request),
                            );
                        }
                    }
                }
                if let Err(e) = check_pairable(&server) {
                    return (ConnectFlow { endpoint, stage: ConnectStage::Finished }, ConnectStep::Done(Err(e)));
                }
                let pin = pairing_pin(pin_random);
                let started = PairingState::start_with_salt(
                    &server,
                    endpoint.http_port(),
                    pin.as_str(),
                    salt,
                    identity,
                );
                let mut progress: Vec<ConnectProgress> = Vec::new();
                progress.push(ConnectProgress::WaitingForPin(pin));
                match started {
                    Ok((pairing, request)) => {
                        let ghost r = Ok::<(PairingState, HostRequest), ControlError>((pairing, request));
                        progress.push(ConnectProgress::PairingStage(1));
                        assert(progress_view(progress@) =~= seq![
                            ConnectProgressView::WaitingForPin(spec_pairing_pin(pin_random@)),
                            ConnectProgressView::PairingStage(1),
                        ]);
                        let flow = ConnectFlow { endpoint, stage: ConnectStage::Pairing { server, pairing } };
                        (flow, send(progress, request))
                    },
                    Err(error) => {
                        let ghost r = Err::<(PairingState, HostRequest), ControlError>(error);
                        assert(progress_view(progress@) =~= seq![
                            ConnectProgressView::WaitingForPin(spec_pairing_pin(pin_random@)),
                        ]);
                        let request = unpair_request(endpoint.http_port());
                        let flow = ConnectFlow { endpoint, stage: ConnectStage::Unpairing { error } };
                        (flow, send(progress, request))
                    },
                }
            },
            ConnectStage::Pairing { server, pairing } => {
                let xml = match answer {
                    Err(error) => {
                        let request = unpair_request(endpoint.http_port());
                        return (
                            ConnectFlow { endpoint, stage: ConnectStage::Unpairing { error } },
                            send(no_progress(), request),
                        );
                    },
                    Ok(xml) => xml,
                };
                if pairing.stage() == 5 {
                    let https_port = server.https_port;
                    match pairing.finish(xml.as_str()) {
                        Ok(()) => {
                            let request = server_info_request(true, https_port);
                            (
                                ConnectFlow { endpoint, stage: ConnectStage::Confirming { server } },
                                send(one_progress(ConnectProgress::FetchingApplications), request),
                            )
                        },
                        Err(error) => {
                            let request = unpair_request(endpoint.http_port());
                            (
                                ConnectFlow { endpoint, stage: ConnectStage::Unpairing { error } },
                                send(no_progress(), request),
                            )
                        },
                    }
                } else {
                    let next_stage = pairing.stage() + 1;
                    match pairing.advance_with(xml.as_str(), random, identity) {
                        Ok((pairing, request)) => (
                            ConnectFlow { endpoint, stage: ConnectStage::Pairing { server, pairing } },
                            send(one_progress(ConnectProgress::PairingStage(next_stage)), request),
                        ),
                        Err(error) => {
                            let request = unpair_request(endpoint.http_port());
                            (
                                ConnectFlow { endpoint, stage: ConnectStage::Unpairing { error } },
                                send(no_progress(), request),
                            )
                        },
                    }
                }
            },
            ConnectStage::Unpairing { error } => {
                (ConnectFlow { endpoint, stage: ConnectStage::Finished }, ConnectStep::Done(Err(error)))
            },
            ConnectStage::Confirming { server: _ } => {
                let xml = match answer {
                    Err(e) => return (ConnectFlow { endpoint, stage: ConnectStage::Finished }, ConnectStep::Done(Err(e))),
                    Ok(xml) => xml,
                };
                let confirmed = match parse_server_info(xml.as_str()) {
                    Err(e) => return (ConnectFlow { endpoint, stage: ConnectStage::Finished }, ConnectStep::Done(Err(e))),
                    Ok(server) => server,
                };
                if let Err(e) = check_newly_paired(&confirmed) {
                    return (ConnectFlow { endpoint, stage: ConnectStage::Finished }, ConnectStep::Done(Err(e)));
                }
                let request = applications_request(confirmed.https_port);
                (
                    ConnectFlow {
                        endpoint,
                        stage: ConnectStage::FetchingApplications { server: confirmed, newly_paired: true },
                    },
                    send(no_progress(), request),
                )
            },
            ConnectStage::FetchingApplications { server, newly_paired } => {
                let xml = match answer {
                    Err(e) => return (ConnectFlow { endpoint, stage: ConnectStage::Finished }, ConnectStep::Done(Err(e))),
                    Ok(xml) => xml,
                };
                match parse_applications(xml.as_str()) {
                    Err(e) => (ConnectFlow { endpoint, stage: ConnectStage::Finished }, ConnectStep::Done(Err(e))),
                    Ok(applications) => {
                        let host = ConnectedHost {
                            endpoint: endpoint.copy(),
                            server,
                            applications,
                            newly_paired,
                        };
                        (ConnectFlow { endpoint, stage: ConnectStage::Finished }, ConnectStep::Done(Ok(host)))
                    },
                }
            },
            ConnectStage::Finished => {
                (ConnectFlow { endpoint, stage: ConnectStage::Finished }, ConnectStep::Done(Err(
                    ControlError::Pairing("connection already finished".to_owned()),
                )))
            },
        }
    }

    /// Takes the answer to the last request; the PIN, the pairing salt and
    /// the pairing challenge and secret are drawn at random.
    pub fn step(self, answer: Result<String, ControlError>, identity: &ClientIdentity) -> (res: (
        ConnectFlow,
        ConnectStep,
    ))
        requires
            connect_well_formed(self),
            !(self@.1 is Finished),
        ensures
            exists|pin_random: Seq<u8>, salt: Seq<u8>, random: Seq<u8>|
                pin_random.len() == 2 && salt.len() == 16 && random.len() == 16 && spec_connect_step(
                    self,
                    answer,
                    identity@,
                    pin_random,
                    salt,
                    random,
                    res,
                ),
    {
        let pin_random = random_bytes::<2>();
        let salt = random_bytes::<16>();
        let random = random_bytes::<16>();
        let res = self.step_with(answer, identity, pin_random, salt, random);
        assert(pin_random@.len() == 2 && salt@.len() == 16 && random@.len() == 16);
        res
    }
}

} // verus!

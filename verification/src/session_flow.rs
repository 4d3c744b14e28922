//! Starting and stopping a host application, as state machines driven by
//! the host's answers, like the connection itself.
use vstd::prelude::*;

use crate::client::{ConnectedHost, ConnectedHostView, HostRequest, HostRequestView, REQUEST_TIMEOUT_SECS};
use crate::connect_flow::spec_server_info_request;
use crate::control::{
    is_pairing_error, is_session_error, Application, ApplicationView, ControlError, ServerInfo,
    ServerInfoView,
};
use crate::endpoint::{pairs_view, Endpoint, EndpointView};
use crate::identity::random_bytes;
use crate::session::{
    arguments_view, check_cancelled, check_launchable, check_resumable, check_still_paired,
    choose_verb, complete_session, copy_application, key_id, remote_input_iv,
    require_success_flag, session_arguments, spec_advertises, spec_key_id, spec_remote_input_iv,
    spec_session_arguments, LaunchConfig, StartVerb, StreamSession, StreamSessionView,
    CANCEL_TIMEOUT_SECS,
};
use crate::text::spec_decimal;
use crate::xml::{
    parse_server_info, response_error, server_info_error, spec_response_value, spec_server_info_of,
};

verus! {

/// Which request a session start makes.
#[derive(Clone, Copy, Debug, PartialEq, Eq, Structural)]
pub enum SessionGoal {
    /// Launch when the host is idle, resume when the application runs.
    Start,
    /// Launch; the host must be idle.
    Launch,
    /// Resume; the application must be running.
    Resume,
}

/// What a session start waits for.
pub enum SessionStage {
    /// Fresh authenticated host information.
    CheckingHost { goal: SessionGoal, application: Application, config: LaunchConfig },
    /// The answer to the launch or resume request.
    Requesting {
        server: ServerInfo,
        application: Application,
        config: LaunchConfig,
        verb: StartVerb,
        key: [u8; 16],
        iv: [u8; 16],
    },
    /// Nothing: the start is over.
    Finished,
}

/// A session start in progress.
pub struct SessionFlow {
    endpoint: Endpoint,
    stage: SessionStage,
}

impl View for SessionFlow {
    type V = (EndpointView, SessionStage);

    closed spec fn view(&self) -> (EndpointView, SessionStage) {
        (self.endpoint@, self.stage)
    }
}

/// What to do next in a session start.
pub enum SessionStep {
    /// Send the request and hand its answer to the next step.
    Send(HostRequest),
    /// The start is over.
    Done(Result<StreamSession, ControlError>),
}

/// The launch or resume request.
pub open spec fn spec_session_request(
    port: u16,
    verb: StartVerb,
    application_id: u32,
    config: LaunchConfig,
    key: Seq<u8>,
    iv: Seq<u8>,
) -> HostRequestView {
    HostRequestView {
        https: true,
        port,
        command: if verb == StartVerb::Launch { "launch"@ } else { "resume"@ },
        arguments: spec_session_arguments(application_id, config, key, spec_key_id(iv)),
        timeout_secs: if verb == StartVerb::Launch { 120 } else { 30 },
    }
}

/// What the host's state decides for a goal: the verb, or the error.
pub open spec fn spec_verb_for(goal: SessionGoal, current_game: u32, application_id: u32) -> Option<StartVerb> {
    match goal {
        SessionGoal::Start => if current_game == 0 {
            Some(StartVerb::Launch)
        } else if current_game == application_id {
            Some(StartVerb::Resume)
        } else {
            None
        },
        SessionGoal::Launch => if current_game == 0 {
            Some(StartVerb::Launch)
        } else {
            None
        },
        SessionGoal::Resume => if current_game != 0 && current_game == application_id {
            Some(StartVerb::Resume)
        } else {
            None
        },
    }
}

/// Whether `e` is the error that the host's state gives for a goal.
pub open spec fn verb_error(goal: SessionGoal, current_game: u32, application_id: u32, e: ControlError) -> bool {
    match goal {
        SessionGoal::Start => is_session_error(
            e,
            "host is already running application "@ + spec_decimal(current_game as nat)
                + "; cancel it before starting "@ + spec_decimal(application_id as nat),
        ),
        SessionGoal::Launch => is_session_error(
            e,
            "host is already running application "@ + spec_decimal(current_game as nat),
        ),
        SessionGoal::Resume => if current_game == 0 {
            is_session_error(e, "host has no running application to resume"@)
        } else {
            is_session_error(
                e,
                "host is running application "@ + spec_decimal(current_game as nat) + ", not "@
                    + spec_decimal(application_id as nat),
            )
        },
    }
}

fn owned_arguments(arguments: Vec<(&'static str, String)>) -> (res: Vec<(String, String)>)
    ensures
        pairs_view(res@) == arguments_view(arguments@),
{
    let mut res: Vec<(String, String)> = Vec::new();
    let mut i: usize = 0;
    while i < arguments.len()
        invariant
            i <= arguments.len(),
            pairs_view(res@) == arguments_view(arguments@).subrange(0, i as int),
        decreases arguments.len() - i,
    {
        let ghost before = res@;
        let name = arguments[i].0.to_owned();
        let value = arguments[i].1.clone();
        res.push((name, value));
        proof {
            assert(name@ == arguments@[i as int].0@ && value@ == arguments@[i as int].1@);
            assert(pairs_view(res@) =~= pairs_view(before).push((name@, value@)));
            assert(arguments_view(arguments@).subrange(0, i + 1) =~= arguments_view(arguments@).subrange(
                0,
                i as int,
            ).push((name@, value@)));
        }
        i = i + 1;
    }
    assert(arguments_view(arguments@).subrange(0, arguments.len() as int) =~= arguments_view(arguments@));
    res
}

fn verb_for(goal: SessionGoal, current_game: u32, application_id: u32) -> (res: Result<StartVerb, ControlError>)
    ensures
        match spec_verb_for(goal, current_game, application_id) {
            Some(v) => res == Ok::<StartVerb, ControlError>(v),
            None => res is Err && verb_error(goal, current_game, application_id, res->Err_0),
        },
{
    match goal {
        SessionGoal::Start => choose_verb(current_game, application_id),
        SessionGoal::Launch => {
            check_launchable(current_game)?;
            Ok(StartVerb::Launch)
        },
        SessionGoal::Resume => {
            check_resumable(current_game, application_id)?;
            Ok(StartVerb::Resume)
        },
    }
}

fn server_info_request(port: u16) -> (res: HostRequest)
    ensures
        res@ == spec_server_info_request(true, port),
{
    let res = HostRequest {
        https: true,
        port,
        command: "serverinfo".to_owned(),
        arguments: Vec::new(),
        timeout_secs: REQUEST_TIMEOUT_SECS,
    };
    assert(pairs_view(res.arguments@) =~= Seq::empty());
    res
}

/// Whether `e` is the error for fresh host information that does not report
/// the client as paired, or that cannot be read.
pub open spec fn session_info_error(answer: Result<String, ControlError>, e: ControlError) -> bool {
    match answer {
        Err(t) => e == t,
        Ok(xml) => match spec_server_info_of(xml@) {
            None => server_info_error(xml@, e),
            Some(info) => !info.paired && is_pairing_error(
                e,
                "host no longer recognizes this client as paired"@,
            ),
        },
    }
}

/// The fresh host information in an answer, when it reports the client as
/// paired.
pub open spec fn spec_session_info(answer: Result<String, ControlError>) -> Option<ServerInfoView> {
    match answer {
        Err(_) => None,
        Ok(xml) => match spec_server_info_of(xml@) {
            Some(info) => if info.paired {
                Some(info)
            } else {
                None
            },
            None => None,
        },
    }
}

fn session_server_info(answer: Result<String, ControlError>) -> (res: Result<ServerInfo, ControlError>)
    ensures
        match spec_session_info(answer) {
            Some(info) => res is Ok && res->Ok_0@ == info,
            None => res is Err && session_info_error(answer, res->Err_0),
        },
{
    let xml = answer?;
    let server = parse_server_info(xml.as_str())?;
    check_still_paired(&server)?;
    Ok(server)
}

/// What the answer to a launch or resume gives: the success flag must read
/// `1` and `sessionUrl0` must be non-empty.
pub open spec fn spec_session_outcome(
    endpoint: EndpointView,
    server: ServerInfoView,
    application: ApplicationView,
    config: LaunchConfig,
    verb: StartVerb,
    key: Seq<u8>,
    iv: Seq<u8>,
    xml: Seq<char>,
    res: Result<StreamSession, ControlError>,
) -> bool {
    let tag = if verb == StartVerb::Launch { "gamesession"@ } else { "resume"@ };
    match spec_response_value(xml, tag) {
        None => res is Err && response_error(xml, tag, res->Err_0),
        Some(flag) => if flag != "1"@ {
            res is Err && is_session_error(res->Err_0, "host returned an unsuccessful "@ + tag + " response"@)
        } else {
            match spec_response_value(xml, "sessionUrl0"@) {
                None => res is Err && response_error(xml, "sessionUrl0"@, res->Err_0),
                Some(url) => if url.len() == 0 {
                    res is Err && is_session_error(res->Err_0, "host returned an empty sessionUrl0"@)
                } else {
                    res is Ok && res->Ok_0@ == StreamSessionView {
                        endpoint,
                        server: ServerInfoView { current_game: application.id, ..server },
                        application,
                        config,
                        session_url: url,
                        remote_input_aes_key: key,
                        remote_input_aes_iv: iv,
                        resumed: verb == StartVerb::Resume,
                    }
                },
            }
        },
    }
}

/// Whether a session start waits for fresh host information for a goal.
pub open spec fn checks_host(
    flow: SessionFlow,
    endpoint: EndpointView,
    goal: SessionGoal,
    application: ApplicationView,
    config: LaunchConfig,
) -> bool {
    &&& flow@.0 == endpoint
    &&& flow@.1 matches SessionStage::CheckingHost { goal: g, application: a, config: c }
    &&& g == goal && a@ == application && c == config
}

/// Whether a session start waits for the answer to its launch or resume.
pub open spec fn requests(
    flow: SessionFlow,
    server: ServerInfoView,
    application: ApplicationView,
    config: LaunchConfig,
    verb: StartVerb,
    key: Seq<u8>,
    iv: Seq<u8>,
) -> bool {
    flow@.1 matches SessionStage::Requesting { server: s, application: a, config: c, verb: v, key: k, iv: i }
        && s@ == server && a@ == application && c == config && v == verb && k@ == key && i@ == iv
}

/// Whether a session step sends `request`.
pub open spec fn sends_session_request(step: SessionStep, request: HostRequestView) -> bool {
    step matches SessionStep::Send(r) && r@ == request
}

/// Whether a cancellation step sends `request`.
pub open spec fn sends_cancel_request(step: CancelStep, request: HostRequestView) -> bool {
    step matches CancelStep::Send(r) && r@ == request
}

/// What one step of a session start does with the answer to the last
/// request, the remote-input key and the four random bytes of its IV.
pub open spec fn spec_session_step(
    flow: SessionFlow,
    answer: Result<String, ControlError>,
    key: Seq<u8>,
    iv_random: Seq<u8>,
    res: (SessionFlow, SessionStep),
) -> bool {
    &&& res.0@.0 == flow@.0
    &&& (res.1 is Done <==> res.0@.1 is Finished)
    &&& match flow@.1 {
        SessionStage::CheckingHost { goal, application, config } => match spec_session_info(answer) {
            None => res.1 matches SessionStep::Done(Err(e)) && session_info_error(answer, e),
            Some(info) => match spec_verb_for(goal, info.current_game, application.id) {
                None => res.1 matches SessionStep::Done(Err(e)) && verb_error(
                    goal,
                    info.current_game,
                    application.id,
                    e,
                ),
                Some(verb) => requests(
                    res.0,
                    info,
                    application@,
                    config,
                    verb,
                    key,
                    spec_remote_input_iv(iv_random),
                ) && sends_session_request(
                    res.1,
                    spec_session_request(
                        info.https_port,
                        verb,
                        application.id,
                        config,
                        key,
                        spec_remote_input_iv(iv_random),
                    ),
                ),
            },
        },
        SessionStage::Requesting { server, application, config, verb, key: k, iv } => match answer {
            Err(e) => res.1 == SessionStep::Done(Err(e)),
            Ok(xml) => res.1 matches SessionStep::Done(r) && spec_session_outcome(
                flow@.0,
                server@,
                application@,
                config,
                verb,
                k@,
                iv@,
                xml@,
                r,
            ),
        },
        SessionStage::Finished => false,
    }
}

impl SessionFlow {
    /// Starts preparing a session: the stream mode must be non-zero and the
    /// application one the host advertised; then fresh authenticated host
    /// information is fetched.
    pub fn begin(host: &ConnectedHost, application: &Application, config: LaunchConfig, goal: SessionGoal) -> (res:
        Result<(SessionFlow, HostRequest), ControlError>)
        ensures
            !(config.width != 0 && config.height != 0 && config.fps != 0) ==> res is Err
                && is_session_error(res->Err_0, "stream width, height, and FPS must be non-zero"@),
            (config.width != 0 && config.height != 0 && config.fps != 0) && application.id == 0 ==> res is Err
                && is_session_error(res->Err_0, "application ID must be non-zero"@),
            (config.width != 0 && config.height != 0 && config.fps != 0) && application.id != 0
                && !spec_advertises(host@.applications, application.id) ==> res is Err
                && is_session_error(
                res->Err_0,
                "application "@ + spec_decimal(application.id as nat)
                    + " is not in the connected host's application list"@,
            ),
            (config.width != 0 && config.height != 0 && config.fps != 0) && application.id != 0
                && spec_advertises(host@.applications, application.id) ==> res is Ok && checks_host(
                res->Ok_0.0,
                host@.endpoint,
                goal,
                application@,
                config,
            ) && res->Ok_0.1@ == spec_server_info_request(true, host@.server.https_port),
    {
        config.validate()?;
        crate::session::validate_application(host, application)?;
        let request = server_info_request(host.server.https_port);
        let flow = SessionFlow {
            endpoint: host.endpoint.copy(),
            stage: SessionStage::CheckingHost { goal, application: copy_application(application), config },
        };
        Ok((flow, request))
    }

    /// Takes the answer to the last request, with the remote-input key and
    /// the four random bytes of its IV for the launch or resume request.
    pub fn step_with(self, answer: Result<String, ControlError>, key: [u8; 16], iv_random: [u8; 4]) -> (res: (
        SessionFlow,
        SessionStep,
    ))
        requires
            !(self@.1 is Finished),
        ensures
            spec_session_step(self, answer, key@, iv_random@, res),
    {
        let endpoint = self.endpoint;
        match self.stage {
            SessionStage::CheckingHost { goal, application, config } => {
                let server = match session_server_info(answer) {
                    Ok(server) => server,
                    Err(e) => return (SessionFlow { endpoint, stage: SessionStage::Finished }, SessionStep::Done(Err(e))),
                };
                let verb = match verb_for(goal, server.current_game, application.id) {
                    Ok(verb) => verb,
                    Err(e) => return (SessionFlow { endpoint, stage: SessionStage::Finished }, SessionStep::Done(Err(e))),
                };
                let iv = remote_input_iv(iv_random);
                let key_identifier = key_id(&iv);
                let arguments = owned_arguments(session_arguments(application.id, config, &key, key_identifier));
                let request = HostRequest {
                    https: true,
                    port: server.https_port,
                    command: verb.command().to_owned(),
                    arguments,
                    timeout_secs: verb.timeout(),
                };
                (
                    SessionFlow {
                        endpoint,
                        stage: SessionStage::Requesting { server, application, config, verb, key, iv },
                    },
                    SessionStep::Send(request),
                )
            },
            SessionStage::Requesting { server, application, config, verb, key, iv } => {
                let xml = match answer {
                    Err(e) => return (SessionFlow { endpoint, stage: SessionStage::Finished }, SessionStep::Done(Err(e))),
                    Ok(xml) => xml,
                };
                let outcome = complete_session(
                    &endpoint,
                    server,
                    &application,
                    config,
                    verb,
                    key,
                    iv,
                    xml.as_str(),
                );
                (SessionFlow { endpoint, stage: SessionStage::Finished }, SessionStep::Done(outcome))
            },
            SessionStage::Finished => (
                SessionFlow { endpoint, stage: SessionStage::Finished },
                SessionStep::Done(Err(ControlError::Session("session start already finished".to_owned()))),
            ),
        }
    }

    /// Takes the answer to the last request; the remote-input key and IV are
    /// drawn at random.
    pub fn step(self, answer: Result<String, ControlError>) -> (res: (SessionFlow, SessionStep))
        requires
            !(self@.1 is Finished),
        ensures
            exists|key: Seq<u8>, iv_random: Seq<u8>|
                key.len() == 16 && iv_random.len() == 4 && spec_session_step(self, answer, key, iv_random, res),
    {
        let key = random_bytes::<16>();
        let iv_random = random_bytes::<4>();
        let res = self.step_with(answer, key, iv_random);
        assert(key@.len() == 16 && iv_random@.len() == 4);
        res
    }
}

/// What stopping the host application waits for.
pub enum CancelStage {
    /// Fresh authenticated host information.
    CheckingHost,
    /// The answer to the cancel request.
    Cancelling { https_port: u16 },
    /// Host information confirming that nothing runs any more.
    Confirming,
    /// Nothing: the cancellation is over.
    Finished,
}

/// A cancellation of the host's running application in progress.
pub struct CancelFlow {
    https_port: u16,
    stage: CancelStage,
}

impl View for CancelFlow {
    type V = (u16, CancelStage);

    closed spec fn view(&self) -> (u16, CancelStage) {
        (self.https_port, self.stage)
    }
}

/// What to do next in a cancellation.
pub enum CancelStep {
    /// Send the request and hand its answer to the next step.
    Send(HostRequest),
    /// The cancellation is over: the fresh host information, or the error.
    Done(Result<ServerInfo, ControlError>),
}

/// The cancel request.
pub open spec fn spec_cancel_request(port: u16) -> HostRequestView {
    HostRequestView {
        https: true,
        port,
        command: "cancel"@,
        arguments: Seq::empty(),
        timeout_secs: CANCEL_TIMEOUT_SECS,
    }
}

impl CancelFlow {
    /// Starts stopping the host's application: fresh authenticated host
    /// information comes first.
    pub fn begin(host: &ConnectedHost) -> (res: (CancelFlow, HostRequest))
        ensures
            res.0@ == (host@.server.https_port, CancelStage::CheckingHost),
            res.1@ == spec_server_info_request(true, host@.server.https_port),
    {
        let request = server_info_request(host.server.https_port);
        (CancelFlow { https_port: host.server.https_port, stage: CancelStage::CheckingHost }, request)
    }

    /// Takes the answer to the last request.
    pub fn step(self, answer: Result<String, ControlError>) -> (res: (CancelFlow, CancelStep))
        requires
            !(self@.1 is Finished),
        ensures
            res.0@.0 == self@.0,
            res.1 is Done <==> res.0@.1 is Finished,
            match self@.1 {
                CancelStage::CheckingHost => match spec_session_info(answer) {
                    None => res.1 matches CancelStep::Done(Err(e)) && session_info_error(answer, e),
                    Some(info) => res.0@.1 == (CancelStage::Cancelling { https_port: info.https_port })
                        && sends_cancel_request(res.1, spec_cancel_request(info.https_port)),
                },
                CancelStage::Cancelling { https_port } => match answer {
                    Err(e) => res.1 == CancelStep::Done(Err(e)),
                    Ok(xml) => match spec_response_value(xml@, "cancel"@) {
                        None => res.1 matches CancelStep::Done(Err(e)) && response_error(xml@, "cancel"@, e),
                        Some(flag) => if flag != "1"@ {
                            res.1 matches CancelStep::Done(Err(e)) && is_session_error(
                                e,
                                "host returned an unsuccessful "@ + "cancel"@ + " response"@,
                            )
                        } else {
                            res.0@.1 == CancelStage::Confirming && sends_cancel_request(
                                res.1,
                                spec_server_info_request(true, self@.0),
                            )
                        },
                    },
                },
                CancelStage::Confirming => match spec_session_info(answer) {
                    None => res.1 matches CancelStep::Done(Err(e)) && session_info_error(answer, e),
                    Some(info) => if info.current_game != 0 {
                        res.1 matches CancelStep::Done(Err(e)) && is_session_error(
                            e,
                            "host still reports application "@ + spec_decimal(info.current_game as nat)
                                + " after cancellation"@,
                        )
                    } else {
                        res.1 matches CancelStep::Done(Ok(server)) && server@ == info
                    },
                },
                CancelStage::Finished => false,
            },
    {
        let https_port = self.https_port;
        match self.stage {
            CancelStage::CheckingHost => match session_server_info(answer) {
                Err(e) => (CancelFlow { https_port, stage: CancelStage::Finished }, CancelStep::Done(Err(e))),
                Ok(server) => {
                    let request = HostRequest {
                        https: true,
                        port: server.https_port,
                        command: "cancel".to_owned(),
                        arguments: Vec::new(),
                        timeout_secs: CANCEL_TIMEOUT_SECS,
                    };
                    assert(pairs_view(request.arguments@) =~= Seq::empty());
                    (
                        CancelFlow {
                            https_port,
                            stage: CancelStage::Cancelling { https_port: server.https_port },
                        },
                        CancelStep::Send(request),
                    )
                },
            },
            CancelStage::Cancelling { https_port: _ } => {
                let xml = match answer {
                    Err(e) => return (CancelFlow { https_port, stage: CancelStage::Finished }, CancelStep::Done(Err(e))),
                    Ok(xml) => xml,
                };
                if let Err(e) = require_success_flag(xml.as_str(), "cancel") {
                    return (CancelFlow { https_port, stage: CancelStage::Finished }, CancelStep::Done(Err(e)));
                }
                let request = server_info_request(https_port);
                (CancelFlow { https_port, stage: CancelStage::Confirming }, CancelStep::Send(request))
            },
            CancelStage::Confirming => {
                let server = match session_server_info(answer) {
                    Err(e) => return (CancelFlow { https_port, stage: CancelStage::Finished }, CancelStep::Done(Err(e))),
                    Ok(server) => server,
                };
                if let Err(e) = check_cancelled(&server) {
                    return (CancelFlow { https_port, stage: CancelStage::Finished }, CancelStep::Done(Err(e)));
                }
                (CancelFlow { https_port, stage: CancelStage::Finished }, CancelStep::Done(Ok(server)))
            },
            CancelStage::Finished => (
                CancelFlow { https_port, stage: CancelStage::Finished },
                CancelStep::Done(Err(ControlError::Session("cancellation already finished".to_owned()))),
            ),
        }
    }
}

} // verus!

//! GameStream application launch, resume, and cancellation decisions.
use vstd::prelude::*;

use crate::client::ConnectedHost;
use crate::control::{
    applications_view, is_pairing_error, is_session_error, Application, ApplicationView,
    ControlError, ServerInfo, ServerInfoView,
};
use crate::endpoint::{Endpoint, EndpointView};
use crate::text::{concat, decimal, signed_decimal, spec_decimal, spec_signed_decimal, str_equal};
use crate::xml::{hex_encode, response_text, response_error, spec_hex_encode, spec_response_value};

verus! {

/// Seconds allowed for a launch request.
pub const LAUNCH_TIMEOUT_SECS: u64 = 120;

/// Seconds allowed for a resume request.
pub const RESUME_TIMEOUT_SECS: u64 = 30;

/// Seconds allowed for a cancel request.
pub const CANCEL_TIMEOUT_SECS: u64 = 30;

/// Stereo surround-audio information sent with a launch.
pub const STEREO_SURROUND_AUDIO_INFO: u32 = 196610;

/// Version of the streaming core announced with a launch.
pub const MOONLIGHT_CORE_VERSION: u32 = 1;

/// Video, audio, and controller preferences sent while preparing a stream.
#[derive(Clone, Copy, Debug, PartialEq, Eq)]
pub struct LaunchConfig {
    /// Requested video width in pixels.
    pub width: u32,
    /// Requested video height in pixels.
    pub height: u32,
    /// Requested video frame rate.
    pub fps: u32,
    /// Allow Sunshine to adjust the host display for the requested mode.
    pub optimize_game_settings: bool,
    /// Continue playing audio on the Sunshine host.
    pub play_audio_on_host: bool,
    /// Bitmap of controllers currently attached to the client.
    pub gamepad_mask: u32,
    /// Keep virtual controllers attached after the stream disconnects.
    pub persist_gamepads: bool,
}

/// The default stream preferences: 1920x1080 at 60 FPS, host display
/// optimization on, audio on the client, no controllers.
pub open spec fn spec_default_launch_config() -> LaunchConfig {
    LaunchConfig {
        width: 1920,
        height: 1080,
        fps: 60,
        optimize_game_settings: true,
        play_audio_on_host: false,
        gamepad_mask: 0,
        persist_gamepads: false,
    }
}

impl Default for LaunchConfig {
    fn default() -> (res: Self)
        ensures
            res == spec_default_launch_config(),
    {
        LaunchConfig {
            width: 1920,
            height: 1080,
            fps: 60,
            optimize_game_settings: true,
            play_audio_on_host: false,
            gamepad_mask: 0,
            persist_gamepads: false,
        }
    }
}

impl LaunchConfig {
    /// Width, height and frame rate must all be non-zero.
    pub fn validate(self) -> (res: Result<(), ControlError>)
        ensures
            (self.width != 0 && self.height != 0 && self.fps != 0) ==> res is Ok,
            !(self.width != 0 && self.height != 0 && self.fps != 0) ==> res is Err && is_session_error(
                res->Err_0,
                "stream width, height, and FPS must be non-zero"@,
            ),
    {
        if self.width == 0 || self.height == 0 || self.fps == 0 {
            return Err(
                ControlError::Session("stream width, height, and FPS must be non-zero".to_owned()),
            );
        }
        Ok(())
    }
}

/// Prepared GameStream session ready to pass to the streaming core.
#[derive(Clone, Debug, PartialEq, Eq)]
pub struct StreamSession {
    /// Endpoint used for the control connection.
    pub endpoint: Endpoint,
    /// Fresh host state used to prepare this session.
    pub server: ServerInfo,
    /// Application that was launched or resumed.
    pub application: Application,
    /// Stream preferences sent to the host.
    pub config: LaunchConfig,
    /// RTSP URL returned by Sunshine.
    pub session_url: String,
    /// Remote-input AES key shared with Sunshine.
    pub remote_input_aes_key: [u8; 16],
    /// Remote-input AES IV expected by the streaming core.
    pub remote_input_aes_iv: [u8; 16],
    /// Whether the request resumed an already-running application.
    pub resumed: bool,
}

/// Whether a session request launches a new application or resumes the
/// running one.
#[derive(Clone, Copy, Debug, PartialEq, Eq, Structural)]
pub enum StartVerb {
    Launch,
    Resume,
}

impl StartVerb {
    /// The request's command path.
    pub fn command(self) -> (res: &'static str)
        ensures
            self == StartVerb::Launch ==> res@ == "launch"@,
            self == StartVerb::Resume ==> res@ == "resume"@,
    {
        match self {
            StartVerb::Launch => "launch",
            StartVerb::Resume => "resume",
        }
    }

    /// The response element that reports success.
    pub fn success_tag(self) -> (res: &'static str)
        ensures
            self == StartVerb::Launch ==> res@ == "gamesession"@,
            self == StartVerb::Resume ==> res@ == "resume"@,
    {
        match self {
            StartVerb::Launch => "gamesession",
            StartVerb::Resume => "resume",
        }
    }

    /// Seconds allowed for the request.
    pub fn timeout(self) -> (res: u64)
        ensures
            self == StartVerb::Launch ==> res == LAUNCH_TIMEOUT_SECS,
            self == StartVerb::Resume ==> res == RESUME_TIMEOUT_SECS,
    {
        match self {
            StartVerb::Launch => LAUNCH_TIMEOUT_SECS,
            StartVerb::Resume => RESUME_TIMEOUT_SECS,
        }
    }
}

/// Whether `apps` advertises an application with identifier `id`.
pub open spec fn spec_advertises(apps: Seq<ApplicationView>, id: u32) -> bool {
    exists|i: int| 0 <= i < apps.len() && apps[i].id == id
}

/// The selected application must have a non-zero identifier that the host
/// advertised.
pub fn validate_application(host: &ConnectedHost, application: &Application) -> (res: Result<
    (),
    ControlError,
>)
    ensures
        application.id == 0 ==> res is Err && is_session_error(
            res->Err_0,
            "application ID must be non-zero"@,
        ),
        application.id != 0 && !spec_advertises(host@.applications, application.id) ==> res is Err
            && is_session_error(
            res->Err_0,
            "application "@ + spec_decimal(application.id as nat)
                + " is not in the connected host's application list"@,
        ),
        application.id != 0 && spec_advertises(host@.applications, application.id) ==> res is Ok,
{
    if application.id == 0 {
        return Err(ControlError::Session("application ID must be non-zero".to_owned()));
    }
    let mut i: usize = 0;
    while i < host.applications.len()
        invariant
            i <= host.applications.len(),
            application.id != 0,
            forall|k: int| 0 <= k < i ==> host.applications@[k].id != application.id,
        decreases host.applications.len() - i,
    {
        if host.applications[i].id == application.id {
            assert(applications_view(host.applications@)[i as int].id == application.id);
            return Ok(());
        }
        i = i + 1;
    }
    proof {
        if spec_advertises(host@.applications, application.id) {
            let k = choose|k: int|
                0 <= k < host@.applications.len() && host@.applications[k].id == application.id;
            assert(host.applications@[k].id == application.id);
        }
    }
    let mut message = concat("application ", decimal(application.id as u64).as_str());
    message.append(" is not in the connected host's application list");
    Err(ControlError::Session(message))
}

/// What `start_session` does with the host's running application: launch
/// when idle, resume when the selected application runs, else refuse.
pub fn choose_verb(current_game: u32, application_id: u32) -> (res: Result<StartVerb, ControlError>)
    ensures
        current_game == 0 ==> res == Ok::<StartVerb, ControlError>(StartVerb::Launch),
        current_game != 0 && current_game == application_id ==> res == Ok::<StartVerb, ControlError>(
            StartVerb::Resume,
        ),
        current_game != 0 && current_game != application_id ==> res is Err && is_session_error(
            res->Err_0,
            "host is already running application "@ + spec_decimal(current_game as nat)
                + "; cancel it before starting "@ + spec_decimal(application_id as nat),
        ),
{
    if current_game == 0 {
        Ok(StartVerb::Launch)
    } else if current_game == application_id {
        Ok(StartVerb::Resume)
    } else {
        let mut message = concat("host is already running application ", decimal(current_game as u64).as_str());
        message.append("; cancel it before starting ");
        message.append(decimal(application_id as u64).as_str());
        Err(ControlError::Session(message))
    }
}

/// A launch needs an idle host.
pub fn check_launchable(current_game: u32) -> (res: Result<(), ControlError>)
    ensures
        current_game == 0 ==> res is Ok,
        current_game != 0 ==> res is Err && is_session_error(
            res->Err_0,
            "host is already running application "@ + spec_decimal(current_game as nat),
        ),
{
    if current_game != 0 {
        return Err(
            ControlError::Session(
                concat("host is already running application ", decimal(current_game as u64).as_str()),
            ),
        );
    }
    Ok(())
}

/// A resume needs the selected application to be running.
pub fn check_resumable(current_game: u32, application_id: u32) -> (res: Result<(), ControlError>)
    ensures
        current_game == 0 ==> res is Err && is_session_error(
            res->Err_0,
            "host has no running application to resume"@,
        ),
        current_game != 0 && current_game != application_id ==> res is Err && is_session_error(
            res->Err_0,
            "host is running application "@ + spec_decimal(current_game as nat) + ", not "@
                + spec_decimal(application_id as nat),
        ),
        current_game != 0 && current_game == application_id ==> res is Ok,
{
    if current_game == 0 {
        return Err(ControlError::Session("host has no running application to resume".to_owned()));
    }
    if current_game != application_id {
        let mut message = concat("host is running application ", decimal(current_game as u64).as_str());
        message.append(", not ");
        message.append(decimal(application_id as u64).as_str());
        return Err(ControlError::Session(message));
    }
    Ok(())
}

/// Fresh host information used for a session must still report pairing.
pub fn check_still_paired(server: &ServerInfo) -> (res: Result<(), ControlError>)
    ensures
        server.paired ==> res is Ok,
        !server.paired ==> res is Err && is_pairing_error(
            res->Err_0,
            "host no longer recognizes this client as paired"@,
        ),
{
    if !server.paired {
        return Err(
            ControlError::Pairing("host no longer recognizes this client as paired".to_owned()),
        );
    }
    Ok(())
}

/// After a cancellation the host must report no running application.
pub fn check_cancelled(server: &ServerInfo) -> (res: Result<(), ControlError>)
    ensures
        server.current_game == 0 ==> res is Ok,
        server.current_game != 0 ==> res is Err && is_session_error(
            res->Err_0,
            "host still reports application "@ + spec_decimal(server.current_game as nat)
                + " after cancellation"@,
        ),
{
    if server.current_game != 0 {
        let mut message = concat(
            "host still reports application ",
            decimal(server.current_game as u64).as_str(),
        );
        message.append(" after cancellation");
        return Err(ControlError::Session(message));
    }
    Ok(())
}

/// `0` or `1` for a flag.
pub open spec fn spec_flag(b: bool) -> Seq<char> {
    if b { "1"@ } else { "0"@ }
}

fn flag(b: bool) -> (res: String)
    ensures
        res@ == spec_flag(b),
{
    if b { "1".to_owned() } else { "0".to_owned() }
}

/// The views of request arguments.
pub open spec fn arguments_view(args: Seq<(&'static str, String)>) -> Seq<(Seq<char>, Seq<char>)> {
    args.map_values(|a: (&'static str, String)| (a.0@, a.1@))
}

/// The query arguments of a launch or resume request, in order.
pub open spec fn spec_session_arguments(
    application_id: u32,
    config: LaunchConfig,
    remote_input_key: Seq<u8>,
    remote_input_key_id: i32,
) -> Seq<(Seq<char>, Seq<char>)> {
    seq![
        ("appid"@, spec_decimal(application_id as nat)),
        (
            "mode"@,
            spec_decimal(config.width as nat) + "x"@ + spec_decimal(config.height as nat) + "x"@
                + spec_decimal(config.fps as nat),
        ),
        ("additionalStates"@, "1"@),
        ("sops"@, spec_flag(config.optimize_game_settings)),
        ("rikey"@, spec_hex_encode(remote_input_key)),
        ("rikeyid"@, spec_signed_decimal(remote_input_key_id as int)),
        ("localAudioPlayMode"@, spec_flag(config.play_audio_on_host)),
        ("surroundAudioInfo"@, spec_decimal(STEREO_SURROUND_AUDIO_INFO as nat)),
        ("remoteControllersBitmap"@, spec_decimal(config.gamepad_mask as nat)),
        ("gcmap"@, spec_decimal(config.gamepad_mask as nat)),
        ("gcpersist"@, spec_flag(config.persist_gamepads)),
        ("corever"@, spec_decimal(MOONLIGHT_CORE_VERSION as nat)),
    ]
}

/// The value of the first argument named `name`, if any.
pub open spec fn spec_argument(args: Seq<(Seq<char>, Seq<char>)>, name: Seq<char>) -> Option<Seq<char>>
    decreases args.len(),
{
    if args.len() == 0 {
        None
    } else if args[0].0 == name {
        Some(args[0].1)
    } else {
        spec_argument(args.drop_first(), name)
    }
}

proof fn lemma_argument_at(args: Seq<(Seq<char>, Seq<char>)>, name: Seq<char>, k: int)
    requires
        0 <= k < args.len(),
        args[k].0 == name,
        forall|j: int| 0 <= j < k ==> args[j].0 != name,
    ensures
        spec_argument(args, name) == Some(args[k].1),
    decreases k,
{
    if k > 0 {
        assert(args[0].0 != name);
        let rest = args.drop_first();
        assert forall|j: int| 0 <= j < k - 1 implies rest[j].0 != name by {
            assert(rest[j] == args[j + 1]);
        }
        lemma_argument_at(rest, name, k - 1);
    }
}

/// A law of launch requests: the host plays the audio (`localAudioPlayMode`
/// is `1`) exactly when the configuration asks for audio on the host, and
/// likewise the host display is optimized (`sops`) and the controllers
/// persist (`gcpersist`) exactly when the configuration says so; each of
/// these arguments is `0` or `1`.
pub proof fn law_session_flags_follow_config(
    application_id: u32,
    config: LaunchConfig,
    remote_input_key: Seq<u8>,
    remote_input_key_id: i32,
)
    ensures
        ({
            let args = spec_session_arguments(application_id, config, remote_input_key, remote_input_key_id);
            &&& (spec_argument(args, "localAudioPlayMode"@) == Some("1"@)) == config.play_audio_on_host
            &&& (spec_argument(args, "sops"@) == Some("1"@)) == config.optimize_game_settings
            &&& (spec_argument(args, "gcpersist"@) == Some("1"@)) == config.persist_gamepads
            &&& spec_argument(args, "localAudioPlayMode"@) == Some("1"@) || spec_argument(
                args,
                "localAudioPlayMode"@,
            ) == Some("0"@)
            &&& spec_argument(args, "sops"@) == Some("1"@) || spec_argument(args, "sops"@) == Some("0"@)
            &&& spec_argument(args, "gcpersist"@) == Some("1"@) || spec_argument(args, "gcpersist"@) == Some(
                "0"@,
            )
        }),
{
    let args = spec_session_arguments(application_id, config, remote_input_key, remote_input_key_id);
    reveal_strlit("appid");
    reveal_strlit("mode");
    reveal_strlit("additionalStates");
    reveal_strlit("sops");
    reveal_strlit("rikey");
    reveal_strlit("rikeyid");
    reveal_strlit("localAudioPlayMode");
    reveal_strlit("surroundAudioInfo");
    reveal_strlit("remoteControllersBitmap");
    reveal_strlit("gcmap");
    reveal_strlit("gcpersist");
    reveal_strlit("1");
    reveal_strlit("0");
    assert("1"@[0] != "0"@[0]);
    assert(args[1].0[0] != "sops"@[0]);
    lemma_argument_at(args, "sops"@, 3);
    assert forall|j: int| 0 <= j < 6 implies args[j].0 != "localAudioPlayMode"@ by {
        if j == 0 {
        } else if j == 1 {
        } else if j == 2 {
        } else if j == 3 {
        } else if j == 4 {
        } else if j == 5 {
        }
        assert(args[j].0.len() != "localAudioPlayMode"@.len());
    }
    lemma_argument_at(args, "localAudioPlayMode"@, 6);
    assert forall|j: int| 0 <= j < 10 implies args[j].0 != "gcpersist"@ by {
        if j == 0 {
        } else if j == 1 {
        } else if j == 2 {
        } else if j == 3 {
        } else if j == 4 {
        } else if j == 5 {
        } else if j == 6 {
        } else if j == 7 {
        } else if j == 8 {
        } else if j == 9 {
        }
        assert(args[j].0.len() != "gcpersist"@.len());
    }
    lemma_argument_at(args, "gcpersist"@, 10);
}

/// The query arguments of a launch or resume request.
pub fn session_arguments(
    application_id: u32,
    config: LaunchConfig,
    remote_input_key: &[u8; 16],
    remote_input_key_id: i32,
) -> (res: Vec<(&'static str, String)>)
    ensures
        arguments_view(res@) == spec_session_arguments(
            application_id,
            config,
            remote_input_key@,
            remote_input_key_id,
        ),
{
    let mut mode = decimal(config.width as u64);
    mode.append("x");
    mode.append(decimal(config.height as u64).as_str());
    mode.append("x");
    mode.append(decimal(config.fps as u64).as_str());
    let res = vec![
        ("appid", decimal(application_id as u64)),
        ("mode", mode),
        ("additionalStates", "1".to_owned()),
        ("sops", flag(config.optimize_game_settings)),
        ("rikey", hex_encode(remote_input_key.as_slice())),
        ("rikeyid", signed_decimal(remote_input_key_id as i64)),
        ("localAudioPlayMode", flag(config.play_audio_on_host)),
        ("surroundAudioInfo", decimal(STEREO_SURROUND_AUDIO_INFO as u64)),
        ("remoteControllersBitmap", decimal(config.gamepad_mask as u64)),
        ("gcmap", decimal(config.gamepad_mask as u64)),
        ("gcpersist", flag(config.persist_gamepads)),
        ("corever", decimal(MOONLIGHT_CORE_VERSION as u64)),
    ];
    assert(arguments_view(res@) =~= spec_session_arguments(
        application_id,
        config,
        remote_input_key@,
        remote_input_key_id,
    ));
    res
}

/// Element `tag` of an accepted response must read `1`.
pub fn require_success_flag(xml: &str, tag: &str) -> (res: Result<(), ControlError>)
    ensures
        match spec_response_value(xml@, tag@) {
            Some(t) => if t == "1"@ {
                res is Ok
            } else {
                res is Err && is_session_error(
                    res->Err_0,
                    "host returned an unsuccessful "@ + tag@ + " response"@,
                )
            },
            None => res is Err && response_error(xml@, tag@, res->Err_0),
        },
{
    let text = response_text(xml, tag)?;
    if str_equal(text.as_str(), "1") {
        Ok(())
    } else {
        Err(ControlError::Session(crate::text::concat3("host returned an unsuccessful ", tag, " response")))
    }
}

/// The remote-input IV for four random bytes: the bytes, then twelve zeros.
pub open spec fn spec_remote_input_iv(random: Seq<u8>) -> Seq<u8> {
    random + Seq::new(12, |i: int| 0u8)
}

/// The remote-input key identifier: the IV's first four bytes, big-endian,
/// as a signed number.
pub open spec fn spec_key_id(iv: Seq<u8>) -> i32 {
    (iv[0] as int * 0x1000000 + iv[1] as int * 0x10000 + iv[2] as int * 0x100 + iv[3] as int) as i32
}

/// The remote-input IV for four random bytes.
pub fn remote_input_iv(random: [u8; 4]) -> (res: [u8; 16])
    ensures
        res@ == spec_remote_input_iv(random@),
{
    let res: [u8; 16] = [random[0], random[1], random[2], random[3], 0, 0, 0, 0, 0, 0, 0, 0, 0, 0, 0, 0];
    assert(res@ =~= spec_remote_input_iv(random@));
    res
}

/// The remote-input key identifier of an IV (`i32::from_be_bytes` of its
/// first four bytes).
pub fn key_id(iv: &[u8; 16]) -> (res: i32)
    ensures
        res == spec_key_id(iv@),
{
    let value: u32 = (iv[0] as u32) * 0x1000000 + (iv[1] as u32) * 0x10000 + (iv[2] as u32) * 0x100
        + iv[3] as u32;
    value as i32
}

/// Mathematical value of a [`StreamSession`].
pub struct StreamSessionView {
    pub endpoint: EndpointView,
    pub server: ServerInfoView,
    pub application: ApplicationView,
    pub config: LaunchConfig,
    pub session_url: Seq<char>,
    pub remote_input_aes_key: Seq<u8>,
    pub remote_input_aes_iv: Seq<u8>,
    pub resumed: bool,
}

impl View for StreamSession {
    type V = StreamSessionView;

    open spec fn view(&self) -> StreamSessionView {
        StreamSessionView {
            endpoint: self.endpoint@,
            server: self.server@,
            application: self.application@,
            config: self.config,
            session_url: self.session_url@,
            remote_input_aes_key: self.remote_input_aes_key@,
            remote_input_aes_iv: self.remote_input_aes_iv@,
            resumed: self.resumed,
        }
    }
}

/// A copy of an application.
pub fn copy_application(a: &Application) -> (res: Application)
    ensures
        res@ == a@,
{
    Application { id: a.id, title: a.title.clone() }
}

/// Completes a launch or resume from the host's response: the success flag
/// must read `1` and `sessionUrl0` must be non-empty; the session records the
/// server state with the application as the running one.
pub fn complete_session(
    endpoint: &Endpoint,
    server: ServerInfo,
    application: &Application,
    config: LaunchConfig,
    verb: StartVerb,
    remote_input_aes_key: [u8; 16],
    remote_input_aes_iv: [u8; 16],
    xml: &str,
) -> (res: Result<StreamSession, ControlError>)
    ensures
        ({
            let tag = if verb == StartVerb::Launch { "gamesession"@ } else { "resume"@ };
            match spec_response_value(xml@, tag) {
                None => res is Err && response_error(xml@, tag, res->Err_0),
                Some(flag) => if flag != "1"@ {
                    res is Err && is_session_error(
                        res->Err_0,
                        "host returned an unsuccessful "@ + tag + " response"@,
                    )
                } else {
                    match spec_response_value(xml@, "sessionUrl0"@) {
                        None => res is Err && response_error(xml@, "sessionUrl0"@, res->Err_0),
                        Some(url) => if url.len() == 0 {
                            res is Err && is_session_error(res->Err_0, "host returned an empty sessionUrl0"@)
                        } else {
                            res is Ok && res->Ok_0@ == StreamSessionView {
                                endpoint: endpoint@,
                                server: ServerInfoView { current_game: application.id, ..server@ },
                                application: application@,
                                config,
                                session_url: url,
                                remote_input_aes_key: remote_input_aes_key@,
                                remote_input_aes_iv: remote_input_aes_iv@,
                                resumed: verb == StartVerb::Resume,
                            }
                        },
                    }
                },
            }
        }),
{
    require_success_flag(xml, verb.success_tag())?;
    let session_url = response_text(xml, "sessionUrl0")?;
    if session_url.as_str().is_empty() {
        return Err(ControlError::Session("host returned an empty sessionUrl0".to_owned()));
    }
    let mut server = server;
    server.current_game = application.id;
    Ok(StreamSession {
        endpoint: endpoint.copy(),
        server,
        application: copy_application(application),
        config,
        session_url,
        remote_input_aes_key,
        remote_input_aes_iv,
        resumed: verb == StartVerb::Resume,
    })
}

} // verus!

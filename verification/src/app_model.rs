//! The application's state apart from drawing: which page is shown, what
//! the status line says, what the window should be, and how each user
//! action and each outcome of the background work changes them.
use vstd::prelude::*;

use crate::client::ConnectedHost;
use crate::control::{
    applications_view, spec_error_text, Application, ApplicationView, ConnectProgress,
    ControlError, ServerInfo, SessionPhase,
};
use crate::session::{copy_application, StreamSession};
use crate::text::{concat, concat3, decimal, spec_decimal, spec_trim, trim};

verus! {

pub const COMPUTERS_PAGE: usize = 0;
pub const GAMES_PAGE: usize = 1;
pub const SETTINGS_PAGE: usize = 2;
pub const ADD_PC_PAGE: usize = 3;
pub const STREAM_PAGE: usize = 4;
pub const LICENSES_PAGE: usize = 5;
pub const LICENSE_DETAIL_PAGE: usize = 6;

/// The window title when no application is known to run.
pub const DEFAULT_WINDOW_TITLE: &'static str = "Moonlight";

/// The window title: the running application's title before the client's
/// name, or the client's name alone.
pub open spec fn spec_window_title(game_title: Option<Seq<char>>) -> Seq<char> {
    match game_title {
        Some(t) => t + " - "@ + "Moonlight"@,
        None => "Moonlight"@,
    }
}

/// The window title for the running application, if any.
pub fn format_window_title(game_title: Option<&str>) -> (res: String)
    ensures
        res@ == spec_window_title(
            match game_title {
                Some(t) => Some(t@),
                None => None,
            },
        ),
{
    match game_title {
        Some(title) => concat3(title, " - ", DEFAULT_WINDOW_TITLE),
        None => DEFAULT_WINDOW_TITLE.to_owned(),
    }
}

/// One line of the application list: identifier and title.
pub open spec fn spec_application_line(a: ApplicationView) -> Seq<char> {
    spec_decimal(a.id as nat) + "  ·  "@ + a.title
}

/// The lines of the application list, joined by newlines.
pub open spec fn spec_joined_lines(apps: Seq<ApplicationView>) -> Seq<char>
    decreases apps.len(),
{
    if apps.len() <= 1 {
        if apps.len() == 0 {
            Seq::empty()
        } else {
            spec_application_line(apps[0])
        }
    } else {
        spec_joined_lines(apps.drop_last()) + "\n"@ + spec_application_line(apps.last())
    }
}

/// The application list as text, or a notice when the host advertises
/// none.
pub open spec fn spec_applications_text(apps: Seq<ApplicationView>) -> Seq<char> {
    if apps.len() == 0 {
        "No applications advertised by Sunshine"@
    } else {
        spec_joined_lines(apps)
    }
}

/// The title of the first application with identifier `id`.
pub open spec fn spec_title_of(apps: Seq<ApplicationView>, id: u32) -> Option<Seq<char>>
    decreases apps.len(),
{
    if apps.len() == 0 {
        None
    } else if apps[0].id == id {
        Some(apps[0].title)
    } else {
        spec_title_of(apps.drop_first(), id)
    }
}

fn applications_text(apps: &Vec<Application>) -> (res: String)
    ensures
        res@ == spec_applications_text(applications_view(apps@)),
{
    if apps.len() == 0 {
        return "No applications advertised by Sunshine".to_owned();
    }
    let ghost all = applications_view(apps@);
    let mut text = String::new();
    let mut i: usize = 0;
    while i < apps.len()
        invariant
            0 < apps.len(),
            i <= apps.len(),
            all == applications_view(apps@),
            text@ == spec_joined_lines(all.subrange(0, i as int)),
        decreases apps.len() - i,
    {
        let number = decimal(apps[i].id as u64);
        let line = concat3(number.as_str(), "  ·  ", apps[i].title.as_str());
        proof {
            let prefix = all.subrange(0, i + 1);
            assert(prefix.drop_last() =~= all.subrange(0, i as int));
            assert(prefix.last() == all[i as int]);
            assert(all[i as int] == apps@[i as int]@);
        }
        if i == 0 {
            text = line;
            assert(all.subrange(0, 1) =~= seq![all[0]]);
        } else {
            let joined = concat3(text.as_str(), "\n", line.as_str());
            text = joined;
        }
        i = i + 1;
    }
    assert(all.subrange(0, apps.len() as int) =~= all);
    text
}

fn title_of(apps: &Vec<Application>, id: u32) -> (res: Option<String>)
    ensures
        crate::control::opt_view(res) == spec_title_of(applications_view(apps@), id),
{
    let ghost all = applications_view(apps@);
    let mut i: usize = 0;
    assert(all.subrange(0, all.len() as int) =~= all);
    while i < apps.len()
        invariant
            i <= apps.len(),
            all == applications_view(apps@),
            spec_title_of(all, id) == spec_title_of(all.subrange(i as int, all.len() as int), id),
        decreases apps.len() - i,
    {
        let ghost rest = all.subrange(i as int, all.len() as int);
        assert(rest[0] == apps@[i as int]@);
        if apps[i].id == id {
            return Some(apps[i].title.clone());
        }
        assert(rest.drop_first() =~= all.subrange(i + 1, all.len() as int));
        i = i + 1;
    }
    None
}

fn copy_applications(apps: &Vec<Application>) -> (res: Vec<Application>)
    ensures
        applications_view(res@) == applications_view(apps@),
{
    let mut res: Vec<Application> = Vec::new();
    let mut i: usize = 0;
    while i < apps.len()
        invariant
            i <= apps.len(),
            applications_view(res@) == applications_view(apps@).subrange(0, i as int),
        decreases apps.len() - i,
    {
        let ghost before = res@;
        let copy = copy_application(&apps[i]);
        res.push(copy);
        proof {
            assert(applications_view(res@) =~= applications_view(before).push(apps@[i as int]@));
            assert(applications_view(apps@).subrange(0, i + 1) =~= applications_view(apps@).subrange(
                0,
                i as int,
            ).push(apps@[i as int]@));
        }
        i = i + 1;
    }
    assert(applications_view(apps@).subrange(0, apps.len() as int) =~= applications_view(apps@));
    res
}

/// Whether a phase is one in which a connection is under way.
pub open spec fn spec_connecting(phase: SessionPhase) -> bool {
    phase is Connecting || phase is Pairing
}

fn is_connecting(phase: &SessionPhase) -> (res: bool)
    ensures
        res == spec_connecting(*phase),
{
    match phase {
        SessionPhase::Connecting | SessionPhase::Pairing => true,
        _ => false,
    }
}

/// The page shown after going back from `page`.
pub open spec fn spec_back_destination(page: usize, return_page: usize) -> usize {
    if page == GAMES_PAGE {
        COMPUTERS_PAGE
    } else if page == STREAM_PAGE {
        GAMES_PAGE
    } else if page == LICENSE_DETAIL_PAGE {
        LICENSES_PAGE
    } else if page == LICENSES_PAGE {
        SETTINGS_PAGE
    } else if page == SETTINGS_PAGE || page == ADD_PC_PAGE {
        return_page
    } else {
        COMPUTERS_PAGE
    }
}

/// The application's state apart from drawing.
pub struct AppModel {
    pub phase: SessionPhase,
    pub status: String,
    pub pairing: String,
    pub applications: String,
    pub application_items: Vec<Application>,
    pub selected_application: Option<usize>,
    pub connected_host: Option<ConnectedHost>,
    pub prepared_session: Option<StreamSession>,
    pub session_details: String,
    pub selected_page: usize,
    pub return_page: usize,
    pub selected_license: usize,
    pub stream_input_focused: bool,
    pub pointer_lock_desired: bool,
    pub pointer_lock_applied: bool,
    pub pointer_lock_pending: bool,
    pub fullscreen_desired: bool,
    pub fullscreen_applied: bool,
    pub fullscreen_pending: bool,
    pub decorations_hidden: bool,
    pub window_title: String,
}

impl AppModel {
    /// The state at launch: idle, on the computers page, asking for a host.
    pub fn new() -> (res: Self)
        ensures
            res.phase == SessionPhase::Idle,
            res.status@ == "Enter a Sunshine host"@,
            res.selected_page == COMPUTERS_PAGE,
            res.return_page == COMPUTERS_PAGE,
            res.connected_host is None,
            res.window_title@ == "Moonlight"@,
            !res.pointer_lock_desired && !res.fullscreen_desired,
    {
        AppModel {
            phase: SessionPhase::Idle,
            status: "Enter a Sunshine host".to_owned(),
            pairing: String::new(),
            applications: String::new(),
            application_items: Vec::new(),
            selected_application: None,
            connected_host: None,
            prepared_session: None,
            session_details: String::new(),
            selected_page: COMPUTERS_PAGE,
            return_page: COMPUTERS_PAGE,
            selected_license: 0,
            stream_input_focused: false,
            pointer_lock_desired: false,
            pointer_lock_applied: false,
            pointer_lock_pending: false,
            fullscreen_desired: false,
            fullscreen_applied: false,
            fullscreen_pending: false,
            decorations_hidden: false,
            window_title: DEFAULT_WINDOW_TITLE.to_owned(),
        }
    }

    /// The user asks to connect to the host entry: nothing to do while a
    /// connection is under way; an empty entry is refused; else everything
    /// about the previous host is forgotten and the trimmed entry is the
    /// host to connect to.
    pub fn begin_connect(&mut self, host_text: &str) -> (res: Option<String>)
        ensures
            spec_trim(host_text@).len() == 0 ==> res is None && final(self).phase == SessionPhase::Idle
                && final(self).status@ == "Enter a host first"@,
            spec_trim(host_text@).len() != 0 && spec_connecting(old(self).phase) ==> res is None
                && *final(self) == *old(self),
            spec_trim(host_text@).len() != 0 && !spec_connecting(old(self).phase) ==> res is Some
                && res->Some_0@ == spec_trim(host_text@) && final(self).phase == SessionPhase::Connecting
                && final(self).status@ == "Querying "@ + spec_trim(host_text@) && final(self).pairing@.len()
                == 0 && final(self).applications@.len() == 0 && final(self).application_items@.len() == 0
                && final(self).selected_application is None && final(self).connected_host is None
                && final(self).prepared_session is None && final(self).session_details@.len() == 0
                && final(self).window_title@ == "Moonlight"@,
    {
        let requested = trim(host_text);
        if requested.as_str().is_empty() {
            self.phase = SessionPhase::Idle;
            self.status = "Enter a host first".to_owned();
            return None;
        }
        if is_connecting(&self.phase) {
            return None;
        }
        self.phase = SessionPhase::Connecting;
        self.status = concat("Querying ", requested.as_str());
        self.pairing = String::new();
        self.applications = String::new();
        self.application_items = Vec::new();
        self.selected_application = None;
        self.connected_host = None;
        self.prepared_session = None;
        self.session_details = String::new();
        self.window_title = DEFAULT_WINDOW_TITLE.to_owned();
        Some(requested)
    }

    /// Progress of a connection to `host`.
    pub fn connect_progress(&mut self, progress: &ConnectProgress, host: &str)
        ensures
            match *progress {
                ConnectProgress::FetchingServerInfo => final(self).phase == SessionPhase::Connecting
                    && final(self).status@ == "Contacting "@ + host@,
                ConnectProgress::WaitingForPin(pin) => final(self).phase == SessionPhase::Pairing
                    && final(self).pairing@ == "Enter PIN "@ + pin@ + " on the Sunshine host"@
                    && final(self).status@ == "Waiting for Sunshine to accept pairing"@,
                ConnectProgress::PairingStage(stage) => final(self).phase == SessionPhase::Pairing
                    && final(self).status@ == "Pairing stage "@ + spec_decimal(stage as nat) + "/5"@,
                ConnectProgress::FetchingApplications => final(self).phase == old(self).phase
                    && final(self).status@ == "Loading applications"@,
            },
    {
        match progress {
            ConnectProgress::FetchingServerInfo => {
                self.phase = SessionPhase::Connecting;
                self.status = concat("Contacting ", host);
            },
            ConnectProgress::WaitingForPin(pin) => {
                self.phase = SessionPhase::Pairing;
                self.pairing = concat3("Enter PIN ", pin.as_str(), " on the Sunshine host");
                self.status = "Waiting for Sunshine to accept pairing".to_owned();
            },
            ConnectProgress::PairingStage(stage) => {
                self.phase = SessionPhase::Pairing;
                let number = decimal(*stage as u64);
                self.status = concat3("Pairing stage ", number.as_str(), "/5");
            },
            ConnectProgress::FetchingApplications => {
                self.status = "Loading applications".to_owned();
            },
        }
    }

    /// A connection ended: with the host, the application list is shown, the
    /// window names the running application and the computers page shows
    /// the host; with an error, its message.
    pub fn connect_finished(&mut self, result: Result<ConnectedHost, ControlError>)
        ensures
            match result {
                Ok(host) => final(self).phase == SessionPhase::Ready && final(self).selected_page
                    == COMPUTERS_PAGE && final(self).pairing@.len() == 0 && final(self).applications@
                    == spec_applications_text(host@.applications) && applications_view(
                    final(self).application_items@,
                ) == host@.applications && final(self).selected_application is None
                    && final(self).window_title@ == spec_window_title(
                    spec_title_of(host@.applications, host@.server.current_game),
                ) && final(self).connected_host == Some(host) && final(self).status@ == "Connected to "@
                    + host@.server.hostname + " — "@ + spec_decimal(host@.applications.len())
                    + " application(s)"@,
                Err(e) => final(self).status@.len() >= 0 && final(self).phase is Failed
                    && final(self).phase->Failed_0@ == final(self).status@ && (spec_error_text(e) matches Some(
                    t,
                ) ==> final(self).status@ == t),
            },
    {
        match result {
            Ok(connected) => {
                let count = decimal(connected.applications.len() as u64);
                let running = title_of(&connected.applications, connected.server.current_game);
                let text = applications_text(&connected.applications);
                let items = copy_applications(&connected.applications);
                let head = concat3("Connected to ", connected.server.hostname.as_str(), " — ");
                let status = concat3(head.as_str(), count.as_str(), " application(s)");
                self.pairing = String::new();
                self.applications = text;
                self.application_items = items;
                self.selected_application = None;
                self.window_title = match &running {
                    Some(t) => format_window_title(Some(t.as_str())),
                    None => format_window_title(None),
                };
                self.connected_host = Some(connected);
                self.status = status;
                self.phase = SessionPhase::Ready;
                self.selected_page = COMPUTERS_PAGE;
            },
            Err(error) => {
                let message = error.to_string();
                self.status = message.clone();
                self.phase = SessionPhase::Failed(message);
            },
        }
    }

    /// Go back from the page shown.
    pub fn go_back(&mut self)
        ensures
            *final(self) == (AppModel {
                selected_page: spec_back_destination(old(self).selected_page, old(self).return_page),
                ..*old(self)
            }),
    {
        let page = self.selected_page;
        let destination = if page == GAMES_PAGE {
            COMPUTERS_PAGE
        } else if page == STREAM_PAGE {
            GAMES_PAGE
        } else if page == LICENSE_DETAIL_PAGE {
            LICENSES_PAGE
        } else if page == LICENSES_PAGE {
            SETTINGS_PAGE
        } else if page == SETTINGS_PAGE || page == ADD_PC_PAGE {
            self.return_page
        } else {
            COMPUTERS_PAGE
        };
        self.selected_page = destination;
    }

    /// Open the host's applications, or the page to add one when no host is
    /// connected.
    pub fn open_games(&mut self)
        ensures
            old(self).connected_host is Some ==> final(self).selected_page == GAMES_PAGE
                && final(self).return_page == old(self).return_page,
            old(self).connected_host is None ==> final(self).selected_page == ADD_PC_PAGE
                && final(self).return_page == COMPUTERS_PAGE,
    {
        if self.connected_host.is_some() {
            self.selected_page = GAMES_PAGE;
        } else {
            self.open_add_pc();
        }
    }

    /// Open the page to add a host; going back returns to the computers.
    pub fn open_add_pc(&mut self)
        ensures
            *final(self) == (AppModel { selected_page: ADD_PC_PAGE, return_page: COMPUTERS_PAGE, ..*old(self) }),
    {
        self.return_page = COMPUTERS_PAGE;
        self.selected_page = ADD_PC_PAGE;
    }

    /// Open the settings; going back returns to the page shown.
    pub fn open_settings(&mut self)
        ensures
            *final(self) == (AppModel {
                selected_page: SETTINGS_PAGE,
                return_page: old(self).selected_page,
                ..*old(self)
            }),
    {
        self.return_page = self.selected_page;
        self.selected_page = SETTINGS_PAGE;
    }

    /// Open the license list.
    pub fn open_licenses(&mut self)
        ensures
            *final(self) == (AppModel { selected_page: LICENSES_PAGE, ..*old(self) }),
    {
        self.selected_page = LICENSES_PAGE;
    }

    /// Open one license notice.
    pub fn open_license(&mut self, index: usize)
        ensures
            *final(self) == (AppModel {
                selected_page: LICENSE_DETAIL_PAGE,
                selected_license: index,
                ..*old(self)
            }),
    {
        self.selected_license = index;
        self.selected_page = LICENSE_DETAIL_PAGE;
    }

    /// Leave streaming mode: input capture and fullscreen are no longer
    /// wanted and the stream no longer has focus.
    pub fn leave_stream_mode(&mut self)
        ensures
            *final(self) == (AppModel {
                pointer_lock_desired: false,
                fullscreen_desired: false,
                stream_input_focused: false,
                ..*old(self)
            }),
    {
        self.pointer_lock_desired = false;
        self.fullscreen_desired = false;
        self.stream_input_focused = false;
    }

    /// The user stops the stream (`has_control` when one runs).
    pub fn stop_stream(&mut self, has_control: bool)
        ensures
            !final(self).pointer_lock_desired && !final(self).fullscreen_desired,
            final(self).selected_page == GAMES_PAGE,
            has_control ==> final(self).status@ == "Disconnecting stream"@,
            !has_control ==> final(self).status@ == old(self).status@,
    {
        self.leave_stream_mode();
        if has_control {
            self.status = "Disconnecting stream".to_owned();
        }
        self.selected_page = GAMES_PAGE;
    }

    /// The user asks to capture input; only while a stream runs.
    pub fn request_pointer_lock(&mut self, has_control: bool)
        ensures
            has_control ==> final(self).pointer_lock_desired && final(self).status@
                == "Requesting input capture…"@ && *final(self) == (AppModel {
                pointer_lock_desired: true,
                status: final(self).status,
                ..*old(self)
            }),
            !has_control ==> *final(self) == *old(self),
    {
        if !has_control {
            return;
        }
        self.pointer_lock_desired = true;
        self.status = "Requesting input capture…".to_owned();
    }

    /// The user releases captured input.
    pub fn release_pointer_lock(&mut self)
        ensures
            final(self).status@ == "Input released · Ctrl+Alt+Shift+Z to capture again"@,
            *final(self) == (AppModel { pointer_lock_desired: false, status: final(self).status, ..*old(self) }),
    {
        self.pointer_lock_desired = false;
        self.status = "Input released · Ctrl+Alt+Shift+Z to capture again".to_owned();
    }

    /// Capture or release input. Gives whether input was released, in which
    /// case held remote input must be released too.
    pub fn toggle_pointer_lock(&mut self, has_control: bool) -> (released: bool)
        ensures
            released == (old(self).pointer_lock_desired || old(self).pointer_lock_applied),
            released ==> !final(self).pointer_lock_desired,
            !released && has_control ==> final(self).pointer_lock_desired,
    {
        if self.pointer_lock_desired || self.pointer_lock_applied {
            self.release_pointer_lock();
            true
        } else {
            self.request_pointer_lock(has_control);
            false
        }
    }

    /// Switch between fullscreen and windowed.
    pub fn toggle_fullscreen(&mut self)
        ensures
            *final(self) == (AppModel { fullscreen_desired: !old(self).fullscreen_desired, ..*old(self) }),
    {
        self.fullscreen_desired = !self.fullscreen_desired;
    }
}

/// What a key press during a stream does.
#[derive(Clone, Copy, Debug, PartialEq, Eq, Structural)]
pub enum StreamKeyAction {
    /// Input capture was toggled; `released` when it was given up, in which
    /// case held remote input must be released.
    ToggledCapture { released: bool },
    /// The stream was stopped.
    StoppedStream,
    /// Fullscreen was toggled.
    ToggledFullscreen,
    /// Part of a shortcut: nothing to do.
    Swallowed,
    /// Send the key to the host.
    Forward,
    /// Not for the stream.
    Ignore,
}

/// What a mouse button during a stream does.
#[derive(Clone, Copy, Debug, PartialEq, Eq, Structural)]
pub enum StreamButtonAction {
    /// The release of a capture click: swallowed.
    Swallowed,
    /// A click that asks for input capture: its release is to be swallowed.
    Capture,
    /// Send the button to the host.
    Forward,
    /// Not for the stream.
    Ignore,
}

/// The label under an application in the list.
pub fn application_label(current_game: u32, application_id: u32) -> (res: &'static str)
    ensures
        current_game == application_id ==> res@ == "RUNNING · CLICK TO RESUME"@,
        current_game != application_id ==> res@ == "CLICK TO STREAM"@,
{
    if current_game == application_id {
        "RUNNING · CLICK TO RESUME"
    } else {
        "CLICK TO STREAM"
    }
}

/// The heading shown while no host is connected.
pub fn connection_heading(phase: &SessionPhase) -> (res: &'static str)
    ensures
        spec_connecting(*phase) ==> res@ == "Connecting to your PC…"@,
        !spec_connecting(*phase) ==> res@ == "No PCs found"@,
{
    if is_connecting(phase) {
        "Connecting to your PC…"
    } else {
        "No PCs found"
    }
}

/// Whether a phase forbids starting an application.
pub open spec fn spec_busy_for_launch(phase: SessionPhase) -> bool {
    phase is Connecting || phase is Pairing || phase is Launching || phase is Streaming
}

/// Whether a phase forbids stopping the host's application.
pub open spec fn spec_busy_for_cancel(phase: SessionPhase) -> bool {
    phase is Connecting || phase is Pairing || phase is Launching
}

impl AppModel {
    /// The user starts the selected application: nothing while another
    /// operation runs; a host and an application must be selected. Gives
    /// the application to start.
    pub fn begin_launch(&mut self) -> (res: Option<Application>)
        ensures
            spec_busy_for_launch(old(self).phase) ==> res is None && *final(self) == *old(self),
            !spec_busy_for_launch(old(self).phase) && old(self).connected_host is None ==> res is None
                && final(self).status@ == "Connect to a host first"@ && final(self).phase == old(self).phase,
            !spec_busy_for_launch(old(self).phase) && old(self).connected_host is Some && (
            old(self).selected_application is None || old(self).selected_application->Some_0
                >= old(self).application_items.len()) ==> res is None && final(self).status@
                == "Select an application first"@ && final(self).phase == old(self).phase,
            !spec_busy_for_launch(old(self).phase) && old(self).connected_host is Some
                && old(self).selected_application is Some && old(self).selected_application->Some_0
                < old(self).application_items.len() ==> res is Some && res->Some_0@
                == old(self).application_items@[old(self).selected_application->Some_0 as int]@
                && final(self).phase == SessionPhase::Launching && final(self).status@ == "Preparing "@
                + res->Some_0@.title && final(self).session_details@.len() == 0
                && !final(self).stream_input_focused && !final(self).pointer_lock_desired,
            final(self).selected_application == old(self).selected_application,
            final(self).application_items == old(self).application_items,
            final(self).connected_host == old(self).connected_host,
            final(self).selected_page == old(self).selected_page,
    {
        match self.phase {
            SessionPhase::Connecting | SessionPhase::Pairing | SessionPhase::Launching | SessionPhase::Streaming => {
                return None;
            },
            _ => {},
        }
        if self.connected_host.is_none() {
            self.status = "Connect to a host first".to_owned();
            return None;
        }
        let index = match self.selected_application {
            Some(index) => index,
            None => {
                self.status = "Select an application first".to_owned();
                return None;
            },
        };
        if index >= self.application_items.len() {
            self.status = "Select an application first".to_owned();
            return None;
        }
        let application = copy_application(&self.application_items[index]);
        self.phase = SessionPhase::Launching;
        self.status = concat("Preparing ", application.title.as_str());
        self.session_details = String::new();
        self.stream_input_focused = false;
        self.pointer_lock_desired = false;
        Some(application)
    }

    /// Start the application at `index` of the list.
    pub fn start_application(&mut self, index: usize) -> (res: Option<Application>)
        ensures
            final(self).selected_application == Some(index),
            !spec_busy_for_launch(old(self).phase) && old(self).connected_host is Some && index
                < old(self).application_items.len() ==> res is Some && res->Some_0@
                == old(self).application_items@[index as int]@ && final(self).phase
                == SessionPhase::Launching,
            !(!spec_busy_for_launch(old(self).phase) && old(self).connected_host is Some && index
                < old(self).application_items.len()) ==> res is None,
    {
        self.selected_application = Some(index);
        self.begin_launch()
    }

    /// The host prepared the session: the window names its application, the
    /// host's state and the session are kept.
    pub fn session_prepared(&mut self, session: StreamSession)
        ensures
            final(self).window_title@ == spec_window_title(Some(session@.application.title)),
            final(self).session_details@ == session@.session_url,
            final(self).prepared_session == Some(session),
            old(self).connected_host is Some ==> final(self).connected_host is Some
                && final(self).connected_host->Some_0@.server == session@.server,
            final(self).phase == old(self).phase,
    {
        self.window_title = format_window_title(Some(session.application.title.as_str()));
        self.session_details = session.session_url.clone();
        match self.connected_host.take() {
            Some(mut host) => {
                host.server = session.server.copy();
                self.connected_host = Some(host);
            },
            None => {},
        }
        self.prepared_session = Some(session);
    }

    /// The stream runs: its page is shown.
    pub fn stream_started(&mut self)
        ensures
            *final(self) == (AppModel { phase: SessionPhase::Streaming, selected_page: STREAM_PAGE, ..*old(self) }),
    {
        self.phase = SessionPhase::Streaming;
        self.selected_page = STREAM_PAGE;
    }

    /// The stream of `title` ended: after an orderly stop during the stream
    /// the session stays prepared; after an error, its message is shown.
    /// Capture, fullscreen and focus are given up either way.
    pub fn stream_finished(&mut self, result: Result<(), String>, title: &str)
        ensures
            !final(self).pointer_lock_desired && !final(self).fullscreen_desired
                && !final(self).stream_input_focused,
            match result {
                Ok(()) => if old(self).phase is Streaming {
                    final(self).status@ == "Stream stopped; "@ + title@ + " remains open on the host"@
                        && final(self).phase == SessionPhase::SessionPrepared && final(self).selected_page
                        == GAMES_PAGE
                } else {
                    final(self).status == old(self).status && final(self).phase == old(self).phase
                        && final(self).selected_page == old(self).selected_page
                },
                Err(m) => final(self).status@ == m@ && final(self).phase is Failed
                    && final(self).phase->Failed_0@ == m@ && final(self).selected_page == GAMES_PAGE,
            },
    {
        self.pointer_lock_desired = false;
        self.fullscreen_desired = false;
        self.stream_input_focused = false;
        match result {
            Ok(()) => {
                if let SessionPhase::Streaming = self.phase {
                    self.status = concat3("Stream stopped; ", title, " remains open on the host");
                    self.phase = SessionPhase::SessionPrepared;
                    self.selected_page = GAMES_PAGE;
                }
            },
            Err(message) => {
                self.status = message.clone();
                self.phase = SessionPhase::Failed(message);
                self.selected_page = GAMES_PAGE;
            },
        }
    }

    /// A background operation failed: its message is shown.
    pub fn operation_failed(&mut self, error: ControlError)
        ensures
            final(self).phase is Failed,
            final(self).phase->Failed_0@ == final(self).status@,
            spec_error_text(error) matches Some(t) ==> final(self).status@ == t,
            final(self).selected_page == old(self).selected_page,
    {
        let message = error.to_string();
        self.status = message.clone();
        self.phase = SessionPhase::Failed(message);
    }

    /// The user stops the host's application: nothing while another
    /// operation runs; a host must be connected. Gives whether to go on,
    /// after leaving streaming mode.
    pub fn begin_cancel(&mut self) -> (res: bool)
        ensures
            spec_busy_for_cancel(old(self).phase) ==> !res && *final(self) == *old(self),
            !spec_busy_for_cancel(old(self).phase) && old(self).connected_host is None ==> !res
                && final(self).status@ == "Connect to a host first"@ && final(self).phase == old(self).phase,
            !spec_busy_for_cancel(old(self).phase) && old(self).connected_host is Some ==> res
                && final(self).phase == SessionPhase::Launching && final(self).status@
                == "Stopping the host application"@ && final(self).selected_page == GAMES_PAGE
                && !final(self).pointer_lock_desired && !final(self).fullscreen_desired,
    {
        match self.phase {
            SessionPhase::Connecting | SessionPhase::Pairing | SessionPhase::Launching => {
                return false;
            },
            _ => {},
        }
        if self.connected_host.is_none() {
            self.status = "Connect to a host first".to_owned();
            return false;
        }
        self.leave_stream_mode();
        self.phase = SessionPhase::Launching;
        self.status = "Stopping the host application".to_owned();
        self.selected_page = GAMES_PAGE;
        true
    }

    /// The host's application stopped: the host's fresh state is kept and
    /// the session forgotten.
    pub fn cancel_finished(&mut self, server: ServerInfo)
        ensures
            old(self).connected_host is Some ==> final(self).connected_host is Some
                && final(self).connected_host->Some_0@.server == server@,
            final(self).prepared_session is None,
            final(self).session_details@.len() == 0,
            final(self).window_title@ == "Moonlight"@,
            final(self).status@ == "Host application stopped"@,
            final(self).phase == SessionPhase::Ready,
            final(self).selected_page == GAMES_PAGE,
    {
        match self.connected_host.take() {
            Some(mut host) => {
                host.server = server;
                self.connected_host = Some(host);
            },
            None => {},
        }
        self.prepared_session = None;
        self.session_details = String::new();
        self.window_title = DEFAULT_WINDOW_TITLE.to_owned();
        self.status = "Host application stopped".to_owned();
        self.phase = SessionPhase::Ready;
        self.selected_page = GAMES_PAGE;
    }

    /// Whether the window should be asked to change input capture, and to
    /// what; a request is outstanding until the window answers.
    pub fn pointer_lock_request(&mut self) -> (res: Option<bool>)
        ensures
            old(self).pointer_lock_desired != old(self).pointer_lock_applied && !old(self).pointer_lock_pending
                ==> res == Some(old(self).pointer_lock_desired) && *final(self) == (AppModel {
                pointer_lock_pending: true,
                ..*old(self)
            }),
            !(old(self).pointer_lock_desired != old(self).pointer_lock_applied
                && !old(self).pointer_lock_pending) ==> res is None && *final(self) == *old(self),
    {
        if self.pointer_lock_desired != self.pointer_lock_applied && !self.pointer_lock_pending {
            self.pointer_lock_pending = true;
            Some(self.pointer_lock_desired)
        } else {
            None
        }
    }

    /// The window refused to change input capture.
    pub fn pointer_lock_request_failed(&mut self)
        ensures
            !final(self).pointer_lock_pending,
            final(self).pointer_lock_desired == old(self).pointer_lock_applied,
            final(self).status@ == "Input capture is unavailable for this window"@,
    {
        self.pointer_lock_pending = false;
        self.pointer_lock_desired = self.pointer_lock_applied;
        self.status = "Input capture is unavailable for this window".to_owned();
    }

    /// Whether the window should be asked to change fullscreen, and to what.
    pub fn fullscreen_request(&mut self) -> (res: Option<bool>)
        ensures
            old(self).fullscreen_desired != old(self).fullscreen_applied && !old(self).fullscreen_pending
                ==> res == Some(old(self).fullscreen_desired) && *final(self) == (AppModel {
                fullscreen_pending: true,
                ..*old(self)
            }),
            !(old(self).fullscreen_desired != old(self).fullscreen_applied && !old(self).fullscreen_pending)
                ==> res is None && *final(self) == *old(self),
    {
        if self.fullscreen_desired != self.fullscreen_applied && !self.fullscreen_pending {
            self.fullscreen_pending = true;
            Some(self.fullscreen_desired)
        } else {
            None
        }
    }

    /// The window refused to change fullscreen.
    pub fn fullscreen_request_failed(&mut self)
        ensures
            !final(self).fullscreen_pending,
            final(self).fullscreen_desired == old(self).fullscreen_applied,
            final(self).status@ == "Fullscreen request was not accepted"@,
    {
        self.fullscreen_pending = false;
        self.fullscreen_desired = self.fullscreen_applied;
        self.status = "Fullscreen request was not accepted".to_owned();
    }

    /// The window captured or released input. Gives whether held remote
    /// input must be released.
    pub fn pointer_lock_changed(&mut self, locked: bool) -> (release: bool)
        ensures
            release == !locked,
            !final(self).pointer_lock_pending,
            final(self).pointer_lock_applied == locked,
            final(self).pointer_lock_desired == locked,
            locked ==> final(self).status@ == "Input captured · Ctrl+Alt+Shift+Z to release"@,
            !locked && old(self).selected_page == STREAM_PAGE ==> final(self).status@
                == "Input released · click video or press Ctrl+Alt+Shift+Z"@,
            !locked && old(self).selected_page != STREAM_PAGE ==> final(self).status == old(self).status,
    {
        self.pointer_lock_pending = false;
        self.pointer_lock_applied = locked;
        self.pointer_lock_desired = locked;
        if locked {
            self.status = "Input captured · Ctrl+Alt+Shift+Z to release".to_owned();
        } else if self.selected_page == STREAM_PAGE {
            self.status = "Input released · click video or press Ctrl+Alt+Shift+Z".to_owned();
        }
        !locked
    }

    /// The window entered or left fullscreen; decorations follow it.
    pub fn fullscreen_changed(&mut self, fullscreen: bool)
        ensures
            *final(self) == (AppModel {
                fullscreen_pending: false,
                fullscreen_applied: fullscreen,
                fullscreen_desired: fullscreen,
                decorations_hidden: fullscreen,
                ..*old(self)
            }),
    {
        self.fullscreen_pending = false;
        self.fullscreen_applied = fullscreen;
        self.fullscreen_desired = fullscreen;
        self.decorations_hidden = fullscreen;
    }

    /// The window was resized: once fullscreen settles, decorations follow it.
    pub fn window_resized(&mut self)
        ensures
            old(self).fullscreen_applied == old(self).fullscreen_desired ==> *final(self) == (AppModel {
                decorations_hidden: old(self).fullscreen_desired,
                ..*old(self)
            }),
            old(self).fullscreen_applied != old(self).fullscreen_desired ==> *final(self) == *old(self),
    {
        if self.fullscreen_applied == self.fullscreen_desired && self.decorations_hidden != self.fullscreen_desired {
            self.decorations_hidden = self.fullscreen_desired;
        }
    }

    /// What a key event during a stream does, given how the shortcuts
    /// classified it and whether a stream runs.
    pub fn stream_key(&mut self, dispatch: crate::held_input::ShortcutDispatch, has_control: bool) -> (res:
        StreamKeyAction)
        ensures
            match dispatch {
                crate::held_input::ShortcutDispatch::Command(crate::held_input::StreamShortcut::ToggleCapture) => res
                    == (StreamKeyAction::ToggledCapture {
                    released: old(self).pointer_lock_desired || old(self).pointer_lock_applied,
                }),
                crate::held_input::ShortcutDispatch::Command(crate::held_input::StreamShortcut::Disconnect) => res
                    == StreamKeyAction::StoppedStream && final(self).selected_page == GAMES_PAGE,
                crate::held_input::ShortcutDispatch::Command(crate::held_input::StreamShortcut::ToggleFullscreen) => res
                    == StreamKeyAction::ToggledFullscreen && final(self).fullscreen_desired
                    == !old(self).fullscreen_desired,
                crate::held_input::ShortcutDispatch::Consumed => res == StreamKeyAction::Swallowed
                    && *final(self) == *old(self),
                crate::held_input::ShortcutDispatch::NotShortcut => *final(self) == *old(self) && (if old(
                    self,
                ).pointer_lock_applied && has_control {
                    res == StreamKeyAction::Forward
                } else {
                    res == StreamKeyAction::Ignore
                }),
            },
    {
        match dispatch {
            crate::held_input::ShortcutDispatch::Command(command) => match command {
                crate::held_input::StreamShortcut::ToggleCapture => {
                    let released = self.toggle_pointer_lock(has_control);
                    StreamKeyAction::ToggledCapture { released }
                },
                crate::held_input::StreamShortcut::Disconnect => {
                    self.stop_stream(has_control);
                    StreamKeyAction::StoppedStream
                },
                crate::held_input::StreamShortcut::ToggleFullscreen => {
                    self.toggle_fullscreen();
                    StreamKeyAction::ToggledFullscreen
                },
            },
            crate::held_input::ShortcutDispatch::Consumed => StreamKeyAction::Swallowed,
            crate::held_input::ShortcutDispatch::NotShortcut => {
                if self.pointer_lock_applied && has_control {
                    StreamKeyAction::Forward
                } else {
                    StreamKeyAction::Ignore
                }
            },
        }
    }

    /// What a mouse button during a stream does: the release of a capture
    /// click is swallowed; without captured input a press asks for capture;
    /// with it the button goes to the host.
    pub fn stream_mouse_button(&mut self, suppressed_release: bool, pressed: bool, has_control: bool) -> (res:
        StreamButtonAction)
        ensures
            !pressed && suppressed_release ==> res == StreamButtonAction::Swallowed && *final(self) == *old(self),
            !(!pressed && suppressed_release) && !old(self).pointer_lock_applied && pressed ==> res
                == StreamButtonAction::Capture && (has_control ==> final(self).pointer_lock_desired),
            !(!pressed && suppressed_release) && !old(self).pointer_lock_applied && !pressed ==> res
                == StreamButtonAction::Ignore && *final(self) == *old(self),
            !(!pressed && suppressed_release) && old(self).pointer_lock_applied ==> *final(self) == *old(self)
                && (if has_control {
                res == StreamButtonAction::Forward
            } else {
                res == StreamButtonAction::Ignore
            }),
    {
        if !pressed && suppressed_release {
            return StreamButtonAction::Swallowed;
        }
        if !self.pointer_lock_applied {
            if pressed {
                self.request_pointer_lock(has_control);
                return StreamButtonAction::Capture;
            }
            return StreamButtonAction::Ignore;
        }
        if !has_control {
            return StreamButtonAction::Ignore;
        }
        StreamButtonAction::Forward
    }

    /// Whether mouse motion and wheel go to the host.
    pub fn forwards_pointer(&self, has_control: bool) -> (res: bool)
        ensures
            res == (self.pointer_lock_applied && has_control),
    {
        self.pointer_lock_applied && has_control
    }

    /// The title of the applications page: the host's name.
    pub fn games_title(&self) -> (res: String)
        ensures
            match self.connected_host {
                Some(h) => res@ == h@.server.hostname,
                None => res@ == "Applications"@,
            },
    {
        match &self.connected_host {
            Some(host) => host.server.hostname.clone(),
            None => "Applications".to_owned(),
        }
    }

    /// The application running on the connected host, or zero.
    pub fn current_game(&self) -> (res: u32)
        ensures
            match self.connected_host {
                Some(h) => res == h@.server.current_game,
                None => res == 0,
            },
    {
        match &self.connected_host {
            Some(host) => host.server.current_game,
            None => 0,
        }
    }

    /// The title shown over the stream.
    pub fn stream_title(&self) -> (res: String)
        ensures
            match self.prepared_session {
                Some(s) => res@ == s@.application.title,
                None => res@ == "Moonlight"@,
            },
    {
        match &self.prepared_session {
            Some(session) => session.application.title.clone(),
            None => "Moonlight".to_owned(),
        }
    }
}

} // verus!

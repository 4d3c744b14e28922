//! Decisions of a running stream: what the core is started with, whether
//! its video is usable, what progress is reported and how it ended.
use vstd::prelude::*;

use crate::connection::{
    HostConnectionInfo, HostConnectionInfoView, StreamConfiguration, StreamConfigurationView,
    VideoSetup,
};
use crate::control::opt_view;
use crate::session::StreamSession;
use crate::text::{
    concat, concat3, decimal, lower_hex, signed_decimal, spec_decimal, spec_lower_hex,
    spec_signed_decimal,
};
use crate::video::{is_annex_b, spec_is_annex_b};

verus! {

fn copy_optional(o: &Option<String>) -> (res: Option<String>)
    ensures
        opt_view(res) == opt_view(*o),
{
    match o {
        Some(s) => Some(s.clone()),
        None => None,
    }
}

/// What the streaming core is started with for a prepared session: the
/// control endpoint's host, the host's versions and codecs, the session URL,
/// and the requested mode with the session's input keys.
pub fn stream_parameters(session: &StreamSession) -> (res: (HostConnectionInfo, StreamConfiguration))
    ensures
        res.0@ == (HostConnectionInfoView {
            address: session.endpoint@.host,
            app_version: session.server.app_version@,
            gfe_version: opt_view(session.server.gfe_version),
            rtsp_session_url: session.session_url@,
            server_codec_mode_support: session.server.server_codec_mode_support,
        }),
        res.1@ == (StreamConfigurationView {
            width: session.config.width,
            height: session.config.height,
            fps: session.config.fps,
            bitrate_kbps: 20000,
            packet_size: 1024,
            remote_input_aes_key: session.remote_input_aes_key@,
            remote_input_aes_iv: session.remote_input_aes_iv@,
        }),
{
    let host = HostConnectionInfo::new(
        session.endpoint.host().to_owned(),
        session.server.app_version.clone(),
        copy_optional(&session.server.gfe_version),
        session.session_url.clone(),
        session.server.server_codec_mode_support,
    );
    let stream = StreamConfiguration::new(
        session.config.width,
        session.config.height,
        session.config.fps,
        session.remote_input_aes_key,
        session.remote_input_aes_iv,
    );
    (host, stream)
}

/// The progress shown while the stream connects.
pub fn connecting_message(title: &str) -> (res: String)
    ensures
        res@ == "Connecting stream for "@ + title@,
{
    concat("Connecting stream for ", title)
}

/// The video parameters to stream with: there must be some, and H.264.
pub fn check_video_setup(setup: Option<VideoSetup>) -> (res: Result<VideoSetup, String>)
    ensures
        match setup {
            None => res is Err && res->Err_0@ == "stream started without negotiated video parameters"@,
            Some(s) => if s@.video_format & 0x000F != 0 {
                res == Ok::<VideoSetup, String>(s)
            } else {
                res is Err && res->Err_0@ == "host selected unsupported video format 0x"@
                    + spec_lower_hex(s@.video_format as u32 as nat)
            },
        },
{
    match setup {
        None => Err("stream started without negotiated video parameters".to_owned()),
        Some(s) => {
            if s.is_h264() {
                Ok(s)
            } else {
                let format = s.video_format();
                let digits = lower_hex(format as u32 as u64);
                Err(concat("host selected unsupported video format 0x", digits.as_str()))
            }
        },
    }
}

/// The progress shown once video flows.
pub fn streaming_message(setup: VideoSetup) -> (res: String)
    ensures
        res@ == "Streaming "@ + spec_decimal(setup@.width as nat) + "x"@ + spec_decimal(
            setup@.height as nat,
        ) + " at "@ + spec_decimal(setup@.fps as nat) + " FPS"@,
{
    let width = decimal(setup.width() as u64);
    let height = decimal(setup.height() as u64);
    let fps = decimal(setup.fps() as u64);
    let head = concat3("Streaming ", width.as_str(), "x");
    let middle = concat3(head.as_str(), height.as_str(), " at ");
    concat3(middle.as_str(), fps.as_str(), " FPS")
}

/// How a stream ended, from the core's termination report: none or zero
/// is an orderly end.
pub fn stream_outcome(termination_error: Option<i32>) -> (res: Result<(), String>)
    ensures
        match termination_error {
            None => res is Ok,
            Some(e) => if e == 0 {
                res is Ok
            } else {
                res is Err && res->Err_0@ == "stream terminated with error "@ + spec_signed_decimal(e as int)
            },
        },
{
    match termination_error {
        None => Ok(()),
        Some(e) => {
            if e == 0 {
                Ok(())
            } else {
                let number = signed_decimal(e as i64);
                Err(concat("stream terminated with error ", number.as_str()))
            }
        },
    }
}

/// Checks the first coded frame of a stream: it must use Annex B framing.
/// Gives the progress to show.
pub fn check_first_frame(access_unit: &[u8]) -> (res: Result<String, String>)
    ensures
        spec_is_annex_b(access_unit@) ==> res is Ok && res->Ok_0@
            == "Video transport active (preview is unsupported on this host)"@,
        !spec_is_annex_b(access_unit@) ==> res is Err && res->Err_0@
            == "first H.264 frame is not an Annex B access unit"@,
{
    if is_annex_b(access_unit) {
        Ok("Video transport active (preview is unsupported on this host)".to_owned())
    } else {
        Err("first H.264 frame is not an Annex B access unit".to_owned())
    }
}

/// Progress of the video worker: frames consumed, and whether an audio
/// failure has been reported.
pub struct VideoProgress {
    frame_count: u64,
    audio_error_reported: bool,
}

/// Mathematical value of a [`VideoProgress`].
pub struct VideoProgressView {
    pub frame_count: u64,
    pub audio_error_reported: bool,
}

impl View for VideoProgress {
    type V = VideoProgressView;

    closed spec fn view(&self) -> VideoProgressView {
        VideoProgressView { frame_count: self.frame_count, audio_error_reported: self.audio_error_reported }
    }
}

impl VideoProgress {
    /// No frame consumed, nothing reported.
    pub fn new() -> (res: Self)
        ensures
            res@ == (VideoProgressView { frame_count: 0, audio_error_reported: false }),
    {
        VideoProgress { frame_count: 0, audio_error_reported: false }
    }

    /// Whether no frame has been consumed yet.
    pub fn at_first_frame(&self) -> (res: bool)
        ensures
            res == (self@.frame_count == 0),
    {
        self.frame_count == 0
    }

    /// Counts a consumed frame (the count stops at its maximum).
    pub fn frame_consumed(&mut self)
        ensures
            final(self)@ == (VideoProgressView {
                frame_count: if old(self)@.frame_count == u64::MAX {
                    u64::MAX
                } else {
                    (old(self)@.frame_count + 1) as u64
                },
                ..old(self)@
            }),
    {
        self.frame_count = self.frame_count.saturating_add(1);
    }

    /// The message for an audio failure, shown once per stream.
    pub fn audio_report(&mut self, error: Option<String>) -> (res: Option<String>)
        ensures
            old(self)@.audio_error_reported ==> res is None && final(self)@ == old(self)@,
            !old(self)@.audio_error_reported && error is None ==> res is None && final(self)@ == old(
                self,
            )@,
            !old(self)@.audio_error_reported && error is Some ==> res is Some && res->Some_0@
                == "Audio disabled: "@ + error->Some_0@ && final(self)@ == (VideoProgressView {
                audio_error_reported: true,
                ..old(self)@
            }),
    {
        if self.audio_error_reported {
            return None;
        }
        match error {
            Some(e) => {
                self.audio_error_reported = true;
                Some(concat("Audio disabled: ", e.as_str()))
            },
            None => None,
        }
    }
}

} // verus!

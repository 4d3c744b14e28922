//! Negotiated Opus parameters, packet checks and the audio renderer's
//! health, for the streaming core's audio callbacks.
use vstd::prelude::*;

use crate::text::{concat, concat3, decimal, spec_decimal};

verus! {

/// Most output channels of an Opus multistream setup.
pub const MAX_AUDIO_CHANNELS: usize = 8;

/// Largest audio packet accepted from the core.
pub const MAX_AUDIO_PACKET_LENGTH: usize = 65536;

/// Opus multistream parameters negotiated by the streaming core.
#[derive(Clone, Copy, Debug, PartialEq, Eq)]
pub struct AudioSetup {
    configuration: i32,
    sample_rate: u32,
    channel_count: u8,
    streams: u8,
    coupled_streams: u8,
    samples_per_frame: u32,
    mapping: [u8; 8],
}

/// Mathematical value of an [`AudioSetup`].
pub struct AudioSetupView {
    pub configuration: i32,
    pub sample_rate: u32,
    pub channel_count: u8,
    pub streams: u8,
    pub coupled_streams: u8,
    pub samples_per_frame: u32,
    /// One output-channel mapping entry per channel.
    pub mapping: Seq<u8>,
}

impl View for AudioSetup {
    type V = AudioSetupView;

    closed spec fn view(&self) -> AudioSetupView {
        AudioSetupView {
            configuration: self.configuration,
            sample_rate: self.sample_rate,
            channel_count: self.channel_count,
            streams: self.streams,
            coupled_streams: self.coupled_streams,
            samples_per_frame: self.samples_per_frame,
            mapping: self.mapping@.subrange(0, self.channel_count as int),
        }
    }
}

/// Why raw Opus parameters are unusable, checked in the order channel
/// count, sample rate, stream count, coupled-stream count, frame size,
/// mapping.
pub open spec fn spec_audio_setup_error(
    sample_rate: i32,
    channel_count: i32,
    streams: i32,
    coupled_streams: i32,
    samples_per_frame: i32,
    mapping_present: bool,
) -> Option<Seq<char>> {
    if !(1 <= channel_count <= 8) {
        Some("invalid Opus channel count"@)
    } else if sample_rate <= 0 {
        Some("invalid Opus sample rate"@)
    } else if !(1 <= streams <= 255) {
        Some("invalid Opus stream count"@)
    } else if !(0 <= coupled_streams <= streams) {
        Some("invalid Opus coupled-stream count"@)
    } else if samples_per_frame <= 0 {
        Some("invalid Opus frame size"@)
    } else if !mapping_present {
        Some("missing Opus channel mapping"@)
    } else {
        None
    }
}

fn entry(mapping: &[u8], count: usize, i: usize) -> (res: u8)
    requires
        count <= mapping.len(),
    ensures
        i < count ==> res == mapping@[i as int],
        i >= count ==> res == 0,
{
    if i < count {
        mapping[i]
    } else {
        0
    }
}

impl AudioSetup {
    /// A setup never has more than eight channels.
    #[verifier::type_invariant]
    spec fn channels_fit(self) -> bool {
        self.channel_count <= 8
    }

    /// Checks the parameters that the core negotiated and copies the first
    /// `channel_count` entries of the channel mapping (absent when the core
    /// passes none).
    pub fn from_raw(
        configuration: i32,
        sample_rate: i32,
        channel_count: i32,
        streams: i32,
        coupled_streams: i32,
        samples_per_frame: i32,
        mapping: Option<&[u8]>,
    ) -> (res: Result<Self, String>)
        requires
            mapping is Some && 1 <= channel_count <= 8 ==> mapping->Some_0.len() >= channel_count,
        ensures
            match spec_audio_setup_error(
                sample_rate,
                channel_count,
                streams,
                coupled_streams,
                samples_per_frame,
                mapping is Some,
            ) {
                Some(message) => res is Err && res->Err_0@ == message,
                None => res is Ok && res->Ok_0@ == (AudioSetupView {
                    configuration,
                    sample_rate: sample_rate as u32,
                    channel_count: channel_count as u8,
                    streams: streams as u8,
                    coupled_streams: coupled_streams as u8,
                    samples_per_frame: samples_per_frame as u32,
                    mapping: mapping->Some_0@.subrange(0, channel_count as int),
                }),
            },
    {
        if channel_count < 1 || channel_count > 8 {
            return Err("invalid Opus channel count".to_owned());
        }
        if sample_rate <= 0 {
            return Err("invalid Opus sample rate".to_owned());
        }
        if streams < 1 || streams > 255 {
            return Err("invalid Opus stream count".to_owned());
        }
        if coupled_streams < 0 || coupled_streams > streams {
            return Err("invalid Opus coupled-stream count".to_owned());
        }
        if samples_per_frame <= 0 {
            return Err("invalid Opus frame size".to_owned());
        }
        let mapping = match mapping {
            Some(m) => m,
            None => return Err("missing Opus channel mapping".to_owned()),
        };
        let count = channel_count as usize;
        let copied: [u8; 8] = [
            entry(mapping, count, 0),
            entry(mapping, count, 1),
            entry(mapping, count, 2),
            entry(mapping, count, 3),
            entry(mapping, count, 4),
            entry(mapping, count, 5),
            entry(mapping, count, 6),
            entry(mapping, count, 7),
        ];
        let setup = AudioSetup {
            configuration,
            sample_rate: sample_rate as u32,
            channel_count: count as u8,
            streams: streams as u8,
            coupled_streams: coupled_streams as u8,
            samples_per_frame: samples_per_frame as u32,
            mapping: copied,
        };
        assert(setup@.mapping =~= mapping@.subrange(0, channel_count as int));
        Ok(setup)
    }

    /// The raw negotiated audio configuration.
    pub fn configuration(self) -> (res: i32)
        ensures
            res == self@.configuration,
    {
        self.configuration
    }

    /// Decoded samples per second for each output channel.
    pub fn sample_rate(self) -> (res: u32)
        ensures
            res == self@.sample_rate,
    {
        self.sample_rate
    }

    /// Number of interleaved output channels.
    pub fn channel_count(self) -> (res: u8)
        ensures
            res == self@.channel_count,
    {
        self.channel_count
    }

    /// Total independent and coupled Opus streams.
    pub fn streams(self) -> (res: u8)
        ensures
            res == self@.streams,
    {
        self.streams
    }

    /// Number of stereo-coupled streams among them.
    pub fn coupled_streams(self) -> (res: u8)
        ensures
            res == self@.coupled_streams,
    {
        self.coupled_streams
    }

    /// PCM samples per channel produced for one audio packet.
    pub fn samples_per_frame(self) -> (res: u32)
        ensures
            res == self@.samples_per_frame,
    {
        self.samples_per_frame
    }

    /// The output-channel mapping: exactly one entry per channel.
    pub fn mapping(&self) -> (res: &[u8])
        ensures
            res@ == self@.mapping,
    {
        proof {
            use_type_invariant(self);
        }
        vstd::slice::slice_subrange(self.mapping.as_slice(), 0, self.channel_count as usize)
    }
}

/// How the platform audio output is set up for a negotiated stream.
#[derive(Clone, Copy, Debug, PartialEq, Eq)]
pub struct AudioOutputPlan {
    /// Output samples per second.
    pub sample_rate: u32,
    /// Interleaved output channels.
    pub channels: u16,
    /// Frames per output period (10 ms).
    pub period_frames: u32,
    /// Frames of output buffering (200 ms).
    pub buffer_frames: u32,
    /// Interleaved samples that one decoded packet fills.
    pub sample_capacity: usize,
}

/// The output plan for a negotiated setup: the platform output plays 48 kHz
/// stereo only, and a packet may hold at most 120 ms of audio.
pub open spec fn spec_audio_output_plan(s: AudioSetupView) -> Result<AudioOutputPlan, Seq<char>> {
    if s.sample_rate != 48000 || s.channel_count != 2 {
        Err(
            "Scarlet audio requires 48 kHz stereo, got "@ + spec_decimal(s.sample_rate as nat) + " Hz and "@
                + spec_decimal(s.channel_count as nat) + " channel(s)"@,
        )
    } else if s.samples_per_frame > 5760 {
        Err("Opus frame contains too many samples: "@ + spec_decimal(s.samples_per_frame as nat))
    } else {
        Ok(
            AudioOutputPlan {
                sample_rate: 48000,
                channels: 2,
                period_frames: 480,
                buffer_frames: 9600,
                sample_capacity: (s.samples_per_frame * 2) as usize,
            },
        )
    }
}

/// Plans the platform audio output for a negotiated setup, or says why the
/// setup cannot be played.
pub fn audio_output_plan(setup: AudioSetup) -> (res: Result<AudioOutputPlan, String>)
    ensures
        match spec_audio_output_plan(setup@) {
            Ok(plan) => res == Ok::<AudioOutputPlan, String>(plan),
            Err(m) => res is Err && res->Err_0@ == m,
        },
{
    let rate = setup.sample_rate();
    let channels = setup.channel_count();
    if rate != 48000 || channels != 2 {
        let rate_text = decimal(rate as u64);
        let channel_text = decimal(channels as u64);
        let head = concat3("Scarlet audio requires 48 kHz stereo, got ", rate_text.as_str(), " Hz and ");
        return Err(concat3(head.as_str(), channel_text.as_str(), " channel(s)"));
    }
    let maximum_frame_samples: u32 = rate * 120 / 1000;
    let samples_per_frame = setup.samples_per_frame();
    if samples_per_frame > maximum_frame_samples {
        let count = decimal(samples_per_frame as u64);
        return Err(concat("Opus frame contains too many samples: ", count.as_str()));
    }
    Ok(
        AudioOutputPlan {
            sample_rate: rate,
            channels: channels as u16,
            period_frames: rate * 10 / 1000,
            buffer_frames: rate * 200 / 1000,
            sample_capacity: (samples_per_frame as usize) * 2,
        },
    )
}

/// Audio sink invoked serially by the streaming core's decoder worker.
pub trait AudioRenderer: Send {
    /// Initializes the renderer for negotiated Opus multistream audio.
    fn initialize(&mut self, setup: AudioSetup) -> Result<(), String>;

    /// The outcomes that this renderer, in the state it is in, may give
    /// for a packet (`None` for a lost one): `None` when it was played,
    /// else the error message. A renderer that states nothing of its
    /// outcomes admits every one.
    open spec fn decode_outcome(&self, packet: Option<Seq<u8>>, error: Option<Seq<char>>) -> bool {
        true
    }

    /// Decodes and presents one Opus packet, or conceals a lost one
    /// (`None`).
    fn decode_and_play(&mut self, packet: Option<&[u8]>) -> (res: Result<(), String>)
        ensures
            old(self).decode_outcome(packet_view(packet), decode_error(res)),
    ;
}

/// The bytes of a packet handed to a renderer, `None` for a lost one.
pub open spec fn packet_view(packet: Option<&[u8]>) -> Option<Seq<u8>> {
    match packet {
        Some(p) => Some(p@),
        None => None,
    }
}

/// The error message of a renderer's result, `None` when it succeeded.
pub open spec fn decode_error(res: Result<(), String>) -> Option<Seq<char>> {
    match res {
        Ok(()) => None,
        Err(m) => Some(m@),
    }
}

/// The health after a renderer's outcome: unchanged when the packet was
/// played, else with the error recorded.
pub open spec fn spec_after_decode(h: AudioHealthView, error: Option<Seq<char>>) -> AudioHealthView {
    match error {
        None => h,
        Some(e) => spec_record(h, e),
    }
}

/// How long an audio packet from the core is: `None` for a lost packet
/// (length zero), else its length, which must be at most 64 KiB, with data
/// present.
pub fn audio_packet_length(sample_length: i32, data_present: bool) -> (res: Result<Option<usize>, String>)
    ensures
        sample_length == 0 ==> res == Ok::<Option<usize>, String>(None),
        (sample_length < 0 || sample_length > MAX_AUDIO_PACKET_LENGTH) ==> res is Err && res->Err_0@
            == "invalid Opus packet length"@,
        0 < sample_length <= MAX_AUDIO_PACKET_LENGTH && !data_present ==> res is Err && res->Err_0@
            == "missing Opus packet data"@,
        0 < sample_length <= MAX_AUDIO_PACKET_LENGTH && data_present ==> res == Ok::<
            Option<usize>,
            String,
        >(Some(sample_length as usize)),
{
    if sample_length == 0 {
        return Ok(None);
    }
    if sample_length < 0 || sample_length as usize > MAX_AUDIO_PACKET_LENGTH {
        return Err("invalid Opus packet length".to_owned());
    }
    if !data_present {
        return Err("missing Opus packet data".to_owned());
    }
    Ok(Some(sample_length as usize))
}

/// Whether the audio renderer has failed, and its first error.
pub struct AudioHealth {
    failed: bool,
    error: Option<String>,
}

/// Mathematical value of an [`AudioHealth`].
pub struct AudioHealthView {
    pub failed: bool,
    pub error: Option<Seq<char>>,
}

impl View for AudioHealth {
    type V = AudioHealthView;

    closed spec fn view(&self) -> AudioHealthView {
        AudioHealthView { failed: self.failed, error: crate::control::opt_view(self.error) }
    }
}

/// The health after an error is recorded: failed, and the error is kept
/// only when none was recorded before.
pub open spec fn spec_record(h: AudioHealthView, error: Seq<char>) -> AudioHealthView {
    AudioHealthView {
        failed: true,
        error: match h.error {
            Some(e) => Some(e),
            None => Some(error),
        },
    }
}

impl AudioHealth {
    /// A healthy renderer: not failed, no error.
    pub fn new() -> (res: Self)
        ensures
            res@ == (AudioHealthView { failed: false, error: None }),
    {
        AudioHealth { failed: false, error: None }
    }

    /// Records a renderer error; only the first one is kept.
    pub fn record(&mut self, error: String)
        ensures
            final(self)@ == spec_record(old(self)@, error@),
    {
        self.failed = true;
        if self.error.is_none() {
            self.error = Some(error);
        }
    }

    /// Whether the renderer has failed, after which packets are dropped.
    pub fn failed(&self) -> (res: bool)
        ensures
            res == self@.failed,
    {
        self.failed
    }

    /// The first recorded error.
    pub fn current_error(&self) -> (res: Option<String>)
        ensures
            crate::control::opt_view(res) == self@.error,
    {
        match &self.error {
            Some(e) => Some(e.clone()),
            None => None,
        }
    }

    /// Initializes `renderer` for the negotiated parameters, when there is
    /// one. Gives the status the core expects (`0`, or `-1` after recording
    /// the error).
    pub fn initialize<R: AudioRenderer + ?Sized>(
        &mut self,
        renderer: Option<&mut R>,
        configuration: i32,
        sample_rate: i32,
        channel_count: i32,
        streams: i32,
        coupled_streams: i32,
        samples_per_frame: i32,
        mapping: Option<&[u8]>,
    ) -> (status: i32)
        requires
            mapping is Some && 1 <= channel_count <= 8 ==> mapping->Some_0.len() >= channel_count,
        ensures
            status == 0 || status == -1,
            status == 0 ==> final(self)@ == old(self)@,
            status == -1 ==> final(self)@.failed,
            spec_audio_setup_error(
                sample_rate,
                channel_count,
                streams,
                coupled_streams,
                samples_per_frame,
                mapping is Some,
            ) matches Some(message) ==> status == -1 && final(self)@ == spec_record(old(self)@, message),
            spec_audio_setup_error(
                sample_rate,
                channel_count,
                streams,
                coupled_streams,
                samples_per_frame,
                mapping is Some,
            ) is None && renderer is None ==> status == 0,
    {
        let setup = match AudioSetup::from_raw(
            configuration,
            sample_rate,
            channel_count,
            streams,
            coupled_streams,
            samples_per_frame,
            mapping,
        ) {
            Ok(setup) => setup,
            Err(message) => {
                self.record(message);
                return -1;
            },
        };
        match renderer {
            None => 0,
            Some(r) => match r.initialize(setup) {
                Ok(()) => 0,
                Err(message) => {
                    self.record(message);
                    -1
                },
            },
        }
    }
}

impl AudioHealth {
    /// Hands one packet (or a loss, `None`) to `renderer`, unless the
    /// renderer has failed or there is none; a decoding error is recorded.
    pub fn deliver_packet<R: AudioRenderer + ?Sized>(&mut self, renderer: Option<&mut R>, packet: Option<&[u8]>)
        ensures
            old(self)@.failed ==> final(self)@ == old(self)@,
            renderer is None ==> final(self)@ == old(self)@,
            renderer matches Some(r) ==> (!old(self)@.failed ==> exists|e: Option<Seq<char>>|
                (*r).decode_outcome(packet_view(packet), e) && final(self)@ == spec_after_decode(
                    old(self)@,
                    e,
                )),
    {
        if self.failed {
            return;
        }
        if let Some(r) = renderer {
            let ghost before = r;
            let res = r.decode_and_play(packet);
            assert((*before).decode_outcome(packet_view(packet), decode_error(res)));
            if let Err(message) = res {
                self.record(message);
            }
            assert(final(self)@ == spec_after_decode(old(self)@, decode_error(res)));
        }
    }
}

/// A law of the renderer's health: once an error is recorded, later errors
/// never replace it, and the renderer stays failed.
pub proof fn law_first_error_is_kept(h: AudioHealthView, first: Seq<char>, later: Seq<char>)
    requires
        h.error is None,
    ensures
        spec_record(spec_record(h, first), later).error == Some(first),
        spec_record(spec_record(h, first), later).failed,
{
}

} // verus!

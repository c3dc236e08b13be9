//! A render job as a machine: it names the next action, and is told how the
//! action ended. Actions are carried out elsewhere; every decision is made here.

use crate::params::RenderError;
use crate::plan::{failed_with, keeps, OPEN_END};
use crate::text::{number_text, push_number};
use vstd::prelude::*;

verus! {

/// A codec has nothing to give or cannot take more right now.
pub const AGAIN: i64 = -11;

/// A codec has given all it had.
pub const END: i64 = -541478725;

/// What stopped a job. Numbers are the codes that the outside reported.
#[derive(Clone, Copy, Debug, PartialEq, Eq, Structural)]
pub enum Fault {
    DecodeSend(i64),
    AudioWrite(i64),
    DecodeReceive(i64),
    ScalerOpen,
    Scale,
    Engine(i64),
    FrameAlloc,
    EncodeSend(i64),
    EncodeReceive(i64),
    PacketWrite(i64),
    NoFrames,
}

/// How a job ended.
#[derive(Clone, Copy, Debug, PartialEq, Eq, Structural)]
pub enum Outcome {
    /// The file is to be finished and kept.
    Complete,
    Cancelled,
    Failed(Fault),
}

/// What a job wants done next. Every action but the last is answered with a
/// number.
#[derive(Clone, Copy, Debug, PartialEq, Eq, Structural)]
pub enum Action {
    /// Look whether the job is cancelled; zero when not.
    PollCancel,
    /// Read the next packet of the source; its code, negative at the end.
    ReadPacket,
    /// Tell the stream of the packet.
    PacketStream,
    /// Hand the packet to the decoder and release it; the code.
    SendPacket,
    /// Tell the time of the audio packet in its own unit, negative when unknown.
    AudioTime,
    /// Convert an audio time to microseconds.
    RescaleAudio(i64),
    /// Write the audio packet, shifted, and release it; the code.
    WriteAudio,
    /// Release the packet; any number.
    DropPacket,
    /// Tell the decoder that no packet follows; any number.
    FlushDecoder,
    /// Take the next picture from the decoder; the code.
    ReceiveFrame,
    /// Tell the time of the picture in its own unit, negative when unknown.
    FrameTime,
    /// Convert a picture time to microseconds.
    RescaleVideo(i64),
    /// Release the picture; any number.
    DropFrame,
    /// Tell the pixel format of the picture.
    FrameFormat,
    /// Open a scaler for a pixel format, after closing the open one where
    /// `replace` says so; zero when it cannot be opened.
    OpenScaler { format: i64, replace: bool },
    /// Scale the picture, release it, and turn the scaled one upright; the number
    /// of rows.
    ScaleFrame,
    /// Apply the effect to the upright picture, as the frame of this number; the
    /// code.
    ApplyEffect(i32),
    /// Get an empty encoder frame; zero when there is none.
    AllocFrame,
    /// Fill the encoder frame with the upright picture, stamp it with this
    /// number, and hand it to the encoder; the code.
    SendFrame(i32),
    /// Report frames done, and frames expected; any number.
    Progress(i32, i32),
    /// Take the next packet from the encoder; the code.
    ReceiveEncoded,
    /// Write the encoded packet and release it; the code.
    WriteEncoded,
    /// Tell the encoder that no frame follows; any number.
    FlushEncoder,
    /// Nothing more.
    Stop(Outcome),
}

/// What does not change during a job.
#[derive(Clone, Copy, Debug, PartialEq, Eq, Structural)]
pub struct JobConfig {
    pub start_us: i64,
    pub end_us: i64,
    /// Video stream of the source.
    pub video_in: i32,
    /// Audio stream of the source.
    pub audio_in: i32,
    /// Audio stream of the output, negative where it has none.
    pub audio_out: i32,
    pub effect: bool,
    /// Frames expected.
    pub total: i32,
}

/// How far a job is.
#[derive(Clone, Copy, Debug, PartialEq, Eq, Structural)]
pub struct JobState {
    pub pending: Action,
    /// The source has no more packets.
    pub input_ended: bool,
    /// The decoder was told so.
    pub decoder_flushed: bool,
    /// The encoder was told that no frame follows.
    pub encoder_flushed: bool,
    /// Pixel format of the open scaler.
    pub scaler: Option<i64>,
    /// Frames that the encoder took.
    pub frames: i32,
}

impl JobState {
    /// The same state with another action.
    pub open spec fn to(self, pending: Action) -> JobState {
        JobState { pending, ..self }
    }

    /// The state with which the job ends by a fault.
    pub open spec fn fail(self, fault: Fault) -> JobState {
        self.to(Action::Stop(Outcome::Failed(fault)))
    }

    /// Once a packet is dealt with: flush the decoder at the end of the source,
    /// and look for pictures.
    pub open spec fn packet_done(self) -> JobState {
        if self.input_ended && !self.decoder_flushed {
            self.to(Action::FlushDecoder)
        } else {
            self.to(Action::ReceiveFrame)
        }
    }

    /// Once the time of an audio packet is known.
    pub open spec fn audio_at(self, cfg: JobConfig, us: int) -> JobState {
        if keeps(cfg.start_us as int, cfg.end_us as int, us) {
            self.to(Action::WriteAudio)
        } else {
            self.to(Action::DropPacket)
        }
    }

    /// Once the time of a picture is known.
    pub open spec fn frame_at(self, cfg: JobConfig, us: int) -> JobState {
        if keeps(cfg.start_us as int, cfg.end_us as int, us) {
            self.to(Action::FrameFormat)
        } else {
            self.to(Action::DropFrame)
        }
    }

    /// Once the encoder has no packet to give.
    pub open spec fn encoder_drained(self) -> JobState {
        if !self.encoder_flushed {
            self.to(Action::ReceiveFrame)
        } else if self.frames == 0 {
            self.fail(Fault::NoFrames)
        } else {
            self.to(Action::Stop(Outcome::Complete))
        }
    }
}

/// The state of a job that has done nothing yet.
pub open spec fn fresh_job() -> JobState {
    JobState {
        pending: Action::PollCancel,
        input_ended: false,
        decoder_flushed: false,
        encoder_flushed: false,
        scaler: None,
        frames: 0,
    }
}

/// The state of a job after its pending action was answered.
pub open spec fn job_after(cfg: JobConfig, st: JobState, reply: i64) -> JobState {
    match st.pending {
        Action::PollCancel => if reply != 0 {
            st.to(Action::Stop(Outcome::Cancelled))
        } else if st.input_ended {
            st.packet_done()
        } else {
            st.to(Action::ReadPacket)
        },
        Action::ReadPacket => if reply < 0 {
            JobState { input_ended: true, ..st }.packet_done()
        } else {
            st.to(Action::PacketStream)
        },
        Action::PacketStream => if reply == cfg.video_in {
            st.to(Action::SendPacket)
        } else if reply == cfg.audio_in && cfg.audio_out >= 0 {
            st.to(Action::AudioTime)
        } else {
            st.to(Action::DropPacket)
        },
        Action::SendPacket => if reply < 0 && reply != AGAIN {
            st.fail(Fault::DecodeSend(reply))
        } else {
            st.packet_done()
        },
        Action::AudioTime => if reply < 0 {
            st.audio_at(cfg, -1)
        } else {
            st.to(Action::RescaleAudio(reply))
        },
        Action::RescaleAudio(_) => st.audio_at(cfg, reply as int),
        Action::WriteAudio => if reply < 0 {
            st.fail(Fault::AudioWrite(reply))
        } else {
            st.packet_done()
        },
        Action::DropPacket => st.packet_done(),
        Action::FlushDecoder => JobState { decoder_flushed: true, ..st }.to(Action::ReceiveFrame),
        Action::ReceiveFrame => if reply == AGAIN {
            st.to(Action::PollCancel)
        } else if reply == END {
            st.to(Action::FlushEncoder)
        } else if reply < 0 {
            st.fail(Fault::DecodeReceive(reply))
        } else {
            st.to(Action::FrameTime)
        },
        Action::FrameTime => if reply < 0 {
            st.frame_at(cfg, cfg.start_us as int)
        } else {
            st.to(Action::RescaleVideo(reply))
        },
        Action::RescaleVideo(_) => st.frame_at(cfg, reply as int),
        Action::DropFrame => st.to(Action::ReceiveFrame),
        Action::FrameFormat => if st.scaler == Some(reply) {
            st.to(Action::ScaleFrame)
        } else {
            JobState { scaler: None, ..st }.to(
                Action::OpenScaler { format: reply, replace: st.scaler is Some },
            )
        },
        Action::OpenScaler { format, .. } => if reply == 0 {
            st.fail(Fault::ScalerOpen)
        } else {
            JobState { scaler: Some(format), ..st }.to(Action::ScaleFrame)
        },
        Action::ScaleFrame => if reply <= 0 {
            st.fail(Fault::Scale)
        } else if cfg.effect {
            st.to(Action::ApplyEffect(st.frames))
        } else {
            st.to(Action::AllocFrame)
        },
        Action::ApplyEffect(_) => if reply != 0 {
            st.fail(Fault::Engine(reply))
        } else {
            st.to(Action::AllocFrame)
        },
        Action::AllocFrame => if reply == 0 {
            st.fail(Fault::FrameAlloc)
        } else {
            st.to(Action::SendFrame(st.frames))
        },
        Action::SendFrame(_) => if reply < 0 {
            st.fail(Fault::EncodeSend(reply))
        } else {
            let frames = (st.frames + 1) as i32;
            JobState { frames, ..st }.to(Action::Progress(frames, cfg.total))
        },
        Action::Progress(_, _) => st.to(Action::ReceiveEncoded),
        Action::ReceiveEncoded => if reply == AGAIN || reply == END {
            st.encoder_drained()
        } else if reply < 0 {
            st.fail(Fault::EncodeReceive(reply))
        } else {
            st.to(Action::WriteEncoded)
        },
        Action::WriteEncoded => if reply < 0 {
            st.fail(Fault::PacketWrite(reply))
        } else {
            st.to(Action::ReceiveEncoded)
        },
        Action::FlushEncoder => JobState { encoder_flushed: true, ..st }.to(Action::ReceiveEncoded),
        Action::Stop(_) => st,
    }
}

impl JobState {
    fn packet_next(self) -> (st: JobState)
        ensures
            st == self.packet_done(),
    {
        if self.input_ended && !self.decoder_flushed {
            JobState { pending: Action::FlushDecoder, ..self }
        } else {
            JobState { pending: Action::ReceiveFrame, ..self }
        }
    }

    fn stopped(self, fault: Fault) -> (st: JobState)
        ensures
            st == self.fail(fault),
    {
        JobState { pending: Action::Stop(Outcome::Failed(fault)), ..self }
    }

    fn with(self, pending: Action) -> (st: JobState)
        ensures
            st == self.to(pending),
    {
        JobState { pending, ..self }
    }
}

/// Whether a time lies in a stretch.
pub fn in_stretch(start_us: i64, end_us: i64, us: i64) -> (b: bool)
    ensures
        b == keeps(start_us as int, end_us as int, us as int),
{
    us >= start_us && (end_us >= OPEN_END || us < end_us)
}

/// Starts a job.
pub fn start_job() -> (st: JobState)
    ensures
        st == fresh_job(),
{
    JobState {
        pending: Action::PollCancel,
        input_ended: false,
        decoder_flushed: false,
        encoder_flushed: false,
        scaler: None,
        frames: 0,
    }
}

/// Goes on with a job once its pending action is answered. Frames must still be
/// countable.
pub fn step_job(cfg: &JobConfig, st: JobState, reply: i64) -> (next: JobState)
    requires
        st.pending is SendFrame && reply >= 0 ==> st.frames < i32::MAX,
    ensures
        next == job_after(*cfg, st, reply),
{
    match st.pending {
        Action::PollCancel => if reply != 0 {
            st.with(Action::Stop(Outcome::Cancelled))
        } else if st.input_ended {
            st.packet_next()
        } else {
            st.with(Action::ReadPacket)
        },
        Action::ReadPacket => if reply < 0 {
            JobState { input_ended: true, ..st }.packet_next()
        } else {
            st.with(Action::PacketStream)
        },
        Action::PacketStream => if reply == cfg.video_in as i64 {
            st.with(Action::SendPacket)
        } else if reply == cfg.audio_in as i64 && cfg.audio_out >= 0 {
            st.with(Action::AudioTime)
        } else {
            st.with(Action::DropPacket)
        },
        Action::SendPacket => if reply < 0 && reply != AGAIN {
            st.stopped(Fault::DecodeSend(reply))
        } else {
            st.packet_next()
        },
        Action::AudioTime => if reply >= 0 {
            st.with(Action::RescaleAudio(reply))
        } else if in_stretch(cfg.start_us, cfg.end_us, -1) {
            st.with(Action::WriteAudio)
        } else {
            st.with(Action::DropPacket)
        },
        Action::RescaleAudio(_) => if in_stretch(cfg.start_us, cfg.end_us, reply) {
            st.with(Action::WriteAudio)
        } else {
            st.with(Action::DropPacket)
        },
        Action::WriteAudio => if reply < 0 {
            st.stopped(Fault::AudioWrite(reply))
        } else {
            st.packet_next()
        },
        Action::DropPacket => st.packet_next(),
        Action::FlushDecoder => JobState { decoder_flushed: true, ..st }.with(Action::ReceiveFrame),
        Action::ReceiveFrame => if reply == AGAIN {
            st.with(Action::PollCancel)
        } else if reply == END {
            st.with(Action::FlushEncoder)
        } else if reply < 0 {
            st.stopped(Fault::DecodeReceive(reply))
        } else {
            st.with(Action::FrameTime)
        },
        Action::FrameTime => if reply >= 0 {
            st.with(Action::RescaleVideo(reply))
        } else if in_stretch(cfg.start_us, cfg.end_us, cfg.start_us) {
            st.with(Action::FrameFormat)
        } else {
            st.with(Action::DropFrame)
        },
        Action::RescaleVideo(_) => if in_stretch(cfg.start_us, cfg.end_us, reply) {
            st.with(Action::FrameFormat)
        } else {
            st.with(Action::DropFrame)
        },
        Action::DropFrame => st.with(Action::ReceiveFrame),
        Action::FrameFormat => match st.scaler {
            Some(format) if format == reply => st.with(Action::ScaleFrame),
            _ => JobState { scaler: None, ..st }.with(
                Action::OpenScaler { format: reply, replace: st.scaler.is_some() },
            ),
        },
        Action::OpenScaler { format, .. } => if reply == 0 {
            st.stopped(Fault::ScalerOpen)
        } else {
            JobState { scaler: Some(format), ..st }.with(Action::ScaleFrame)
        },
        Action::ScaleFrame => if reply <= 0 {
            st.stopped(Fault::Scale)
        } else if cfg.effect {
            st.with(Action::ApplyEffect(st.frames))
        } else {
            st.with(Action::AllocFrame)
        },
        Action::ApplyEffect(_) => if reply != 0 {
            st.stopped(Fault::Engine(reply))
        } else {
            st.with(Action::AllocFrame)
        },
        Action::AllocFrame => if reply == 0 {
            st.stopped(Fault::FrameAlloc)
        } else {
            st.with(Action::SendFrame(st.frames))
        },
        Action::SendFrame(_) => if reply < 0 {
            st.stopped(Fault::EncodeSend(reply))
        } else {
            let frames: i32 = st.frames + 1;
            JobState { frames, ..st }.with(Action::Progress(frames, cfg.total))
        },
        Action::Progress(_, _) => st.with(Action::ReceiveEncoded),
        Action::ReceiveEncoded => if reply == AGAIN || reply == END {
            if !st.encoder_flushed {
                st.with(Action::ReceiveFrame)
            } else if st.frames == 0 {
                st.stopped(Fault::NoFrames)
            } else {
                st.with(Action::Stop(Outcome::Complete))
            }
        } else if reply < 0 {
            st.stopped(Fault::EncodeReceive(reply))
        } else {
            st.with(Action::WriteEncoded)
        },
        Action::WriteEncoded => if reply < 0 {
            st.stopped(Fault::PacketWrite(reply))
        } else {
            st.with(Action::ReceiveEncoded)
        },
        Action::FlushEncoder => JobState { encoder_flushed: true, ..st }.with(
            Action::ReceiveEncoded,
        ),
        Action::Stop(_) => st,
    }
}

/// A message with a code in brackets behind it.
pub open spec fn coded(message: Seq<char>, code: int) -> Seq<char> {
    message + seq![' ', '('] + number_text(code) + seq![')']
}

/// The message of a fault.
pub open spec fn fault_text(f: Fault) -> Seq<char> {
    match f {
        Fault::DecodeSend(rc) => coded("decode send failed"@, rc as int),
        Fault::AudioWrite(rc) => coded("audio mux failed"@, rc as int),
        Fault::DecodeReceive(rc) => coded("decode receive failed"@, rc as int),
        Fault::ScalerOpen => "swscale init failed"@,
        Fault::Scale => "swscale failed"@,
        Fault::Engine(rc) => coded("engine error"@, rc as int),
        Fault::FrameAlloc => "frame alloc failed"@,
        Fault::EncodeSend(rc) => coded("x264 send failed"@, rc as int),
        Fault::EncodeReceive(rc) => coded("x264 receive failed"@, rc as int),
        Fault::PacketWrite(rc) => coded("mux write failed"@, rc as int),
        Fault::NoFrames => "no frames encoded"@,
    }
}

/// Builds a message with a code in brackets behind it.
pub(crate) fn coded_message(message: &str, code: i64) -> (s: String)
    ensures
        s@ == coded(message@, code as int),
{
    let mut s: String = message.to_owned();
    s.push(' ');
    s.push('(');
    push_number(&mut s, code);
    s.push(')');
    assert(s@ =~= coded(message@, code as int));
    s
}

impl Fault {
    /// The message of this fault.
    pub fn message(self) -> (s: String)
        ensures
            s@ == fault_text(self),
    {
        match self {
            Fault::DecodeSend(rc) => coded_message("decode send failed", rc),
            Fault::AudioWrite(rc) => coded_message("audio mux failed", rc),
            Fault::DecodeReceive(rc) => coded_message("decode receive failed", rc),
            Fault::ScalerOpen => "swscale init failed".to_owned(),
            Fault::Scale => "swscale failed".to_owned(),
            Fault::Engine(rc) => coded_message("engine error", rc),
            Fault::FrameAlloc => "frame alloc failed".to_owned(),
            Fault::EncodeSend(rc) => coded_message("x264 send failed", rc),
            Fault::EncodeReceive(rc) => coded_message("x264 receive failed", rc),
            Fault::PacketWrite(rc) => coded_message("mux write failed", rc),
            Fault::NoFrames => "no frames encoded".to_owned(),
        }
    }
}

impl Outcome {
    /// The result of a job that ended this way.
    pub fn result(self) -> (r: Result<(), RenderError>)
        ensures
            match self {
                Outcome::Complete => r is Ok,
                Outcome::Cancelled => r matches Err(RenderError::Cancelled),
                Outcome::Failed(fault) => failed_with(r, fault_text(fault)),
            },
    {
        match self {
            Outcome::Complete => Ok(()),
            Outcome::Cancelled => Err(RenderError::Cancelled),
            Outcome::Failed(fault) => Err(RenderError::Failed(fault.message())),
        }
    }
}

/// The state of a job after a row of answers.
pub open spec fn run(cfg: JobConfig, replies: Seq<i64>) -> JobState
    decreases replies.len(),
{
    if replies.len() == 0 {
        fresh_job()
    } else {
        job_after(cfg, run(cfg, replies.drop_last()), replies.last())
    }
}

/// How many of the answers were given to actions that `wanted` picks, with
/// answers that it accepts.
pub open spec fn times(
    cfg: JobConfig,
    replies: Seq<i64>,
    wanted: spec_fn(Action, i64) -> bool,
) -> int
    decreases replies.len(),
{
    if replies.len() == 0 {
        0
    } else {
        times(cfg, replies.drop_last(), wanted) + (if wanted(
            run(cfg, replies.drop_last()).pending,
            replies.last(),
        ) {
            1int
        } else {
            0
        })
    }
}

/// Picks frames that the encoder takes.
pub open spec fn frame_taken() -> spec_fn(Action, i64) -> bool {
    |a: Action, reply: i64| a is SendFrame && reply >= 0
}

/// What holds of a job at all times.
pub open spec fn coherent(cfg: JobConfig, st: JobState) -> bool {
    &&& st.frames >= 0
    &&& st.decoder_flushed ==> st.input_ended
    &&& match st.pending {
        Action::PollCancel => !st.encoder_flushed && (st.input_ended ==> st.decoder_flushed),
        // Packets are read, sent, written and dropped before the source ends.
        Action::ReadPacket
        | Action::PacketStream
        | Action::SendPacket
        | Action::AudioTime
        | Action::RescaleAudio(_)
        | Action::WriteAudio
        | Action::DropPacket => !st.input_ended && !st.encoder_flushed,
        // The decoder is flushed at the end of the source and not before.
        Action::FlushDecoder => st.input_ended && !st.decoder_flushed && !st.encoder_flushed,
        Action::ReceiveFrame
        | Action::FrameTime
        | Action::RescaleVideo(_)
        | Action::DropFrame
        | Action::FrameFormat => !st.encoder_flushed && (st.input_ended ==> st.decoder_flushed),
        // Only one scaler is open at a time.
        Action::OpenScaler { .. } => !st.encoder_flushed && st.scaler is None && (st.input_ended
            ==> st.decoder_flushed),
        Action::ScaleFrame | Action::AllocFrame => !st.encoder_flushed && st.scaler is Some && (
        st.input_ended ==> st.decoder_flushed),
        // Frames are numbered by the frames before them.
        Action::ApplyEffect(n) => !st.encoder_flushed && st.scaler is Some && n == st.frames && (
        st.input_ended ==> st.decoder_flushed) && cfg.effect,
        Action::SendFrame(n) => !st.encoder_flushed && st.scaler is Some && n == st.frames && (
        st.input_ended ==> st.decoder_flushed),
        Action::Progress(done, total) => !st.encoder_flushed && done == st.frames && done > 0
            && total == cfg.total && (st.input_ended ==> st.decoder_flushed),
        Action::ReceiveEncoded | Action::WriteEncoded => st.encoder_flushed || (st.input_ended
            ==> st.decoder_flushed),
        Action::FlushEncoder => !st.encoder_flushed,
        // A complete file has frames and everything the encoder held back.
        Action::Stop(Outcome::Complete) => st.frames > 0 && st.encoder_flushed,
        Action::Stop(Outcome::Failed(Fault::NoFrames)) => st.frames == 0 && st.encoder_flushed,
        Action::Stop(_) => true,
    }
}

/// A job starts coherent, and every answer keeps it so as long as frames can be
/// counted.
pub proof fn law_job_stays_coherent(cfg: JobConfig, st: JobState, reply: i64)
    requires
        coherent(cfg, st),
        st.pending is SendFrame && reply >= 0 ==> st.frames < i32::MAX,
    ensures
        coherent(cfg, fresh_job()),
        coherent(cfg, job_after(cfg, st, reply)),
{
}

proof fn lemma_run(cfg: JobConfig, replies: Seq<i64>)
    requires
        times(cfg, replies, frame_taken()) <= i32::MAX,
    ensures
        coherent(cfg, run(cfg, replies)),
        run(cfg, replies).frames == times(cfg, replies, frame_taken()),
    decreases replies.len(),
{
    if replies.len() > 0 {
        lemma_run(cfg, replies.drop_last());
        law_job_stays_coherent(cfg, run(cfg, replies.drop_last()), replies.last());
    }
}

/// Whatever the answers are, a job is coherent, and it counts the frames that the
/// encoder took. So frames are stamped 0, 1, 2 and so on, without gap or
/// repetition, and progress is reported as 1, 2, 3 and so on.
pub proof fn law_frames_are_numbered(cfg: JobConfig, replies: Seq<i64>)
    requires
        times(cfg, replies, frame_taken()) <= i32::MAX,
    ensures
        coherent(cfg, run(cfg, replies)),
        run(cfg, replies).frames == times(cfg, replies, frame_taken()),
        run(cfg, replies).pending matches Action::SendFrame(n) ==> n == times(
            cfg,
            replies,
            frame_taken(),
        ),
        run(cfg, replies).pending matches Action::Progress(done, total) ==> done == times(
            cfg,
            replies,
            frame_taken(),
        ) && total == cfg.total,
{
    lemma_run(cfg, replies);
}

/// Each codec is told at most once that nothing follows.
pub proof fn law_flushed_once(cfg: JobConfig, replies: Seq<i64>)
    requires
        times(cfg, replies, frame_taken()) <= i32::MAX,
    ensures
        times(cfg, replies, |a: Action, reply: i64| a is FlushDecoder) == (if run(
            cfg,
            replies,
        ).decoder_flushed {
            1int
        } else {
            0
        }),
        times(cfg, replies, |a: Action, reply: i64| a is FlushEncoder) == (if run(
            cfg,
            replies,
        ).encoder_flushed {
            1int
        } else {
            0
        }),
    decreases replies.len(),
{
    if replies.len() > 0 {
        law_flushed_once(cfg, replies.drop_last());
        lemma_run(cfg, replies.drop_last());
    }
}

/// Once a job has stopped, no answer changes it any more.
pub proof fn law_stop_is_final(cfg: JobConfig, replies: Seq<i64>, more: Seq<i64>)
    requires
        run(cfg, replies).pending is Stop,
    ensures
        run(cfg, replies + more) == run(cfg, replies),
    decreases more.len(),
{
    if more.len() == 0 {
        assert(replies + more =~= replies);
    } else {
        law_stop_is_final(cfg, replies, more.drop_last());
        assert((replies + more).drop_last() =~= replies + more.drop_last());
    }
}

/// A job ends as cancelled exactly when a look at the cancel flag found it set.
pub proof fn law_cancelled_iff_asked(cfg: JobConfig, replies: Seq<i64>)
    ensures
        run(cfg, replies).pending == Action::Stop(Outcome::Cancelled) <==> times(
            cfg,
            replies,
            |a: Action, reply: i64| a is PollCancel && reply != 0,
        ) > 0,
    decreases replies.len(),
{
    let asked = |a: Action, reply: i64| a is PollCancel && reply != 0;
    if replies.len() > 0 {
        law_cancelled_iff_asked(cfg, replies.drop_last());
        lemma_times_nonnegative(cfg, replies.drop_last(), asked);
    }
}

proof fn lemma_times_nonnegative(
    cfg: JobConfig,
    replies: Seq<i64>,
    wanted: spec_fn(Action, i64) -> bool,
)
    ensures
        0 <= times(cfg, replies, wanted),
    decreases replies.len(),
{
    if replies.len() > 0 {
        lemma_times_nonnegative(cfg, replies.drop_last(), wanted);
    }
}

/// Sound and picture are trimmed alike: at the same time of the source, an audio
/// packet is written exactly when a picture is used, and that is when the time
/// lies in the stretch.
pub proof fn law_sound_and_picture_trimmed_alike(
    cfg: JobConfig,
    st: JobState,
    a: i64,
    v: i64,
    us: i64,
)
    ensures
        job_after(cfg, st.to(Action::RescaleAudio(a)), us).pending == Action::WriteAudio <==> keeps(
            cfg.start_us as int,
            cfg.end_us as int,
            us as int,
        ),
        job_after(cfg, st.to(Action::RescaleVideo(v)), us).pending == Action::FrameFormat
            <==> keeps(
            cfg.start_us as int,
            cfg.end_us as int,
            us as int,
        ),
{
}

/// Picks pictures of the source that lie in the stretch; one without a time
/// counts as one at the start.
pub open spec fn picture_in_stretch(cfg: JobConfig) -> spec_fn(Action, i64) -> bool {
    |a: Action, reply: i64|
        (a is RescaleVideo && keeps(cfg.start_us as int, cfg.end_us as int, reply as int)) || (
        a is FrameTime && reply < 0 && keeps(
            cfg.start_us as int,
            cfg.end_us as int,
            cfg.start_us as int,
        ))
}

/// Picks packets that the encoder gives.
pub open spec fn packet_given() -> spec_fn(Action, i64) -> bool {
    |a: Action, reply: i64| a is ReceiveEncoded && reply >= 0
}

/// Picks encoded packets that go into the file.
pub open spec fn packet_written() -> spec_fn(Action, i64) -> bool {
    |a: Action, reply: i64| a is WriteEncoded && reply >= 0
}

/// Picks audio packets that lie in the stretch.
pub open spec fn sound_in_stretch(cfg: JobConfig) -> spec_fn(Action, i64) -> bool {
    |a: Action, reply: i64|
        a is RescaleAudio && keeps(cfg.start_us as int, cfg.end_us as int, reply as int)
}

/// Picks audio packets that go into the file.
pub open spec fn sound_written() -> spec_fn(Action, i64) -> bool {
    |a: Action, reply: i64| a is WriteAudio && reply >= 0
}

/// Holds while a picture is on its way to the encoder.
pub open spec fn picture_in_work(a: Action) -> bool {
    a is FrameFormat || a is OpenScaler || a is ScaleFrame || a is ApplyEffect || a is AllocFrame
        || a is SendFrame
}

proof fn lemma_nothing_lost(cfg: JobConfig, replies: Seq<i64>)
    requires
        times(cfg, replies, frame_taken()) <= i32::MAX,
        !(run(cfg, replies).pending matches Action::Stop(Outcome::Failed(_))),
    ensures
        times(cfg, replies, picture_in_stretch(cfg)) == run(cfg, replies).frames + (
        if picture_in_work(run(cfg, replies).pending) {
            1int
        } else {
            0
        }),
        times(cfg, replies, packet_given()) == times(cfg, replies, packet_written()) + (if run(
            cfg,
            replies,
        ).pending is WriteEncoded {
            1int
        } else {
            0
        }),
        run(cfg, replies).encoder_flushed || run(cfg, replies).pending is FlushEncoder ==> times(
            cfg,
            replies,
            |a: Action, reply: i64| a is ReceiveFrame && reply == END,
        ) > 0,
    decreases replies.len(),
{
    if replies.len() > 0 {
        lemma_nothing_lost(cfg, replies.drop_last());
        lemma_run(cfg, replies.drop_last());
        lemma_times_nonnegative(
            cfg,
            replies.drop_last(),
            |a: Action, reply: i64| a is ReceiveFrame && reply == END,
        );
    }
}

proof fn lemma_no_sound_lost(cfg: JobConfig, replies: Seq<i64>)
    requires
        cfg.start_us >= 0,
        !(run(cfg, replies).pending matches Action::Stop(Outcome::Failed(_))),
    ensures
        times(cfg, replies, sound_in_stretch(cfg)) == times(cfg, replies, sound_written()) + (
        if run(cfg, replies).pending is WriteAudio {
            1int
        } else {
            0
        }),
    decreases replies.len(),
{
    if replies.len() > 0 {
        lemma_no_sound_lost(cfg, replies.drop_last());
    }
}

/// When a job is complete, as many audio packets are in the file as lie in the
/// stretch: no sound is lost.
pub proof fn law_complete_job_copied_the_sound(cfg: JobConfig, replies: Seq<i64>)
    requires
        cfg.start_us >= 0,
        run(cfg, replies).pending == Action::Stop(Outcome::Complete),
    ensures
        times(cfg, replies, sound_in_stretch(cfg)) == times(cfg, replies, sound_written()),
{
    lemma_no_sound_lost(cfg, replies);
}

/// When a job is complete, the decoder has given all it had, every picture in the
/// stretch has become a frame, there is at least one, and every packet that the
/// encoder gave is in the file.
pub proof fn law_complete_job_lost_nothing(cfg: JobConfig, replies: Seq<i64>)
    requires
        times(cfg, replies, frame_taken()) <= i32::MAX,
        run(cfg, replies).pending == Action::Stop(Outcome::Complete),
    ensures
        times(cfg, replies, |a: Action, reply: i64| a is ReceiveFrame && reply == END) > 0,
        times(cfg, replies, picture_in_stretch(cfg)) == times(cfg, replies, frame_taken()),
        times(cfg, replies, frame_taken()) > 0,
        times(cfg, replies, packet_given()) == times(cfg, replies, packet_written()),
{
    lemma_run(cfg, replies);
    lemma_nothing_lost(cfg, replies);
}

/// The messages of faults, with the code in brackets where there is one.
pub proof fn law_fault_texts(rc: i64)
    ensures
        fault_text(Fault::DecodeSend(rc))
            == "decode send failed ("@ + number_text(rc as int) + ")"@,
        fault_text(Fault::AudioWrite(rc)) == "audio mux failed ("@ + number_text(rc as int) + ")"@,
        fault_text(Fault::DecodeReceive(rc))
            == "decode receive failed ("@ + number_text(rc as int) + ")"@,
        fault_text(Fault::ScalerOpen) == "swscale init failed"@,
        fault_text(Fault::Scale) == "swscale failed"@,
        fault_text(Fault::Engine(rc)) == "engine error ("@ + number_text(rc as int) + ")"@,
        fault_text(Fault::FrameAlloc) == "frame alloc failed"@,
        fault_text(Fault::EncodeSend(rc)) == "x264 send failed ("@ + number_text(rc as int) + ")"@,
        fault_text(Fault::EncodeReceive(rc))
            == "x264 receive failed ("@ + number_text(rc as int) + ")"@,
        fault_text(Fault::PacketWrite(rc)) == "mux write failed ("@ + number_text(rc as int) + ")"@,
        fault_text(Fault::NoFrames) == "no frames encoded"@,
{
    reveal_strlit(")");
    reveal_strlit("decode send failed");
    reveal_strlit("decode send failed (");
    assert(coded("decode send failed"@, rc as int) =~= "decode send failed ("@ + number_text(
        rc as int,
    ) + ")"@);
    reveal_strlit("audio mux failed");
    reveal_strlit("audio mux failed (");
    assert(coded("audio mux failed"@, rc as int) =~= "audio mux failed ("@ + number_text(
        rc as int,
    ) + ")"@);
    reveal_strlit("decode receive failed");
    reveal_strlit("decode receive failed (");
    assert(coded("decode receive failed"@, rc as int) =~= "decode receive failed ("@ + number_text(
        rc as int,
    ) + ")"@);
    reveal_strlit("engine error");
    reveal_strlit("engine error (");
    assert(coded("engine error"@, rc as int) =~= "engine error ("@ + number_text(
        rc as int,
    ) + ")"@);
    reveal_strlit("x264 send failed");
    reveal_strlit("x264 send failed (");
    assert(coded("x264 send failed"@, rc as int) =~= "x264 send failed ("@ + number_text(
        rc as int,
    ) + ")"@);
    reveal_strlit("x264 receive failed");
    reveal_strlit("x264 receive failed (");
    assert(coded("x264 receive failed"@, rc as int) =~= "x264 receive failed ("@ + number_text(
        rc as int,
    ) + ")"@);
    reveal_strlit("mux write failed");
    reveal_strlit("mux write failed (");
    assert(coded("mux write failed"@, rc as int) =~= "mux write failed ("@ + number_text(
        rc as int,
    ) + ")"@);
}

/// A job starts by looking at the cancel flag, with nothing read, opened, flushed or
/// encoded.
pub proof fn law_job_starts_fresh()
    ensures
        fresh_job().pending == Action::PollCancel,
        !fresh_job().input_ended,
        !fresh_job().decoder_flushed,
        !fresh_job().encoder_flushed,
        fresh_job().scaler is None,
        fresh_job().frames == 0,
{
}

/// Packets of the source. Each goes to the decoder, to the sound or away by its
/// stream; at the end of the source the decoder is flushed once; after each packet
/// the decoder is asked for pictures. A decoder that cannot take more right now is
/// no fault.
pub proof fn law_packets_are_routed(cfg: JobConfig, st: JobState, reply: i64)
    ensures
        st.pending == Action::ReadPacket && reply >= 0
            ==> job_after(cfg, st, reply) == (JobState { pending: Action::PacketStream, ..st }),
        st.pending == Action::ReadPacket && reply < 0 && !st.decoder_flushed
            ==> job_after(cfg, st, reply)
                == (JobState { pending: Action::FlushDecoder, input_ended: true, ..st }),
        st.pending == Action::ReadPacket && reply < 0 && st.decoder_flushed
            ==> job_after(cfg, st, reply)
                == (JobState { pending: Action::ReceiveFrame, input_ended: true, ..st }),
        st.pending == Action::PacketStream && reply == cfg.video_in
            ==> job_after(cfg, st, reply) == (JobState { pending: Action::SendPacket, ..st }),
        st.pending == Action::PacketStream
            && reply != cfg.video_in
            && reply == cfg.audio_in
            && cfg.audio_out >= 0
            ==> job_after(cfg, st, reply) == (JobState { pending: Action::AudioTime, ..st }),
        st.pending == Action::PacketStream
            && reply != cfg.video_in
            && (reply != cfg.audio_in || cfg.audio_out < 0)
            ==> job_after(cfg, st, reply) == (JobState { pending: Action::DropPacket, ..st }),
        st.pending == Action::SendPacket && reply < 0 && reply != -11
            ==> job_after(cfg, st, reply)
                == (
                    JobState {
                        pending: Action::Stop(Outcome::Failed(Fault::DecodeSend(reply))),
                        ..st
                    }
                ),
        st.pending == Action::SendPacket
            && (reply >= 0 || reply == -11)
            && !(st.input_ended && !st.decoder_flushed)
            ==> job_after(cfg, st, reply) == (JobState { pending: Action::ReceiveFrame, ..st }),
        st.pending == Action::DropPacket && !(st.input_ended && !st.decoder_flushed)
            ==> job_after(cfg, st, reply) == (JobState { pending: Action::ReceiveFrame, ..st }),
        (
            st.pending == Action::DropPacket
                || st.pending == Action::SendPacket && (reply >= 0 || reply == -11)
                || st.pending == Action::WriteAudio && reply >= 0
        )
            && st.input_ended
            && !st.decoder_flushed
            ==> job_after(cfg, st, reply) == (JobState { pending: Action::FlushDecoder, ..st }),
        st.pending == Action::FlushDecoder
            ==> job_after(cfg, st, reply)
                == (JobState { pending: Action::ReceiveFrame, decoder_flushed: true, ..st }),
{
}

/// Sound of the source. A packet is written exactly when its time lies in the
/// stretch, and one without a time counts as one just before zero.
pub proof fn law_sound_is_trimmed(cfg: JobConfig, st: JobState, reply: i64)
    ensures
        st.pending == Action::AudioTime && reply >= 0
            ==> job_after(cfg, st, reply) == (JobState { pending: Action::RescaleAudio(reply), ..st }),
        st.pending == Action::AudioTime && reply < 0 && cfg.start_us >= 0
            ==> job_after(cfg, st, reply) == (JobState { pending: Action::DropPacket, ..st }),
        st.pending == Action::AudioTime && reply < 0 && cfg.start_us < 0 && (cfg.end_us >= 0)
            ==> job_after(cfg, st, reply) == (JobState { pending: Action::WriteAudio, ..st }),
        st.pending == Action::AudioTime && reply < 0 && cfg.end_us < 0
            ==> job_after(cfg, st, reply) == (JobState { pending: Action::DropPacket, ..st }),
        st.pending is RescaleAudio
            && (cfg.start_us <= reply && (reply < cfg.end_us || cfg.end_us >= 4611686018427387903))
            ==> job_after(cfg, st, reply) == (JobState { pending: Action::WriteAudio, ..st }),
        st.pending is RescaleAudio
            && !(cfg.start_us <= reply && (reply < cfg.end_us || cfg.end_us >= 4611686018427387903))
            ==> job_after(cfg, st, reply) == (JobState { pending: Action::DropPacket, ..st }),
        st.pending == Action::WriteAudio && reply < 0
            ==> job_after(cfg, st, reply)
                == (
                    JobState {
                        pending: Action::Stop(Outcome::Failed(Fault::AudioWrite(reply))),
                        ..st
                    }
                ),
        st.pending == Action::WriteAudio && reply >= 0 && !(st.input_ended && !st.decoder_flushed)
            ==> job_after(cfg, st, reply) == (JobState { pending: Action::ReceiveFrame, ..st }),
{
}

/// Pictures of the source. One outside the stretch is dropped and one without a time
/// stands at its start; the scaler is replaced when the pixel format changes; the
/// effect, where it is on, is applied to every scaled picture before it is encoded.
pub proof fn law_pictures_are_worked_on(cfg: JobConfig, st: JobState, reply: i64)
    ensures
        st.pending == Action::ReceiveFrame && reply >= 0
            ==> job_after(cfg, st, reply) == (JobState { pending: Action::FrameTime, ..st }),
        st.pending == Action::ReceiveFrame && reply == -11
            ==> job_after(cfg, st, reply) == (JobState { pending: Action::PollCancel, ..st }),
        st.pending == Action::ReceiveFrame && reply == -541478725
            ==> job_after(cfg, st, reply) == (JobState { pending: Action::FlushEncoder, ..st }),
        st.pending == Action::ReceiveFrame && reply < 0 && reply != -11 && reply != -541478725
            ==> job_after(cfg, st, reply)
                == (
                    JobState {
                        pending: Action::Stop(Outcome::Failed(Fault::DecodeReceive(reply))),
                        ..st
                    }
                ),
        st.pending == Action::FrameTime && reply >= 0
            ==> job_after(cfg, st, reply) == (JobState { pending: Action::RescaleVideo(reply), ..st }),
        st.pending == Action::FrameTime
            && reply < 0
            && (cfg.start_us < cfg.end_us || cfg.end_us >= 4611686018427387903)
            ==> job_after(cfg, st, reply) == (JobState { pending: Action::FrameFormat, ..st }),
        st.pending == Action::FrameTime
            && reply < 0
            && cfg.start_us >= cfg.end_us
            && cfg.end_us < 4611686018427387903
            ==> job_after(cfg, st, reply) == (JobState { pending: Action::DropFrame, ..st }),
        st.pending is RescaleVideo
            && (cfg.start_us <= reply && (reply < cfg.end_us || cfg.end_us >= 4611686018427387903))
            ==> job_after(cfg, st, reply) == (JobState { pending: Action::FrameFormat, ..st }),
        st.pending is RescaleVideo
            && !(cfg.start_us <= reply && (reply < cfg.end_us || cfg.end_us >= 4611686018427387903))
            ==> job_after(cfg, st, reply) == (JobState { pending: Action::DropFrame, ..st }),
        st.pending == Action::DropFrame
            ==> job_after(cfg, st, reply) == (JobState { pending: Action::ReceiveFrame, ..st }),
        st.pending == Action::FrameFormat && st.scaler == Some(reply)
            ==> job_after(cfg, st, reply) == (JobState { pending: Action::ScaleFrame, ..st }),
        st.pending == Action::FrameFormat && st.scaler is None
            ==> job_after(cfg, st, reply)
                == (
                    JobState {
                        pending: Action::OpenScaler { format: reply, replace: false },
                        scaler: None,
                        ..st
                    }
                ),
        st.pending == Action::FrameFormat && st.scaler is Some && st.scaler->0 != reply
            ==> job_after(cfg, st, reply)
                == (
                    JobState {
                        pending: Action::OpenScaler { format: reply, replace: true },
                        scaler: None,
                        ..st
                    }
                ),
        st.pending is OpenScaler && reply == 0
            ==> job_after(cfg, st, reply)
                == (JobState { pending: Action::Stop(Outcome::Failed(Fault::ScalerOpen)), ..st }),
        st.pending is OpenScaler && reply != 0
            ==> job_after(cfg, st, reply)
                == (
                    JobState {
                        pending: Action::ScaleFrame,
                        scaler: Some(st.pending->OpenScaler_format),
                        ..st
                    }
                ),
        st.pending == Action::ScaleFrame && reply <= 0
            ==> job_after(cfg, st, reply)
                == (JobState { pending: Action::Stop(Outcome::Failed(Fault::Scale)), ..st }),
        st.pending == Action::ScaleFrame && reply > 0 && cfg.effect
            ==> job_after(cfg, st, reply)
                == (JobState { pending: Action::ApplyEffect(st.frames), ..st }),
        st.pending == Action::ScaleFrame && reply > 0 && !cfg.effect
            ==> job_after(cfg, st, reply) == (JobState { pending: Action::AllocFrame, ..st }),
        st.pending is ApplyEffect && reply != 0
            ==> job_after(cfg, st, reply)
                == (JobState { pending: Action::Stop(Outcome::Failed(Fault::Engine(reply))), ..st }),
        st.pending is ApplyEffect && reply == 0
            ==> job_after(cfg, st, reply) == (JobState { pending: Action::AllocFrame, ..st }),
{
}

/// The encoder. Frames are handed over under their number and counted; progress is
/// reported for each; after each frame, and after the flush, every packet is taken
/// and written until there is none. Only then is the file complete, if it has a
/// frame.
pub proof fn law_frames_are_encoded(cfg: JobConfig, st: JobState, reply: i64)
    ensures
        st.pending == Action::AllocFrame && reply == 0
            ==> job_after(cfg, st, reply)
                == (JobState { pending: Action::Stop(Outcome::Failed(Fault::FrameAlloc)), ..st }),
        st.pending == Action::AllocFrame && reply != 0
            ==> job_after(cfg, st, reply) == (JobState { pending: Action::SendFrame(st.frames), ..st }),
        st.pending is SendFrame && reply < 0
            ==> job_after(cfg, st, reply)
                == (
                    JobState {
                        pending: Action::Stop(Outcome::Failed(Fault::EncodeSend(reply))),
                        ..st
                    }
                ),
        st.pending is SendFrame && reply >= 0 && st.frames < i32::MAX
            ==> job_after(cfg, st, reply)
                == (
                    JobState {
                        pending: Action::Progress((st.frames + 1) as i32, cfg.total),
                        frames: (st.frames + 1) as i32,
                        ..st
                    }
                ),
        st.pending is Progress
            ==> job_after(cfg, st, reply) == (JobState { pending: Action::ReceiveEncoded, ..st }),
        st.pending == Action::ReceiveEncoded && reply >= 0
            ==> job_after(cfg, st, reply) == (JobState { pending: Action::WriteEncoded, ..st }),
        st.pending == Action::ReceiveEncoded && reply < 0 && reply != -11 && reply != -541478725
            ==> job_after(cfg, st, reply)
                == (
                    JobState {
                        pending: Action::Stop(Outcome::Failed(Fault::EncodeReceive(reply))),
                        ..st
                    }
                ),
        st.pending == Action::ReceiveEncoded
            && (reply == -11 || reply == -541478725)
            && !st.encoder_flushed
            ==> job_after(cfg, st, reply) == (JobState { pending: Action::ReceiveFrame, ..st }),
        st.pending == Action::ReceiveEncoded
            && (reply == -11 || reply == -541478725)
            && st.encoder_flushed
            && st.frames != 0
            ==> job_after(cfg, st, reply)
                == (JobState { pending: Action::Stop(Outcome::Complete), ..st }),
        st.pending == Action::ReceiveEncoded
            && (reply == -11 || reply == -541478725)
            && st.encoder_flushed
            && st.frames == 0
            ==> job_after(cfg, st, reply)
                == (JobState { pending: Action::Stop(Outcome::Failed(Fault::NoFrames)), ..st }),
        st.pending == Action::WriteEncoded && reply < 0
            ==> job_after(cfg, st, reply)
                == (
                    JobState {
                        pending: Action::Stop(Outcome::Failed(Fault::PacketWrite(reply))),
                        ..st
                    }
                ),
        st.pending == Action::WriteEncoded && reply >= 0
            ==> job_after(cfg, st, reply) == (JobState { pending: Action::ReceiveEncoded, ..st }),
        st.pending == Action::FlushEncoder
            ==> job_after(cfg, st, reply)
                == (JobState { pending: Action::ReceiveEncoded, encoder_flushed: true, ..st }),
{
}

/// Cancelling. A job that is asked to stop stops before it reads on, and one that
/// has stopped stays so.
pub proof fn law_cancel_is_heeded(cfg: JobConfig, st: JobState, reply: i64)
    ensures
        st.pending == Action::PollCancel && reply != 0
            ==> job_after(cfg, st, reply)
                == (JobState { pending: Action::Stop(Outcome::Cancelled), ..st }),
        st.pending == Action::PollCancel && reply == 0 && !st.input_ended
            ==> job_after(cfg, st, reply) == (JobState { pending: Action::ReadPacket, ..st }),
        st.pending == Action::PollCancel && reply == 0 && st.input_ended && st.decoder_flushed
            ==> job_after(cfg, st, reply) == (JobState { pending: Action::ReceiveFrame, ..st }),
        st.pending == Action::PollCancel && reply == 0 && st.input_ended && !st.decoder_flushed
            ==> job_after(cfg, st, reply) == (JobState { pending: Action::FlushDecoder, ..st }),
        st.pending is Stop ==> job_after(cfg, st, reply) == st,
{
}

/// Every frame has had the effect: where it is on, the pictures that came through
/// the effect are those that the encoder took, and the one on its way to it. Where it
/// is off, it is never applied.
pub proof fn law_effect_on_every_frame(cfg: JobConfig, replies: Seq<i64>)
    ensures
        cfg.effect
            ==> times(cfg, replies, |a: Action, reply: i64| a is ApplyEffect && reply == 0)
                == times(cfg, replies, |a: Action, reply: i64| a is SendFrame && reply >= 0)
                    + (if run(cfg, replies).pending is AllocFrame
                            || run(cfg, replies).pending is SendFrame
                            || run(cfg, replies).pending
                                == Action::Stop(Outcome::Failed(Fault::FrameAlloc))
                            || run(
                                cfg,
                                replies,
                            ).pending matches Action::Stop(Outcome::Failed(Fault::EncodeSend(_))) {
                        1int
                    } else {
                        0
                    }),
        !cfg.effect ==> times(cfg, replies, |a: Action, reply: i64| a is ApplyEffect) == 0,
        times(cfg, replies, |a: Action, reply: i64| a is ScaleFrame && reply > 0)
            == times(cfg, replies, |a: Action, reply: i64| a is SendFrame && reply >= 0)
                + (if run(cfg, replies).pending is ApplyEffect
                        || run(cfg, replies).pending is AllocFrame
                        || run(cfg, replies).pending is SendFrame
                        || run(cfg, replies).pending == Action::Stop(Outcome::Failed(Fault::FrameAlloc))
                        || run(
                            cfg,
                            replies,
                        ).pending matches Action::Stop(Outcome::Failed(Fault::EncodeSend(_)))
                        || run(
                            cfg,
                            replies,
                        ).pending matches Action::Stop(Outcome::Failed(Fault::Engine(_))) {
                    1int
                } else {
                    0
                }),
    decreases replies.len(),
{
    if replies.len() > 0 {
        law_effect_on_every_frame(cfg, replies.drop_last());
    }
}

/// A complete job has applied the effect to as many pictures as it encoded where the
/// effect is on, and to none where it is off.
pub proof fn law_complete_job_is_processed(cfg: JobConfig, replies: Seq<i64>)
    requires
        run(cfg, replies).pending == Action::Stop(Outcome::Complete),
    ensures
        times(cfg, replies, |a: Action, reply: i64| a is ApplyEffect && reply == 0)
            == (if cfg.effect {
                times(cfg, replies, |a: Action, reply: i64| a is SendFrame && reply >= 0)
            } else {
                0
            }),
{
    law_effect_on_every_frame(cfg, replies);
    lemma_fewer_times(
        cfg,
        replies,
        |a: Action, reply: i64| a is ApplyEffect && reply == 0,
        |a: Action, reply: i64| a is ApplyEffect,
    );
}

proof fn lemma_fewer_times(
    cfg: JobConfig,
    replies: Seq<i64>,
    few: spec_fn(Action, i64) -> bool,
    many: spec_fn(Action, i64) -> bool,
)
    requires
        forall|a: Action, reply: i64| #[trigger] few(a, reply) ==> many(a, reply),
    ensures
        0 <= times(cfg, replies, few) <= times(cfg, replies, many),
    decreases replies.len(),
{
    if replies.len() > 0 {
        lemma_fewer_times(cfg, replies.drop_last(), few, many);
    }
}

/// No packet of the source is lost: each one that was read went to the decoder, into
/// the file, or away, or is still at hand. The decoder got exactly the packets of the
/// video stream, and sound was looked at exactly where there is a place for it.
pub proof fn law_packets_are_accounted_for(cfg: JobConfig, replies: Seq<i64>)
    ensures
        times(cfg, replies, |a: Action, reply: i64| a is ReadPacket && reply >= 0)
            == times(cfg, replies, |a: Action, reply: i64| a is SendPacket)
                + times(cfg, replies, |a: Action, reply: i64| a is WriteAudio)
                + times(cfg, replies, |a: Action, reply: i64| a is DropPacket)
                + (if run(cfg, replies).pending is PacketStream
                        || run(cfg, replies).pending is SendPacket
                        || run(cfg, replies).pending is AudioTime
                        || run(cfg, replies).pending is RescaleAudio
                        || run(cfg, replies).pending is WriteAudio
                        || run(cfg, replies).pending is DropPacket {
                    1int
                } else {
                    0
                }),
        times(cfg, replies, |a: Action, reply: i64| a is PacketStream && reply == cfg.video_in)
            == times(cfg, replies, |a: Action, reply: i64| a is SendPacket)
                + (if run(cfg, replies).pending is SendPacket { 1int } else { 0 }),
        times(
            cfg,
            replies,
            |a: Action, reply: i64|
                a is PacketStream
                    && reply != cfg.video_in
                    && reply == cfg.audio_in
                    && cfg.audio_out >= 0,
        )
            == times(cfg, replies, |a: Action, reply: i64| a is AudioTime)
                + (if run(cfg, replies).pending is AudioTime { 1int } else { 0 }),
    decreases replies.len(),
{
    if replies.len() > 0 {
        law_packets_are_accounted_for(cfg, replies.drop_last());
    }
}

/// No picture of the decoder is lost: each one was dropped or scaled, or is still at
/// hand.
pub proof fn law_pictures_are_accounted_for(cfg: JobConfig, replies: Seq<i64>)
    ensures
        times(cfg, replies, |a: Action, reply: i64| a is ReceiveFrame && reply >= 0)
            == times(cfg, replies, |a: Action, reply: i64| a is DropFrame)
                + times(cfg, replies, |a: Action, reply: i64| a is ScaleFrame)
                + (if run(cfg, replies).pending is FrameTime
                        || run(cfg, replies).pending is RescaleVideo
                        || run(cfg, replies).pending is DropFrame
                        || run(cfg, replies).pending is FrameFormat
                        || run(cfg, replies).pending is OpenScaler
                        || run(cfg, replies).pending is ScaleFrame
                        || run(cfg, replies).pending == Action::Stop(Outcome::Failed(Fault::ScalerOpen)) {
                    1int
                } else {
                    0
                }),
    decreases replies.len(),
{
    if replies.len() > 0 {
        law_pictures_are_accounted_for(cfg, replies.drop_last());
    }
}

/// Progress is reported once for each frame that the encoder took.
pub proof fn law_progress_for_each_frame(cfg: JobConfig, replies: Seq<i64>)
    ensures
        times(cfg, replies, |a: Action, reply: i64| a is SendFrame && reply >= 0)
            == times(cfg, replies, |a: Action, reply: i64| a is Progress)
                + (if run(cfg, replies).pending is Progress { 1int } else { 0 }),
    decreases replies.len(),
{
    if replies.len() > 0 {
        law_progress_for_each_frame(cfg, replies.drop_last());
    }
}

/// The encoder is emptied after each frame and after the flush: it was found empty
/// once for each of these, unless it is being emptied now.
pub proof fn law_encoder_is_emptied(cfg: JobConfig, replies: Seq<i64>)
    ensures
        times(cfg, replies, |a: Action, reply: i64| a is SendFrame && reply >= 0)
            + times(cfg, replies, |a: Action, reply: i64| a is FlushEncoder)
            == times(
                cfg,
                replies,
                |a: Action, reply: i64|
                    a is ReceiveEncoded && (reply == -11 || reply == -541478725),
            )
                + (if run(cfg, replies).pending is Progress
                        || run(cfg, replies).pending is ReceiveEncoded
                        || run(cfg, replies).pending is WriteEncoded
                        || run(
                            cfg,
                            replies,
                        ).pending matches Action::Stop(Outcome::Failed(Fault::EncodeReceive(_)))
                        || run(
                            cfg,
                            replies,
                        ).pending matches Action::Stop(Outcome::Failed(Fault::PacketWrite(_))) {
                    1int
                } else {
                    0
                }),
        run(cfg, replies).pending == Action::Stop(Outcome::Complete)
            ==> times(cfg, replies, |a: Action, reply: i64| a is FlushEncoder) == 1,
    decreases replies.len(),
{
    if replies.len() > 0 {
        law_encoder_is_emptied(cfg, replies.drop_last());
        law_encoder_flushed_at_end(cfg, replies.drop_last());
    }
}

/// The encoder is flushed exactly when the decoder has given all it had.
pub proof fn law_encoder_flushed_at_end(cfg: JobConfig, replies: Seq<i64>)
    ensures
        times(cfg, replies, |a: Action, reply: i64| a is ReceiveFrame && reply == -541478725)
            == times(cfg, replies, |a: Action, reply: i64| a is FlushEncoder)
                + (if run(cfg, replies).pending is FlushEncoder { 1int } else { 0 }),
        times(cfg, replies, |a: Action, reply: i64| a is FlushEncoder)
            == (if run(cfg, replies).encoder_flushed { 1int } else { 0 }),
        run(cfg, replies).pending is FlushEncoder ==> !run(cfg, replies).encoder_flushed,
        run(cfg, replies).encoder_flushed
            ==> run(cfg, replies).pending is ReceiveEncoded
                || run(cfg, replies).pending is WriteEncoded
                || run(cfg, replies).pending is Stop,
        run(cfg, replies).pending == Action::Stop(Outcome::Complete)
            ==> run(cfg, replies).encoder_flushed,
    decreases replies.len(),
{
    if replies.len() > 0 {
        law_encoder_flushed_at_end(cfg, replies.drop_last());
    }
}

/// The cancel flag is looked at before every packet that is read and each time the
/// decoder wants to wait.
pub proof fn law_cancel_is_looked_at(cfg: JobConfig, replies: Seq<i64>)
    ensures
        times(cfg, replies, |a: Action, reply: i64| a is PollCancel)
            + (if run(cfg, replies).pending is PollCancel { 1int } else { 0 })
            == 1 + times(cfg, replies, |a: Action, reply: i64| a is ReceiveFrame && reply == -11),
        times(cfg, replies, |a: Action, reply: i64| a is ReadPacket)
            + (if run(cfg, replies).pending is ReadPacket { 1int } else { 0 })
            <= times(cfg, replies, |a: Action, reply: i64| a is PollCancel && reply == 0),
    decreases replies.len(),
{
    if replies.len() > 0 {
        law_cancel_is_looked_at(cfg, replies.drop_last());
    }
}

/// A job fails by a bad answer and by nothing else, but that a file without frames is
/// a failure too. Bad is: a decoder that refuses a packet or a picture other than by
/// asking to wait or being at its end, a packet that cannot be written, a scaler that
/// cannot be opened or gives no rows, an effect that fails, a frame that cannot be
/// had, and an encoder that refuses a frame or a packet.
pub proof fn law_bad_answers_fail(cfg: JobConfig, replies: Seq<i64>)
    ensures
        times(
            cfg,
            replies,
            |a: Action, reply: i64|
                (a is SendPacket && reply < 0 && reply != -11)
                    || (a is WriteAudio && reply < 0)
                    || (a is ReceiveFrame && reply < 0 && reply != -11 && reply != -541478725)
                    || (a is OpenScaler && reply == 0)
                    || (a is ScaleFrame && reply <= 0)
                    || (a is ApplyEffect && reply != 0)
                    || (a is AllocFrame && reply == 0)
                    || (a is SendFrame && reply < 0)
                    || (a is ReceiveEncoded && reply < 0 && reply != -11 && reply != -541478725)
                    || (a is WriteEncoded && reply < 0),
        ) > 0
            <==> (
                run(cfg, replies).pending matches Action::Stop(Outcome::Failed(fault))
                    && fault != Fault::NoFrames
            ),
    decreases replies.len(),
{
    if replies.len() > 0 {
        law_bad_answers_fail(cfg, replies.drop_last());
        lemma_times_nonnegative(
            cfg,
            replies.drop_last(),
            |a: Action, reply: i64|
                (a is SendPacket && reply < 0 && reply != -11)
                    || (a is WriteAudio && reply < 0)
                    || (a is ReceiveFrame && reply < 0 && reply != -11 && reply != -541478725)
                    || (a is OpenScaler && reply == 0)
                    || (a is ScaleFrame && reply <= 0)
                    || (a is ApplyEffect && reply != 0)
                    || (a is AllocFrame && reply == 0)
                    || (a is SendFrame && reply < 0)
                    || (a is ReceiveEncoded && reply < 0 && reply != -11 && reply != -541478725)
                    || (a is WriteEncoded && reply < 0),
        );
    }
}

/// The pixel format that was told last.
pub open spec fn last_format(cfg: JobConfig, replies: Seq<i64>) -> Option<i64>
    decreases replies.len(),
{
    if replies.len() == 0 {
        None
    } else if run(cfg, replies.drop_last()).pending is FrameFormat {
        Some(replies.last())
    } else {
        last_format(cfg, replies.drop_last())
    }
}

/// A picture is scaled by a scaler for its own pixel format.
pub proof fn law_scaler_fits_the_picture(cfg: JobConfig, replies: Seq<i64>)
    ensures
        run(cfg, replies).pending is ScaleFrame
            ==> run(cfg, replies).scaler is Some
                && run(cfg, replies).scaler == last_format(cfg, replies),
        run(cfg, replies).pending matches Action::OpenScaler { format, .. }
            ==> last_format(cfg, replies) == Some(format),
        run(cfg, replies).pending is OpenScaler ==> run(cfg, replies).scaler is None,
    decreases replies.len(),
{
    if replies.len() > 0 {
        law_scaler_fits_the_picture(cfg, replies.drop_last());
    }
}


/// What the functions return: a job starts fresh, each answer takes it on as stated,
/// and a time is in a stretch from its start on and before its end.
pub proof fn law_job_calls(
    cfg: &JobConfig,
    st: JobState,
    reply: i64,
    us: i64,
    fresh: JobState,
    next: JobState,
    inside: bool,
)
    requires
        call_ensures(start_job, (), fresh),
        call_ensures(step_job, (cfg, st, reply), next),
        call_ensures(in_stretch, (cfg.start_us, cfg.end_us, us), inside),
    ensures
        fresh == fresh_job(),
        next == job_after(*cfg, st, reply),
        inside ==> cfg.start_us <= us,
        cfg.start_us <= us < cfg.end_us ==> inside,
        cfg.end_us < 4611686018427387903 && us >= cfg.end_us ==> !inside,
        cfg.end_us >= 4611686018427387903 && cfg.start_us <= us ==> inside,
{
}

/// How an outcome is told: a complete job is a success, a cancelled one is told apart,
/// and a failed one carries the message of its fault.
pub proof fn law_outcome_is_told(
    outcome: Outcome,
    r: Result<(), RenderError>,
    fault: Fault,
    message: String,
)
    requires
        call_ensures(Outcome::result, (outcome,), r),
        call_ensures(Fault::message, (fault,), message),
    ensures
        outcome is Complete <==> r is Ok,
        outcome is Cancelled <==> r matches Err(RenderError::Cancelled),
        outcome is Failed ==> failed_with(r, fault_text(outcome->Failed_0)),
        message@ == fault_text(fault),
{
}

} // verus!

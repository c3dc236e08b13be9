//! The preview player: decodes one picture after the other, turns it upright and
//! hands it out. As in a render job, actions are carried out elsewhere and every
//! decision is made here.

use crate::packets::{frame_bytes, frame_packet};
use crate::pixels::{transpose_rgba, turned, turned_height, turned_width};
use crate::plan::{wanted_side, SourceInfo};
use crate::render::{coded, coded_message, AGAIN, END};
use crate::text::{before_nul, cstr, lossy_text, number_text};
use vstd::prelude::*;

verus! {

/// A preview of one source file.
#[derive(Debug)]
pub struct Player {
    /// Pixel format of the open scaler.
    pub scaler: Option<i64>,
    /// The scaled picture before it is turned upright.
    pub rgba: Vec<u8>,
    pub work_w: i32,
    pub work_h: i32,
    pub rot: i32,
    /// Pictures handed out since the last jump.
    pub idx: i32,
    /// The preview ends before this time.
    pub end_us: i64,
    /// Video stream of the source.
    pub video_in: i32,
    /// Why the last picture did not come.
    pub err: String,
}

/// What kept a picture from coming. Numbers are the codes that the outside
/// reported.
#[derive(Clone, Copy, Debug, PartialEq, Eq, Structural)]
pub enum PlayFault {
    Alloc,
    DecodeSend(i64),
    Decode(i64),
    ScalerOpen,
    Scale,
    Engine(i64),
}

/// What the player wants done next. Every action but the last three is answered
/// with a number.
#[derive(Clone, Copy, Debug, PartialEq, Eq, Structural)]
pub enum PlayAction {
    /// Read the next packet of the source; its code, negative at the end.
    ReadPacket,
    /// Tell the stream of the packet.
    PacketStream,
    /// Hand the packet to the decoder and release it; the code.
    SendPacket,
    /// Release the packet; any number.
    DropPacket,
    /// Tell the decoder that no packet follows; any number.
    FlushDecoder,
    /// Take the next picture from the decoder; the code.
    ReceiveFrame,
    /// Tell the time of the picture in its own unit, negative when unknown.
    FrameTime,
    /// Convert a picture time to microseconds.
    RescaleVideo(i64),
    /// Release the picture; any number.
    DropFrame,
    /// Tell the pixel format of the picture.
    FrameFormat,
    /// Open a scaler for a pixel format, after closing the open one where
    /// `replace` says so; zero when it cannot be opened.
    OpenScaler { format: i64, replace: bool },
    /// Scale the picture, release it, and turn the scaled one upright; the number
    /// of rows.
    ScaleFrame,
    /// Apply the effect to the upright picture, as the frame of this number; the
    /// code.
    ApplyEffect(i32),
    /// Hand out the upright picture, which belongs to this time.
    Deliver(i64),
    /// There are no more pictures.
    Finished,
    Failed(PlayFault),
}

/// How far the search for one picture is.
#[derive(Clone, Copy, Debug, PartialEq, Eq, Structural)]
pub struct PlayState {
    pub pending: PlayAction,
    /// The source has no more packets.
    pub input_ended: bool,
    /// The decoder was told so.
    pub decoder_flushed: bool,
    /// Time of the picture in work.
    pub us: i64,
}

/// The part of a player that decisions read and change.
pub struct PlayerDecided {
    pub scaler: Option<i64>,
    pub idx: i32,
    pub end_us: i64,
    pub video_in: i32,
}

impl PlayState {
    /// The same state with another action.
    pub open spec fn to(self, pending: PlayAction) -> PlayState {
        PlayState { pending, ..self }
    }

    /// Once a packet is dealt with.
    pub open spec fn packet_done(self) -> PlayState {
        if self.input_ended && !self.decoder_flushed {
            self.to(PlayAction::FlushDecoder)
        } else {
            self.to(PlayAction::ReceiveFrame)
        }
    }

    /// Once the time of a picture is known: the preview is over at its end.
    pub open spec fn frame_at(self, end_us: i64, us: i64) -> PlayState {
        if us >= end_us {
            self.to(PlayAction::DropFrame)
        } else {
            PlayState { us, ..self }.to(PlayAction::FrameFormat)
        }
    }
}

/// The state in which the search for a picture starts.
pub open spec fn fresh_search(allocated: bool) -> PlayState {
    PlayState {
        pending: if allocated {
            PlayAction::ReadPacket
        } else {
            PlayAction::Failed(PlayFault::Alloc)
        },
        input_ended: false,
        decoder_flushed: false,
        us: 0,
    }
}

/// Holds when an answer completes a picture.
pub open spec fn completes(st: PlayState, enabled: bool, reply: i64) -> bool {
    (st.pending is ScaleFrame && reply > 0 && !enabled) || (st.pending is ApplyEffect && reply == 0)
}

/// The player and the state of its search after the pending action was answered.
pub open spec fn play_after(
    p: PlayerDecided,
    st: PlayState,
    enabled: bool,
    reply: i64,
) -> (PlayerDecided, PlayState) {
    if completes(st, enabled, reply) {
        (PlayerDecided { idx: (p.idx + 1) as i32, ..p }, st.to(PlayAction::Deliver(st.us)))
    } else {
        match st.pending {
            PlayAction::ReadPacket => if reply < 0 {
                (p, PlayState { input_ended: true, ..st }.packet_done())
            } else {
                (p, st.to(PlayAction::PacketStream))
            },
            PlayAction::PacketStream => if reply == p.video_in {
                (p, st.to(PlayAction::SendPacket))
            } else {
                (p, st.to(PlayAction::DropPacket))
            },
            PlayAction::SendPacket => if reply < 0 && reply != AGAIN {
                (p, st.to(PlayAction::Failed(PlayFault::DecodeSend(reply))))
            } else {
                (p, st.packet_done())
            },
            PlayAction::DropPacket => (p, st.packet_done()),
            PlayAction::FlushDecoder => (
                p,
                PlayState { decoder_flushed: true, ..st }.to(PlayAction::ReceiveFrame),
            ),
            PlayAction::ReceiveFrame => if reply == AGAIN && !st.input_ended {
                (p, st.to(PlayAction::ReadPacket))
            } else if reply == AGAIN || reply == END {
                (p, st.to(PlayAction::Finished))
            } else if reply < 0 {
                (p, st.to(PlayAction::Failed(PlayFault::Decode(reply))))
            } else {
                (p, st.to(PlayAction::FrameTime))
            },
            PlayAction::FrameTime => if reply < 0 {
                (p, st.frame_at(p.end_us, 0))
            } else {
                (p, st.to(PlayAction::RescaleVideo(reply)))
            },
            PlayAction::RescaleVideo(_) => (p, st.frame_at(p.end_us, reply)),
            PlayAction::DropFrame => (p, st.to(PlayAction::Finished)),
            PlayAction::FrameFormat => if p.scaler == Some(reply) {
                (p, st.to(PlayAction::ScaleFrame))
            } else {
                (
                    PlayerDecided { scaler: None, ..p },
                    st.to(PlayAction::OpenScaler { format: reply, replace: p.scaler is Some }),
                )
            },
            PlayAction::OpenScaler { format, .. } => if reply == 0 {
                (p, st.to(PlayAction::Failed(PlayFault::ScalerOpen)))
            } else {
                (PlayerDecided { scaler: Some(format), ..p }, st.to(PlayAction::ScaleFrame))
            },
            PlayAction::ScaleFrame => if reply <= 0 {
                (p, st.to(PlayAction::Failed(PlayFault::Scale)))
            } else {
                (p, st.to(PlayAction::ApplyEffect(p.idx)))
            },
            PlayAction::ApplyEffect(_) => (
                p,
                st.to(PlayAction::Failed(PlayFault::Engine(reply))),
            ),
            PlayAction::Deliver(_) | PlayAction::Finished | PlayAction::Failed(_) => (p, st),
        }
    }
}

/// The message of a fault.
pub open spec fn play_fault_text(f: PlayFault) -> Seq<char> {
    match f {
        PlayFault::Alloc => "alloc failed"@,
        PlayFault::DecodeSend(rc) => coded("decode send failed"@, rc as int),
        PlayFault::Decode(rc) => coded("decode failed"@, rc as int),
        PlayFault::ScalerOpen => "swscale init failed"@,
        PlayFault::Scale => "swscale failed"@,
        PlayFault::Engine(rc) => coded("engine error"@, rc as int),
    }
}

impl PlayFault {
    /// The message of this fault.
    pub fn message(self) -> (s: String)
        ensures
            s@ == play_fault_text(self),
    {
        match self {
            PlayFault::Alloc => "alloc failed".to_owned(),
            PlayFault::DecodeSend(rc) => coded_message("decode send failed", rc),
            PlayFault::Decode(rc) => coded_message("decode failed", rc),
            PlayFault::ScalerOpen => "swscale init failed".to_owned(),
            PlayFault::Scale => "swscale failed".to_owned(),
            PlayFault::Engine(rc) => coded_message("engine error", rc),
        }
    }
}

impl PlayState {
    /// Starts the search for a picture, if there are a packet and a frame to
    /// search with.
    pub fn start(allocated: bool) -> (st: PlayState)
        ensures
            st == fresh_search(allocated),
    {
        PlayState {
            pending: if allocated {
                PlayAction::ReadPacket
            } else {
                PlayAction::Failed(PlayFault::Alloc)
            },
            input_ended: false,
            decoder_flushed: false,
            us: 0,
        }
    }

    fn with(self, pending: PlayAction) -> (st: PlayState)
        ensures
            st == self.to(pending),
    {
        PlayState { pending, ..self }
    }

    fn packet_next(self) -> (st: PlayState)
        ensures
            st == self.packet_done(),
    {
        if self.input_ended && !self.decoder_flushed {
            self.with(PlayAction::FlushDecoder)
        } else {
            self.with(PlayAction::ReceiveFrame)
        }
    }

    fn at(self, end_us: i64, us: i64) -> (st: PlayState)
        ensures
            st == self.frame_at(end_us, us),
    {
        if us >= end_us {
            self.with(PlayAction::DropFrame)
        } else {
            PlayState { us, ..self }.with(PlayAction::FrameFormat)
        }
    }
}

/// Goes on once the source of a preview is open; the message otherwise.
pub fn preview_opened(path_ok: bool, opened: bool, err: &[u8]) -> (r: Result<(), String>)
    ensures
        r is Ok <==> path_ok && opened,
        r is Err && !path_ok ==> r->Err_0@ == "bad path"@,
        r is Err && path_ok ==> r->Err_0@ == lossy_text(before_nul(err@)),
{
    if !path_ok {
        Err("bad path".to_owned())
    } else if !opened {
        Err(cstr(err))
    } else {
        Ok(())
    }
}

/// What a caller without a player is told.
pub fn no_player_text() -> (s: String)
    ensures
        s@ == "bad player"@,
{
    "bad player".to_owned()
}

fn scaled_side(x: i32) -> (r: i32)
    ensures
        r as int == wanted_side(x as int),
        r >= 2,
{
    let side: i32 = if x < 2 {
        2
    } else {
        x
    };
    side - side % 2
}

impl Player {
    pub open spec fn decided(self) -> PlayerDecided {
        PlayerDecided {
            scaler: self.scaler,
            idx: self.idx,
            end_us: self.end_us,
            video_in: self.video_in,
        }
    }

    /// The picture buffer has the size that the sides call for.
    pub open spec fn is_sound(self) -> bool {
        &&& self.work_w >= 2 && self.work_w % 2 == 0
        &&& self.work_h >= 2 && self.work_h % 2 == 0
        &&& self.rgba@.len() == 4 * (self.work_w * self.work_h)
    }

    /// Prepares a preview of a source whose sides, scaled for the screen, are
    /// `scaled_w` and `scaled_h`; nothing is open or handed out yet.
    pub fn open(
        info: &SourceInfo,
        scaled_w: i32,
        scaled_h: i32,
        end_us: i64,
        video_in: i32,
    ) -> (r: Result<Player, String>)
        requires
            info.width > 0 && info.height > 0 ==> 4 * (wanted_side(scaled_w as int) * wanted_side(
                scaled_h as int,
            )) <= i32::MAX,
        ensures
            info.width <= 0 || info.height <= 0 ==> r is Err && r->Err_0@ == "bad video dims"@,
            info.width > 0 && info.height > 0 ==> r is Ok && {
                let p = r->Ok_0;
                &&& p.is_sound()
                &&& p.decided() == PlayerDecided { scaler: None, idx: 0, end_us, video_in }
                &&& p.work_w as int == wanted_side(scaled_w as int)
                &&& p.work_h as int == wanted_side(scaled_h as int)
                &&& p.rot == info.rot
                &&& p.rgba@ == Seq::new(p.rgba@.len(), |i: int| 0u8)
                &&& p.err@.len() == 0
            },
    {
        if info.width <= 0 || info.height <= 0 {
            return Err("bad video dims".to_owned());
        }
        let work_w: i32 = scaled_side(scaled_w);
        let work_h: i32 = scaled_side(scaled_h);
        proof {
            assert(work_w * work_h >= 0) by (nonlinear_arith)
                requires
                    work_w >= 2,
                    work_h >= 2,
            ;
        }
        let rgba: Vec<u8> = vec![0u8; (work_w * work_h * 4) as usize];
        assert(rgba@ =~= Seq::new(rgba@.len(), |i: int| 0u8));
        Ok(
            Player {
                scaler: None,
                rgba,
                work_w,
                work_h,
                rot: info.rot,
                idx: 0,
                end_us,
                video_in,
                err: String::new(),
            },
        )
    }

    /// Counts pictures from zero again, after a jump.
    pub fn seek(&mut self)
        ensures
            *final(self) == (Player { idx: 0, ..*old(self) }),
    {
        self.idx = 0;
    }

    /// Goes on with the search for a picture once its pending action is answered.
    /// Pictures must still be countable.
    pub fn next(&mut self, st: PlayState, enabled: bool, reply: i64) -> (next: PlayState)
        requires
            completes(st, enabled, reply) ==> old(self).idx < i32::MAX,
        ensures
            (final(self).decided(), next) == play_after(old(self).decided(), st, enabled, reply),
            *final(self) == (Player {
                scaler: final(self).scaler,
                idx: final(self).idx,
                ..*old(self)
            }),
    {
        match st.pending {
            PlayAction::ReadPacket => if reply < 0 {
                PlayState { input_ended: true, ..st }.packet_next()
            } else {
                st.with(PlayAction::PacketStream)
            },
            PlayAction::PacketStream => if reply == self.video_in as i64 {
                st.with(PlayAction::SendPacket)
            } else {
                st.with(PlayAction::DropPacket)
            },
            PlayAction::SendPacket => if reply < 0 && reply != AGAIN {
                st.with(PlayAction::Failed(PlayFault::DecodeSend(reply)))
            } else {
                st.packet_next()
            },
            PlayAction::DropPacket => st.packet_next(),
            PlayAction::FlushDecoder => PlayState { decoder_flushed: true, ..st }.with(
                PlayAction::ReceiveFrame,
            ),
            PlayAction::ReceiveFrame => if reply == AGAIN && !st.input_ended {
                st.with(PlayAction::ReadPacket)
            } else if reply == AGAIN || reply == END {
                st.with(PlayAction::Finished)
            } else if reply < 0 {
                st.with(PlayAction::Failed(PlayFault::Decode(reply)))
            } else {
                st.with(PlayAction::FrameTime)
            },
            PlayAction::FrameTime => if reply < 0 {
                st.at(self.end_us, 0)
            } else {
                st.with(PlayAction::RescaleVideo(reply))
            },
            PlayAction::RescaleVideo(_) => st.at(self.end_us, reply),
            PlayAction::DropFrame => st.with(PlayAction::Finished),
            PlayAction::FrameFormat => {
                let held: Option<i64> = self.scaler;
                match held {
                    Some(format) if format == reply => st.with(PlayAction::ScaleFrame),
                    _ => {
                        self.scaler = None;
                        st.with(PlayAction::OpenScaler { format: reply, replace: held.is_some() })
                    },
                }
            },
            PlayAction::OpenScaler { format, .. } => if reply == 0 {
                st.with(PlayAction::Failed(PlayFault::ScalerOpen))
            } else {
                self.scaler = Some(format);
                st.with(PlayAction::ScaleFrame)
            },
            PlayAction::ScaleFrame => if reply <= 0 {
                st.with(PlayAction::Failed(PlayFault::Scale))
            } else if enabled {
                st.with(PlayAction::ApplyEffect(self.idx))
            } else {
                self.idx = self.idx + 1;
                st.with(PlayAction::Deliver(st.us))
            },
            PlayAction::ApplyEffect(_) => if reply != 0 {
                st.with(PlayAction::Failed(PlayFault::Engine(reply)))
            } else {
                self.idx = self.idx + 1;
                st.with(PlayAction::Deliver(st.us))
            },
            PlayAction::Deliver(_) | PlayAction::Finished | PlayAction::Failed(_) => st,
        }
    }

    /// The scaled picture, turned upright, with its sides.
    pub fn upright(&self) -> (r: (Vec<u8>, i32, i32))
        requires
            self.is_sound(),
        ensures
            r.0@ == turned(self.rgba@, self.work_w as int, self.work_h as int, self.rot),
            r.1 as int == turned_width(self.work_w as int, self.work_h as int, self.rot),
            r.2 as int == turned_height(self.work_w as int, self.work_h as int, self.rot),
            r.0@.len() == 4 * (r.1 * r.2),
    {
        proof {
            assert(self.work_w * self.work_h == self.work_h * self.work_w) by (nonlinear_arith);
        }
        let (out, w, h) = transpose_rgba(
            self.rgba.as_slice(),
            self.work_w as usize,
            self.work_h as usize,
            self.rot,
        );
        (out, w as i32, h as i32)
    }

    /// Ends the search for a picture: a packet with the picture, or an empty one
    /// where there is none. A fault leaves its message with the player.
    pub fn finish(&mut self, st: PlayState, w: i32, h: i32, rgba: &[u8]) -> (packet: Vec<u8>)
        ensures
            match st.pending {
                PlayAction::Deliver(us) => packet@ == frame_bytes(w, h, us, rgba@),
                _ => packet@.len() == 0,
            },
            match st.pending {
                PlayAction::Failed(fault) => final(self).err@ == play_fault_text(fault),
                _ => final(self).err == old(self).err,
            },
            *final(self) == (Player { err: final(self).err, ..*old(self) }),
    {
        match st.pending {
            PlayAction::Deliver(us) => frame_packet(w, h, us, rgba),
            PlayAction::Failed(fault) => {
                self.err = fault.message();
                Vec::new()
            },
            _ => Vec::new(),
        }
    }

    /// Hands out the message of the last fault; it is then forgotten.
    pub fn take_error(&mut self) -> (s: String)
        ensures
            s == old(self).err,
            final(self).err@.len() == 0,
            *final(self) == (Player { err: final(self).err, ..*old(self) }),
    {
        let mut s: String = String::new();
        std::mem::swap(&mut s, &mut self.err);
        s
    }
}

/// The player and the search for a picture after a row of answers.
pub open spec fn search(p: PlayerDecided, enabled: bool, replies: Seq<i64>) -> (
    PlayerDecided,
    PlayState,
)
    decreases replies.len(),
{
    if replies.len() == 0 {
        (p, fresh_search(true))
    } else {
        let (q, st) = search(p, enabled, replies.drop_last());
        play_after(q, st, enabled, replies.last())
    }
}

/// How many of the answers were given to actions that `wanted` picks, with
/// answers that it accepts.
pub open spec fn search_times(
    p: PlayerDecided,
    enabled: bool,
    replies: Seq<i64>,
    wanted: spec_fn(PlayAction, i64) -> bool,
) -> int
    decreases replies.len(),
{
    if replies.len() == 0 {
        0
    } else {
        search_times(p, enabled, replies.drop_last(), wanted) + (if wanted(
            search(p, enabled, replies.drop_last()).1.pending,
            replies.last(),
        ) {
            1int
        } else {
            0
        })
    }
}

/// Holds once a search is over.
pub open spec fn is_over(a: PlayAction) -> bool {
    a is Deliver || a is Finished || a is Failed
}

/// What holds at all times of a search that the player `p` started.
pub open spec fn coherent_search(
    p: PlayerDecided,
    enabled: bool,
    q: PlayerDecided,
    st: PlayState,
) -> bool {
    &&& q.end_us == p.end_us
    &&& q.video_in == p.video_in
    &&& q.idx == p.idx + (if st.pending is Deliver {
        1int
    } else {
        0
    })
    &&& st.decoder_flushed ==> st.input_ended
    &&& match st.pending {
        // Packets are read, sent and dropped before the source ends.
        PlayAction::ReadPacket
        | PlayAction::PacketStream
        | PlayAction::SendPacket
        | PlayAction::DropPacket => !st.input_ended,
        // The decoder is flushed at the end of the source and not before.
        PlayAction::FlushDecoder => st.input_ended && !st.decoder_flushed,
        PlayAction::ReceiveFrame => st.input_ended ==> st.decoder_flushed,
        // A picture that is worked on lies before the end.
        PlayAction::FrameFormat => st.us < p.end_us,
        // Only one scaler is open at a time.
        PlayAction::OpenScaler { .. } => st.us < p.end_us && q.scaler is None,
        PlayAction::ScaleFrame => st.us < p.end_us && q.scaler is Some,
        // A picture is numbered by the pictures before it.
        PlayAction::ApplyEffect(n) => st.us < p.end_us && q.scaler is Some && n == p.idx && enabled,
        PlayAction::Deliver(us) => us < p.end_us && q.scaler is Some,
        _ => true,
    }
}

/// Whatever the answers are, a search is coherent: the effect is applied under
/// the number of pictures handed out before, that number grows by one exactly
/// when a picture is handed out, and no picture at or past the end is.
pub proof fn law_search_stays_coherent(p: PlayerDecided, enabled: bool, replies: Seq<i64>)
    requires
        p.idx < i32::MAX,
    ensures
        ({
            let (q, st) = search(p, enabled, replies);
            coherent_search(p, enabled, q, st)
        }),
    decreases replies.len(),
{
    if replies.len() > 0 {
        law_search_stays_coherent(p, enabled, replies.drop_last());
    }
}

/// Holds from the moment the decoder gives a picture.
pub open spec fn has_picture(st: PlayState) -> bool {
    st.pending is FrameTime || st.pending is RescaleVideo || st.pending is DropFrame
        || st.pending is FrameFormat || st.pending is OpenScaler || st.pending is ScaleFrame
        || st.pending is ApplyEffect || st.pending is Deliver
}

/// A search takes at most one picture from the decoder, takes one to hand one
/// out, and tells the decoder at most once that no packet follows.
pub proof fn law_one_picture_per_search(p: PlayerDecided, enabled: bool, replies: Seq<i64>)
    requires
        p.idx < i32::MAX,
    ensures
        ({
            let st = search(p, enabled, replies).1;
            let taken = search_times(
                p,
                enabled,
                replies,
                |a: PlayAction, reply: i64| a is ReceiveFrame && reply >= 0,
            );
            &&& 0 <= taken <= 1
            &&& taken == 1 ==> has_picture(st) || is_over(st.pending)
            &&& has_picture(st) ==> taken == 1
        }),
        search_times(p, enabled, replies, |a: PlayAction, reply: i64| a is FlushDecoder) == (
        if search(p, enabled, replies).1.decoder_flushed {
            1int
        } else {
            0
        }),
    decreases replies.len(),
{
    if replies.len() > 0 {
        law_one_picture_per_search(p, enabled, replies.drop_last());
        law_search_stays_coherent(p, enabled, replies.drop_last());
    }
}

/// Once a search is over, no answer changes it any more.
pub proof fn law_search_end_is_final(
    p: PlayerDecided,
    enabled: bool,
    replies: Seq<i64>,
    more: Seq<i64>,
)
    requires
        is_over(search(p, enabled, replies).1.pending),
    ensures
        search(p, enabled, replies + more) == search(p, enabled, replies),
    decreases more.len(),
{
    if more.len() == 0 {
        assert(replies + more =~= replies);
    } else {
        law_search_end_is_final(p, enabled, replies, more.drop_last());
        assert((replies + more).drop_last() =~= replies + more.drop_last());
    }
}

/// The player after one search for each row of answers.
pub open spec fn played(p: PlayerDecided, enabled: bool, rows: Seq<Seq<i64>>) -> PlayerDecided
    decreases rows.len(),
{
    if rows.len() == 0 {
        p
    } else {
        search(played(p, enabled, rows.drop_last()), enabled, rows.last()).0
    }
}

/// How many of the searches hand out a picture.
pub open spec fn delivered(p: PlayerDecided, enabled: bool, rows: Seq<Seq<i64>>) -> int
    decreases rows.len(),
{
    if rows.len() == 0 {
        0
    } else {
        delivered(p, enabled, rows.drop_last()) + (if search(
            played(p, enabled, rows.drop_last()),
            enabled,
            rows.last(),
        ).1.pending is Deliver {
            1int
        } else {
            0
        })
    }
}

/// After a jump, or right after opening, pictures are numbered 0, 1, 2 and so on:
/// the effect sees the number of pictures handed out since.
pub proof fn law_pictures_are_numbered(
    p: PlayerDecided,
    enabled: bool,
    rows: Seq<Seq<i64>>,
    replies: Seq<i64>,
)
    requires
        p.idx == 0,
        delivered(p, enabled, rows) < i32::MAX,
    ensures
        played(p, enabled, rows).idx == delivered(p, enabled, rows),
        search(
            played(p, enabled, rows),
            enabled,
            replies,
        ).1.pending matches PlayAction::ApplyEffect(
            n,
        ) ==> n == delivered(p, enabled, rows),
    decreases rows.len(),
{
    if rows.len() > 0 {
        law_pictures_are_numbered(p, enabled, rows.drop_last(), replies);
        law_search_stays_coherent(played(p, enabled, rows.drop_last()), enabled, rows.last());
    }
    law_search_stays_coherent(played(p, enabled, rows), enabled, replies);
}

/// The messages of faults, with the code in brackets where there is one.
pub proof fn law_play_fault_texts(rc: i64)
    ensures
        play_fault_text(PlayFault::Alloc) == "alloc failed"@,
        play_fault_text(PlayFault::DecodeSend(rc))
            == "decode send failed ("@ + number_text(rc as int) + ")"@,
        play_fault_text(PlayFault::Decode(rc))
            == "decode failed ("@ + number_text(rc as int) + ")"@,
        play_fault_text(PlayFault::ScalerOpen) == "swscale init failed"@,
        play_fault_text(PlayFault::Scale) == "swscale failed"@,
        play_fault_text(PlayFault::Engine(rc)) == "engine error ("@ + number_text(rc as int) + ")"@,
{
    reveal_strlit(")");
    reveal_strlit("decode send failed");
    reveal_strlit("decode send failed (");
    assert(coded("decode send failed"@, rc as int) =~= "decode send failed ("@ + number_text(
        rc as int,
    ) + ")"@);
    reveal_strlit("decode failed");
    reveal_strlit("decode failed (");
    assert(coded("decode failed"@, rc as int) =~= "decode failed ("@ + number_text(
        rc as int,
    ) + ")"@);
    reveal_strlit("engine error");
    reveal_strlit("engine error (");
    assert(coded("engine error"@, rc as int) =~= "engine error ("@ + number_text(
        rc as int,
    ) + ")"@);
}

/// A search starts by reading a packet, or fails at once where there is nothing to
/// search with.
pub proof fn law_search_starts_fresh()
    ensures
        fresh_search(true).pending == PlayAction::ReadPacket,
        fresh_search(false).pending == PlayAction::Failed(PlayFault::Alloc),
        forall|allocated: bool|
            !(#[trigger] fresh_search(allocated)).input_ended && !fresh_search(
                allocated,
            ).decoder_flushed && fresh_search(allocated).us == 0,
{
}

/// Packets of the source. Those of the video stream go to the decoder and all others
/// away; at the end of the source the decoder is flushed once; after each packet the
/// decoder is asked for a picture. A decoder that cannot take more right now is no
/// fault.
pub proof fn law_search_routes_packets(p: PlayerDecided, st: PlayState, enabled: bool, reply: i64)
    ensures
        st.pending == PlayAction::ReadPacket && reply >= 0
            ==> play_after(p, st, enabled, reply)
                == (p, PlayState { pending: PlayAction::PacketStream, ..st }),
        st.pending == PlayAction::ReadPacket && reply < 0 && !st.decoder_flushed
            ==> play_after(p, st, enabled, reply)
                == (p, PlayState { pending: PlayAction::FlushDecoder, input_ended: true, ..st }),
        st.pending == PlayAction::ReadPacket && reply < 0 && st.decoder_flushed
            ==> play_after(p, st, enabled, reply)
                == (p, PlayState { pending: PlayAction::ReceiveFrame, input_ended: true, ..st }),
        st.pending == PlayAction::PacketStream && reply == p.video_in
            ==> play_after(p, st, enabled, reply)
                == (p, PlayState { pending: PlayAction::SendPacket, ..st }),
        st.pending == PlayAction::PacketStream && reply != p.video_in
            ==> play_after(p, st, enabled, reply)
                == (p, PlayState { pending: PlayAction::DropPacket, ..st }),
        st.pending == PlayAction::SendPacket && reply < 0 && reply != -11
            ==> play_after(p, st, enabled, reply)
                == (p, PlayState { pending: PlayAction::Failed(PlayFault::DecodeSend(reply)), ..st }),
        (
            st.pending == PlayAction::DropPacket
                || st.pending == PlayAction::SendPacket && (reply >= 0 || reply == -11)
        )
            && !(st.input_ended && !st.decoder_flushed)
            ==> play_after(p, st, enabled, reply)
                == (p, PlayState { pending: PlayAction::ReceiveFrame, ..st }),
        (
            st.pending == PlayAction::DropPacket
                || st.pending == PlayAction::SendPacket && (reply >= 0 || reply == -11)
        )
            && st.input_ended
            && !st.decoder_flushed
            ==> play_after(p, st, enabled, reply)
                == (p, PlayState { pending: PlayAction::FlushDecoder, ..st }),
        st.pending == PlayAction::FlushDecoder
            ==> play_after(p, st, enabled, reply)
                == (p, PlayState { pending: PlayAction::ReceiveFrame, decoder_flushed: true, ..st }),
{
}

/// Pictures of the source. One with a time before the end is scaled, processed where
/// the effect is on, counted, and handed out under that time; one at or past the end
/// is dropped and ends the preview; one without a time stands at zero. The preview
/// also ends when the decoder has nothing more to give, and in no other way.
pub proof fn law_search_works_on_pictures(p: PlayerDecided, st: PlayState, enabled: bool, reply: i64)
    ensures
        st.pending == PlayAction::ReceiveFrame && reply >= 0
            ==> play_after(p, st, enabled, reply)
                == (p, PlayState { pending: PlayAction::FrameTime, ..st }),
        st.pending == PlayAction::ReceiveFrame && reply == -11 && !st.input_ended
            ==> play_after(p, st, enabled, reply)
                == (p, PlayState { pending: PlayAction::ReadPacket, ..st }),
        st.pending == PlayAction::ReceiveFrame && reply == -11 && st.input_ended
            ==> play_after(p, st, enabled, reply)
                == (p, PlayState { pending: PlayAction::Finished, ..st }),
        st.pending == PlayAction::ReceiveFrame && reply == -541478725
            ==> play_after(p, st, enabled, reply)
                == (p, PlayState { pending: PlayAction::Finished, ..st }),
        st.pending == PlayAction::ReceiveFrame && reply < 0 && reply != -11 && reply != -541478725
            ==> play_after(p, st, enabled, reply)
                == (p, PlayState { pending: PlayAction::Failed(PlayFault::Decode(reply)), ..st }),
        st.pending == PlayAction::FrameTime && reply >= 0
            ==> play_after(p, st, enabled, reply)
                == (p, PlayState { pending: PlayAction::RescaleVideo(reply), ..st }),
        st.pending == PlayAction::FrameTime && reply < 0 && 0 < p.end_us
            ==> play_after(p, st, enabled, reply)
                == (p, PlayState { pending: PlayAction::FrameFormat, us: 0, ..st }),
        st.pending == PlayAction::FrameTime && reply < 0 && 0 >= p.end_us
            ==> play_after(p, st, enabled, reply)
                == (p, PlayState { pending: PlayAction::DropFrame, ..st }),
        st.pending is RescaleVideo && reply < p.end_us
            ==> play_after(p, st, enabled, reply)
                == (p, PlayState { pending: PlayAction::FrameFormat, us: reply, ..st }),
        st.pending is RescaleVideo && reply >= p.end_us
            ==> play_after(p, st, enabled, reply)
                == (p, PlayState { pending: PlayAction::DropFrame, ..st }),
        st.pending == PlayAction::DropFrame
            ==> play_after(p, st, enabled, reply)
                == (p, PlayState { pending: PlayAction::Finished, ..st }),
        st.pending == PlayAction::FrameFormat && p.scaler == Some(reply)
            ==> play_after(p, st, enabled, reply)
                == (p, PlayState { pending: PlayAction::ScaleFrame, ..st }),
        st.pending == PlayAction::FrameFormat && p.scaler is None
            ==> play_after(p, st, enabled, reply)
                == (
                    p,
                    PlayState {
                        pending: PlayAction::OpenScaler { format: reply, replace: false },
                        ..st
                    },
                ),
        st.pending == PlayAction::FrameFormat && p.scaler is Some && p.scaler->0 != reply
            ==> play_after(p, st, enabled, reply)
                == (
                    PlayerDecided { scaler: None, ..p },
                    PlayState {
                        pending: PlayAction::OpenScaler { format: reply, replace: true },
                        ..st
                    },
                ),
        st.pending is OpenScaler && reply == 0
            ==> play_after(p, st, enabled, reply)
                == (p, PlayState { pending: PlayAction::Failed(PlayFault::ScalerOpen), ..st }),
        st.pending is OpenScaler && reply != 0
            ==> play_after(p, st, enabled, reply)
                == (
                    PlayerDecided { scaler: Some(st.pending->OpenScaler_format), ..p },
                    PlayState { pending: PlayAction::ScaleFrame, ..st },
                ),
        st.pending == PlayAction::ScaleFrame && reply <= 0
            ==> play_after(p, st, enabled, reply)
                == (p, PlayState { pending: PlayAction::Failed(PlayFault::Scale), ..st }),
        st.pending == PlayAction::ScaleFrame && reply > 0 && enabled
            ==> play_after(p, st, enabled, reply)
                == (p, PlayState { pending: PlayAction::ApplyEffect(p.idx), ..st }),
        st.pending == PlayAction::ScaleFrame && reply > 0 && !enabled && p.idx < i32::MAX
            ==> play_after(p, st, enabled, reply)
                == (
                    PlayerDecided { idx: (p.idx + 1) as i32, ..p },
                    PlayState { pending: PlayAction::Deliver(st.us), ..st },
                ),
        st.pending is ApplyEffect && reply != 0
            ==> play_after(p, st, enabled, reply)
                == (p, PlayState { pending: PlayAction::Failed(PlayFault::Engine(reply)), ..st }),
        st.pending is ApplyEffect && reply == 0 && p.idx < i32::MAX
            ==> play_after(p, st, enabled, reply)
                == (
                    PlayerDecided { idx: (p.idx + 1) as i32, ..p },
                    PlayState { pending: PlayAction::Deliver(st.us), ..st },
                ),
        st.pending is Deliver || st.pending is Finished || st.pending is Failed
            ==> play_after(p, st, enabled, reply) == (p, st),
{
}

/// A search leaves the end of the preview and its stream as they are.
pub proof fn law_search_keeps_settings(p: PlayerDecided, enabled: bool, replies: Seq<i64>)
    ensures
        search(p, enabled, replies).0.end_us == p.end_us,
        search(p, enabled, replies).0.video_in == p.video_in,
    decreases replies.len(),
{
    if replies.len() > 0 {
        law_search_keeps_settings(p, enabled, replies.drop_last());
    }
}

/// A picture that is handed out has had the effect exactly once where it is on, and
/// the effect is never applied where it is off. A picture is scaled before.
pub proof fn law_delivered_pictures_are_processed(p: PlayerDecided, enabled: bool, replies: Seq<i64>)
    ensures
        enabled
            ==> search_times(
                p,
                enabled,
                replies,
                |a: PlayAction, reply: i64| a is ApplyEffect && reply == 0,
            )
                == (if search(p, enabled, replies).1.pending is Deliver { 1int } else { 0 }),
        !enabled
            ==> search_times(p, enabled, replies, |a: PlayAction, reply: i64| a is ApplyEffect) == 0,
        search_times(p, enabled, replies, |a: PlayAction, reply: i64| a is ScaleFrame && reply > 0)
            == (if search(p, enabled, replies).1.pending is Deliver
                    || search(p, enabled, replies).1.pending is ApplyEffect
                    || search(
                        p,
                        enabled,
                        replies,
                    ).1.pending matches PlayAction::Failed(PlayFault::Engine(_)) {
                1int
            } else {
                0
            }),
    decreases replies.len(),
{
    if replies.len() > 0 {
        law_delivered_pictures_are_processed(p, enabled, replies.drop_last());
    }
}

/// The time of the picture in work, as it was told last; zero for one without a time.
pub open spec fn picture_time(p: PlayerDecided, enabled: bool, replies: Seq<i64>) -> Option<i64>
    decreases replies.len(),
{
    if replies.len() == 0 {
        None
    } else {
        match search(p, enabled, replies.drop_last()).1.pending {
            PlayAction::RescaleVideo(_) => Some(replies.last()),
            PlayAction::FrameTime if replies.last() < 0 => Some(0),
            _ => picture_time(p, enabled, replies.drop_last()),
        }
    }
}

/// A picture is handed out under its own time, and that lies before the end.
pub proof fn law_delivered_under_its_time(p: PlayerDecided, enabled: bool, replies: Seq<i64>)
    ensures
        search(p, enabled, replies).1.pending matches PlayAction::Deliver(us)
            ==> picture_time(p, enabled, replies) == Some(us) && us < p.end_us,
        search(p, enabled, replies).1.pending is FrameFormat
            || search(p, enabled, replies).1.pending is OpenScaler
            || search(p, enabled, replies).1.pending is ScaleFrame
            || search(p, enabled, replies).1.pending is ApplyEffect
            ==> picture_time(p, enabled, replies) == Some(search(p, enabled, replies).1.us)
                && search(p, enabled, replies).1.us < p.end_us,
    decreases replies.len(),
{
    if replies.len() > 0 {
        law_delivered_under_its_time(p, enabled, replies.drop_last());
        law_search_keeps_settings(p, enabled, replies.drop_last());
    }
}

/// A preview ends only because the decoder has nothing more to give, at its end or
/// after it was told that no packet follows, or because a picture lies at or past the
/// end. A picture that lies there always ends it.
pub proof fn law_preview_ends_for_a_reason(p: PlayerDecided, enabled: bool, replies: Seq<i64>)
    ensures
        search(p, enabled, replies).1.pending is Finished
            ==> search_times(
                p,
                enabled,
                replies,
                |a: PlayAction, reply: i64| a is ReceiveFrame && reply == -541478725,
            ) > 0
                || search_times(
                    p,
                    enabled,
                    replies,
                    |a: PlayAction, reply: i64|
                        (a is RescaleVideo && reply >= p.end_us)
                            || (a is FrameTime && reply < 0 && p.end_us <= 0),
                ) > 0
                || (
                    search_times(
                        p,
                        enabled,
                        replies,
                        |a: PlayAction, reply: i64| a is FlushDecoder,
                    ) > 0
                        && search_times(
                            p,
                            enabled,
                            replies,
                            |a: PlayAction, reply: i64| a is ReceiveFrame && reply == -11,
                        ) > 0
                ),
        search_times(
            p,
            enabled,
            replies,
            |a: PlayAction, reply: i64|
                (a is RescaleVideo && reply >= p.end_us)
                    || (a is FrameTime && reply < 0 && p.end_us <= 0),
        ) > 0
            <==> search(p, enabled, replies).1.pending is DropFrame
                || search_times(p, enabled, replies, |a: PlayAction, reply: i64| a is DropFrame) > 0,
        search_times(p, enabled, replies, |a: PlayAction, reply: i64| a is DropFrame) > 0
            ==> search(p, enabled, replies).1.pending is Finished,
        search_times(
            p,
            enabled,
            replies,
            |a: PlayAction, reply: i64| a is ReceiveFrame && reply == -541478725,
        ) > 0
            ==> search(p, enabled, replies).1.pending is Finished,
        search(p, enabled, replies).1.decoder_flushed
            ==> search_times(p, enabled, replies, |a: PlayAction, reply: i64| a is FlushDecoder) > 0,
        search(p, enabled, replies).1.input_ended
            ==> search(p, enabled, replies).1.pending is FlushDecoder
                || search(p, enabled, replies).1.decoder_flushed,
    decreases replies.len(),
{
    if replies.len() > 0 {
        law_preview_ends_for_a_reason(p, enabled, replies.drop_last());
        law_search_keeps_settings(p, enabled, replies.drop_last());
        lemma_search_times_nonnegative(
            p,
            enabled,
            replies.drop_last(),
            |a: PlayAction, reply: i64| a is ReceiveFrame && reply == -541478725,
        );
        lemma_search_times_nonnegative(
            p,
            enabled,
            replies.drop_last(),
            |a: PlayAction, reply: i64|
                (a is RescaleVideo && reply >= p.end_us)
                    || (a is FrameTime && reply < 0 && p.end_us <= 0),
        );
        lemma_search_times_nonnegative(
            p,
            enabled,
            replies.drop_last(),
            |a: PlayAction, reply: i64| a is FlushDecoder,
        );
        lemma_search_times_nonnegative(
            p,
            enabled,
            replies.drop_last(),
            |a: PlayAction, reply: i64| a is ReceiveFrame && reply == -11,
        );
        lemma_search_times_nonnegative(
            p,
            enabled,
            replies.drop_last(),
            |a: PlayAction, reply: i64| a is DropFrame,
        );
    }
}

proof fn lemma_search_times_nonnegative(
    p: PlayerDecided,
    enabled: bool,
    replies: Seq<i64>,
    wanted: spec_fn(PlayAction, i64) -> bool,
)
    ensures
        0 <= search_times(p, enabled, replies, wanted),
    decreases replies.len(),
{
    if replies.len() > 0 {
        lemma_search_times_nonnegative(p, enabled, replies.drop_last(), wanted);
    }
}

/// A search fails by a bad answer and by nothing else. Bad is: a decoder that refuses
/// a packet or a picture other than by asking to wait or being at its end, a scaler
/// that cannot be opened or gives no rows, and an effect that fails.
pub proof fn law_bad_answers_fail_the_search(p: PlayerDecided, enabled: bool, replies: Seq<i64>)
    ensures
        search_times(
            p,
            enabled,
            replies,
            |a: PlayAction, reply: i64|
                (a is SendPacket && reply < 0 && reply != -11)
                    || (a is ReceiveFrame && reply < 0 && reply != -11 && reply != -541478725)
                    || (a is OpenScaler && reply == 0)
                    || (a is ScaleFrame && reply <= 0)
                    || (a is ApplyEffect && reply != 0),
        ) > 0
            <==> search(p, enabled, replies).1.pending is Failed,
    decreases replies.len(),
{
    if replies.len() > 0 {
        law_bad_answers_fail_the_search(p, enabled, replies.drop_last());
        lemma_search_times_nonnegative(
            p,
            enabled,
            replies.drop_last(),
            |a: PlayAction, reply: i64|
                (a is SendPacket && reply < 0 && reply != -11)
                    || (a is ReceiveFrame && reply < 0 && reply != -11 && reply != -541478725)
                    || (a is OpenScaler && reply == 0)
                    || (a is ScaleFrame && reply <= 0)
                    || (a is ApplyEffect && reply != 0),
        );
    }
}

/// No packet is lost: each one that was read went to the decoder or away, or is still
/// at hand, and the decoder got exactly those of the video stream.
pub proof fn law_search_accounts_for_packets(p: PlayerDecided, enabled: bool, replies: Seq<i64>)
    ensures
        search_times(p, enabled, replies, |a: PlayAction, reply: i64| a is ReadPacket && reply >= 0)
            == search_times(p, enabled, replies, |a: PlayAction, reply: i64| a is SendPacket)
                + search_times(p, enabled, replies, |a: PlayAction, reply: i64| a is DropPacket)
                + (if search(p, enabled, replies).1.pending is PacketStream
                        || search(p, enabled, replies).1.pending is SendPacket
                        || search(p, enabled, replies).1.pending is DropPacket {
                    1int
                } else {
                    0
                }),
        search_times(
            p,
            enabled,
            replies,
            |a: PlayAction, reply: i64| a is PacketStream && reply == p.video_in,
        )
            == search_times(p, enabled, replies, |a: PlayAction, reply: i64| a is SendPacket)
                + (if search(p, enabled, replies).1.pending is SendPacket { 1int } else { 0 }),
    decreases replies.len(),
{
    if replies.len() > 0 {
        law_search_accounts_for_packets(p, enabled, replies.drop_last());
        law_search_keeps_settings(p, enabled, replies.drop_last());
    }
}

/// The pixel format that was told last.
pub open spec fn picture_format(p: PlayerDecided, enabled: bool, replies: Seq<i64>) -> Option<i64>
    decreases replies.len(),
{
    if replies.len() == 0 {
        None
    } else if search(p, enabled, replies.drop_last()).1.pending is FrameFormat {
        Some(replies.last())
    } else {
        picture_format(p, enabled, replies.drop_last())
    }
}

/// A picture is scaled by a scaler for its own pixel format.
pub proof fn law_search_scaler_fits(p: PlayerDecided, enabled: bool, replies: Seq<i64>)
    ensures
        search(p, enabled, replies).1.pending is ScaleFrame
            ==> search(p, enabled, replies).0.scaler is Some
                && search(p, enabled, replies).0.scaler == picture_format(p, enabled, replies),
        search(p, enabled, replies).1.pending matches PlayAction::OpenScaler { format, .. }
            ==> picture_format(p, enabled, replies) == Some(format),
    decreases replies.len(),
{
    if replies.len() > 0 {
        law_search_scaler_fits(p, enabled, replies.drop_last());
    }
}


/// What opening a preview returns. A source without sides is refused. Otherwise the
/// picture has the scaled sides, made even and at least two, in a buffer of zeros with
/// four bytes per pixel; nothing is handed out or open yet, and the end, the stream
/// and the rotation are those given.
pub proof fn law_player_opens(
    info: &SourceInfo,
    scaled_w: i32,
    scaled_h: i32,
    end_us: i64,
    video_in: i32,
    r: Result<Player, String>,
)
    requires
        call_ensures(Player::open, (info, scaled_w, scaled_h, end_us, video_in), r),
    ensures
        info.width <= 0 || info.height <= 0 ==> r is Err && r->Err_0@ == "bad video dims"@,
        info.width > 0 && info.height > 0 ==> r is Ok,
        r is Ok ==> {
            let p = r->Ok_0;
            &&& p.work_w % 2 == 0 && p.work_h % 2 == 0
            &&& scaled_w < 2 ==> p.work_w == 2
            &&& scaled_h < 2 ==> p.work_h == 2
            &&& scaled_w >= 2 ==> p.work_w <= scaled_w < p.work_w + 2
            &&& scaled_h >= 2 ==> p.work_h <= scaled_h < p.work_h + 2
            &&& p.rgba@.len() == 4 * (p.work_w * p.work_h)
            &&& forall|i: int| 0 <= i < p.rgba@.len() ==> #[trigger] p.rgba@[i] == 0
            &&& p.rot == info.rot && p.end_us == end_us && p.video_in == video_in
            &&& p.idx == 0 && p.scaler is None && p.err@.len() == 0
        },
{
}

/// What the other functions return: the message of a source that cannot be opened, the
/// message for a caller without a player, the message of a fault, the start of a
/// search, and the upright picture with its sides.
pub proof fn law_player_calls(
    path_ok: bool,
    opened: bool,
    err: &[u8],
    r: Result<(), String>,
    none: String,
    fault: PlayFault,
    message: String,
    st: PlayState,
    player: &Player,
    picture: (Vec<u8>, i32, i32),
)
    requires
        call_ensures(preview_opened, (path_ok, opened, err), r),
        call_ensures(no_player_text, (), none),
        call_ensures(PlayFault::message, (fault,), message),
        call_ensures(PlayState::start, (opened,), st),
        call_ensures(Player::upright, (player,), picture),
    ensures
        path_ok && opened <==> r is Ok,
        !path_ok ==> r is Err && r->Err_0@ == "bad path"@,
        path_ok && !opened ==> r is Err && r->Err_0@ == lossy_text(before_nul(err@)),
        none@ == "bad player"@,
        message@ == play_fault_text(fault),
        st == fresh_search(opened),
        picture.0@ == turned(
            player.rgba@,
            player.work_w as int,
            player.work_h as int,
            player.rot,
        ),
        player.rot == 90 || player.rot == 270 ==> picture.1 == player.work_h && picture.2
            == player.work_w,
        player.rot != 90 && player.rot != 270 ==> picture.1 == player.work_w && picture.2
            == player.work_h,
{
}

/// How a player changes. A step changes what was decided and nothing else; a jump
/// changes the number of the next picture to zero and nothing else. The end of a
/// search gives a packet with sides, time and pixels of a picture that is handed out,
/// and an empty one otherwise, and leaves the message of a fault. An error is told
/// once.
pub proof fn law_player_changes(
    st: PlayState,
    enabled: bool,
    reply: i64,
    w: i32,
    h: i32,
    rgba: &[u8],
    next: PlayState,
    packet: Vec<u8>,
    told: String,
)
    ensures
        forall|player: &mut Player| #[trigger]
            call_ensures(Player::next, (player, st, enabled, reply), next) ==> {
                &&& (final(player).decided(), next) == play_after(
                    player.decided(),
                    st,
                    enabled,
                    reply,
                )
                &&& final(player).rgba == player.rgba
                &&& final(player).work_w == player.work_w && final(player).work_h == player.work_h
                &&& final(player).rot == player.rot && final(player).err == player.err
            },
        forall|player: &mut Player| #[trigger]
            call_ensures(Player::seek, (player,), ()) ==> {
                &&& final(player).idx == 0
                &&& final(player).scaler == player.scaler && final(player).end_us == player.end_us
                &&& final(player).video_in == player.video_in && final(player).rot == player.rot
                &&& final(player).rgba == player.rgba && final(player).err == player.err
                &&& final(player).work_w == player.work_w && final(player).work_h == player.work_h
            },
        forall|player: &mut Player| #[trigger]
            call_ensures(Player::finish, (player, st, w, h, rgba), packet) ==> {
                &&& st.pending matches PlayAction::Deliver(us) ==> packet@ == frame_bytes(
                    w,
                    h,
                    us,
                    rgba@,
                )
                &&& !(st.pending is Deliver) ==> packet@.len() == 0
                &&& st.pending matches PlayAction::Failed(fault) ==> final(player).err@
                    == play_fault_text(fault)
                &&& !(st.pending is Failed) ==> final(player).err == player.err
                &&& final(player).decided() == player.decided()
                &&& final(player).rgba == player.rgba && final(player).rot == player.rot
            },
        forall|player: &mut Player| #[trigger]
            call_ensures(Player::take_error, (player,), told) ==> {
                &&& told == player.err
                &&& final(player).err@.len() == 0
                &&& final(player).decided() == player.decided()
                &&& final(player).rgba == player.rgba && final(player).rot == player.rot
            },
{
}

} // verus!

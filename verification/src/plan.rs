//! What a render job is going to do: which stretch of the source, at which size,
//! through which buffers.

use crate::engine::{first_step, EngineStep};
use crate::params::{RenderError, RenderParams};
use crate::pixels::{
    i420_of, i444_of, law_even_sizes_have_full_planes, rgba_to_i420, rgba_to_i444, transpose_rgba,
    turned, turned_height, turned_width,
};
use crate::planes::{law_planes_tile, planes_of};
use crate::render::JobConfig;
use crate::text::{before_nul, cstr, lossy_text};
use vstd::prelude::*;

verus! {

/// From this time on, an end stands for the end of the source.
pub const OPEN_END: i64 = 4611686018427387903;

/// What is known of the video in a source file.
#[derive(Clone, Copy, Debug, PartialEq, Eq, Structural)]
pub struct SourceInfo {
    pub width: i32,
    pub height: i32,
    /// Negative where it is not known.
    pub dur_us: i64,
    /// Rotation that turns the picture upright, in degrees.
    pub rot: i32,
}

/// The stretch of the source and the sizes of a render job.
#[derive(Clone, Copy, Debug, PartialEq, Eq, Structural)]
pub struct RenderPlan {
    pub start_us: i64,
    pub end_us: i64,
    /// Size of the finished video.
    pub out_w: i32,
    pub out_h: i32,
    /// Size of the scaled picture before it is turned upright.
    pub work_w: i32,
    pub work_h: i32,
    pub rot: i32,
}

/// Where the trimmed stretch ends.
pub open spec fn end_of(trim_end_us: int, dur_us: int) -> int {
    if trim_end_us >= OPEN_END || dur_us < 0 {
        OPEN_END as int
    } else if trim_end_us <= dur_us {
        trim_end_us
    } else {
        dur_us
    }
}

/// Where the trimmed stretch starts.
pub open spec fn start_of(trim_start_us: int, end_us: int) -> int {
    if trim_start_us < 0 {
        0
    } else if trim_start_us > end_us {
        end_us
    } else {
        trim_start_us
    }
}

/// Holds for the times that lie in a stretch. An open end leaves out nothing.
pub open spec fn keeps(start_us: int, end_us: int, us: int) -> bool {
    us >= start_us && (end_us >= OPEN_END || us < end_us)
}

/// The even number at or just below.
pub open spec fn even(x: int) -> int {
    x - x % 2
}

/// A wanted side: even, and never below two.
pub open spec fn wanted_side(x: int) -> int {
    even(
        if x < 2 {
            2
        } else {
            x
        },
    )
}

/// Holds for rotations that swap the sides.
pub open spec fn swaps(rot: i32) -> bool {
    rot == 90 || rot == 270
}

/// Size of the finished video: the wanted one, or that of the upright source.
pub open spec fn output_size(p: RenderParams, info: SourceInfo) -> (int, int) {
    if p.out_w > 0 && p.out_h > 0 {
        (wanted_side(p.out_w as int), wanted_side(p.out_h as int))
    } else if swaps(info.rot) {
        (even(info.height as int), even(info.width as int))
    } else {
        (even(info.width as int), even(info.height as int))
    }
}

/// The plan of a job, or the message of why there is none.
pub open spec fn plan_of(p: RenderParams, info: SourceInfo) -> Result<RenderPlan, Seq<char>> {
    let (w, h) = output_size(p, info);
    let end_us = end_of(p.trim_end_us as int, info.dur_us as int);
    if info.width <= 0 || info.height <= 0 {
        Err("bad video dims"@)
    } else if w <= 0 || h <= 0 {
        Err("bad output dims"@)
    } else {
        Ok(
            RenderPlan {
                start_us: start_of(p.trim_start_us as int, end_us) as i64,
                end_us: end_us as i64,
                out_w: w as i32,
                out_h: h as i32,
                work_w: turned_width(w, h, info.rot) as i32,
                work_h: turned_height(w, h, info.rot) as i32,
                rot: info.rot,
            },
        )
    }
}

/// Holds when a job failed with the given message.
pub open spec fn failed_with<T>(r: Result<T, RenderError>, message: Seq<char>) -> bool {
    r matches Err(RenderError::Failed(s)) && s@ == message
}

/// A failure with the given message.
pub fn failed(message: &str) -> (e: RenderError)
    ensures
        e matches RenderError::Failed(s) && s@ == message@,
{
    RenderError::Failed(message.to_owned())
}

fn even_side(x: i32) -> (r: i32)
    requires
        x >= 0,
    ensures
        r as int == even(x as int),
{
    x - x % 2
}

fn wanted(x: i32) -> (r: i32)
    ensures
        r as int == wanted_side(x as int),
{
    even_side(
        if x < 2 {
            2
        } else {
            x
        },
    )
}

/// Plans a job. Where the length of the source is known, the stretch must not end
/// before the source begins.
pub fn plan_render(p: &RenderParams, info: &SourceInfo) -> (r: Result<RenderPlan, RenderError>)
    requires
        info.width > 0 && info.height > 0 ==> end_of(p.trim_end_us as int, info.dur_us as int) >= 0,
    ensures
        match plan_of(*p, *info) {
            Ok(plan) => r is Ok && r->Ok_0 == plan,
            Err(message) => failed_with(r, message),
        },
        r is Ok ==> r->Ok_0.is_sound(),
{
    if info.width <= 0 || info.height <= 0 {
        return Err(failed("bad video dims"));
    }
    let end_us: i64 = if p.trim_end_us >= OPEN_END || info.dur_us < 0 {
        OPEN_END
    } else if p.trim_end_us <= info.dur_us {
        p.trim_end_us
    } else {
        info.dur_us
    };
    let start_us: i64 = if p.trim_start_us < 0 {
        0
    } else if p.trim_start_us > end_us {
        end_us
    } else {
        p.trim_start_us
    };
    let swap: bool = info.rot == 90 || info.rot == 270;
    let (out_w, out_h): (i32, i32) = if p.out_w > 0 && p.out_h > 0 {
        (wanted(p.out_w), wanted(p.out_h))
    } else if swap {
        (even_side(info.height), even_side(info.width))
    } else {
        (even_side(info.width), even_side(info.height))
    };
    if out_w <= 0 || out_h <= 0 {
        return Err(failed("bad output dims"));
    }
    let (work_w, work_h): (i32, i32) = if swap {
        (out_h, out_w)
    } else {
        (out_w, out_h)
    };
    Ok(RenderPlan { start_us, end_us, out_w, out_h, work_w, work_h, rot: info.rot })
}

/// A plan's stretch lies between zero and its end, its sides are even and at
/// least two, and a picture of working size has, once upright, the size of the
/// finished video.
pub proof fn law_plan(p: RenderParams, info: SourceInfo)
    requires
        end_of(p.trim_end_us as int, info.dur_us as int) >= 0,
        plan_of(p, info) is Ok,
    ensures
        ({
            let plan = plan_of(p, info)->Ok_0;
            &&& 0 <= plan.start_us <= plan.end_us <= OPEN_END
            &&& plan.out_w >= 2 && plan.out_w % 2 == 0
            &&& plan.out_h >= 2 && plan.out_h % 2 == 0
            &&& turned_width(plan.work_w as int, plan.work_h as int, plan.rot) == plan.out_w
            &&& turned_height(plan.work_w as int, plan.work_h as int, plan.rot) == plan.out_h
        }),
{
}

/// A source that cannot be read as wide or high as two pixels is turned down
/// unless a size is asked for.
pub proof fn law_no_plan(p: RenderParams, info: SourceInfo)
    ensures
        plan_of(p, info) is Err <==> info.width <= 0 || info.height <= 0 || (!(p.out_w > 0
            && p.out_h > 0) && (info.width < 2 || info.height < 2)),
{
}

/// The stretch of a job. It ends where it is asked to or where the source ends,
/// whichever comes first; a wanted end from half the largest time on, or a source of
/// unknown length, leaves it open. It starts where it is asked to, moved into the
/// stretch.
pub proof fn law_plan_stretch(p: RenderParams, info: SourceInfo)
    requires
        end_of(p.trim_end_us as int, info.dur_us as int) >= 0,
        plan_of(p, info) is Ok,
    ensures
        ({
            let plan = plan_of(p, info)->Ok_0;
            let open = p.trim_end_us >= 4611686018427387903 || info.dur_us < 0;
            &&& open ==> plan.end_us == 4611686018427387903
            &&& !open && p.trim_end_us <= info.dur_us ==> plan.end_us == p.trim_end_us
            &&& !open && p.trim_end_us > info.dur_us ==> plan.end_us == info.dur_us
            &&& p.trim_start_us < 0 ==> plan.start_us == 0
            &&& 0 <= p.trim_start_us <= plan.end_us ==> plan.start_us == p.trim_start_us
            &&& p.trim_start_us > plan.end_us ==> plan.start_us == plan.end_us
        }),
{
}

/// The sizes of a job. A wanted size is used, at least two by two; otherwise that of
/// the source, its sides swapped where the rotation swaps them. Sides lose at most
/// one pixel to be even. Pictures are scaled with the sides in the order of the
/// source and turned by its rotation.
pub proof fn law_plan_sizes(p: RenderParams, info: SourceInfo)
    requires
        end_of(p.trim_end_us as int, info.dur_us as int) >= 0,
        plan_of(p, info) is Ok,
    ensures
        ({
            let plan = plan_of(p, info)->Ok_0;
            let swapped = info.rot == 90 || info.rot == 270;
            let wanted = p.out_w > 0 && p.out_h > 0;
            let side_w = if wanted && p.out_w < 2 {
                2
            } else if wanted {
                p.out_w as int
            } else if swapped {
                info.height as int
            } else {
                info.width as int
            };
            let side_h = if wanted && p.out_h < 2 {
                2
            } else if wanted {
                p.out_h as int
            } else if swapped {
                info.width as int
            } else {
                info.height as int
            };
            &&& plan.out_w % 2 == 0 && plan.out_w <= side_w < plan.out_w + 2
            &&& plan.out_h % 2 == 0 && plan.out_h <= side_h < plan.out_h + 2
            &&& swapped ==> plan.work_w == plan.out_h && plan.work_h == plan.out_w
            &&& !swapped ==> plan.work_w == plan.out_w && plan.work_h == plan.out_h
            &&& plan.rot == info.rot
        }),
{
}

/// Which sources are turned down, and with which message.
pub proof fn law_plan_refusals(p: RenderParams, info: SourceInfo)
    ensures
        info.width <= 0 || info.height <= 0 ==> plan_of(p, info) == Err::<RenderPlan, Seq<char>>(
            "bad video dims"@,
        ),
        info.width > 0 && info.height > 0 && (p.out_w <= 0 || p.out_h <= 0) && (info.width == 1
            || info.height == 1) ==> plan_of(p, info) == Err::<RenderPlan, Seq<char>>(
            "bad output dims"@,
        ),
        info.width > 0 && info.height > 0 && p.out_w > 0 && p.out_h > 0 ==> plan_of(p, info) is Ok,
        info.width > 1 && info.height > 1 ==> plan_of(p, info) is Ok,
{
}

/// A time lies in a stretch from its start on and before its end; an end from half
/// the largest time on lets everything through.
pub proof fn law_stretch(start_us: int, end_us: int, us: int)
    ensures
        us < start_us ==> !keeps(start_us, end_us, us),
        end_us < 4611686018427387903 && us >= end_us ==> !keeps(start_us, end_us, us),
        start_us <= us < end_us ==> keeps(start_us, end_us, us),
        end_us >= 4611686018427387903 && start_us <= us ==> keeps(start_us, end_us, us),
{
}

/// A wanted side is the even number at or just below it, and two for anything
/// smaller.
pub proof fn law_wanted_side(x: int)
    ensures
        wanted_side(x) % 2 == 0,
        x < 2 ==> wanted_side(x) == 2,
        x >= 2 ==> wanted_side(x) <= x < wanted_side(x) + 2,
{
}

/// Why a file could not be opened: what stands in the error buffer before its first
/// zero, unless the path was no path.
pub proof fn law_open_fault(path_fault: Seq<char>, err: Seq<u8>)
    ensures
        open_fault(true, path_fault, err) == lossy_text(before_nul(err)),
        open_fault(false, path_fault, err) == path_fault,
{
}

/// Bytes of an RGBA picture.
pub fn rgba_len(w: i32, h: i32) -> (len: usize)
    requires
        0 <= w,
        0 <= h,
        w * h * 4 <= i32::MAX,
    ensures
        len as int == 4 * (w * h),
{
    proof {
        assert(w * h >= 0) by (nonlinear_arith)
            requires
                0 <= w,
                0 <= h,
        ;
    }
    (w * h * 4) as usize
}

impl RenderPlan {
    /// Holds for the plans that jobs get.
    pub open spec fn is_sound(self) -> bool {
        &&& self.out_w >= 2 && self.out_w % 2 == 0
        &&& self.out_h >= 2 && self.out_h % 2 == 0
        &&& turned_width(self.work_w as int, self.work_h as int, self.rot) == self.out_w
        &&& turned_height(self.work_w as int, self.work_h as int, self.rot) == self.out_h
    }

    /// The job that carries out this plan, with the streams it works on and the
    /// number of frames expected.
    pub fn job(
        &self,
        p: &RenderParams,
        video_in: i32,
        audio_in: i32,
        audio_out: i32,
        total: i32,
    ) -> (cfg: JobConfig)
        ensures
            cfg == (JobConfig {
                start_us: self.start_us,
                end_us: self.end_us,
                video_in,
                audio_in,
                audio_out,
                effect: p.effect_enabled,
                total,
            }),
    {
        JobConfig {
            start_us: self.start_us,
            end_us: self.end_us,
            video_in,
            audio_in,
            audio_out,
            effect: p.effect_enabled,
            total,
        }
    }

    /// Turns a scaled picture upright; it then has the size of the finished video.
    pub fn upright(&self, rgba: &[u8]) -> (out: Vec<u8>)
        requires
            self.is_sound(),
            rgba@.len() == 4 * (self.work_w * self.work_h),
        ensures
            out@ == turned(rgba@, self.work_w as int, self.work_h as int, self.rot),
            out@.len() == 4 * (self.out_w * self.out_h),
    {
        proof {
            assert(self.work_w * self.work_h == self.work_h * self.work_w) by (nonlinear_arith);
        }
        let (out, w, h) = transpose_rgba(
            rgba,
            self.work_w as usize,
            self.work_h as usize,
            self.rot,
        );
        out
    }

    /// Converts an upright picture into the planes that the encoder takes.
    pub fn planar(&self, rgba: &[u8], use444: bool) -> (out: Vec<u8>)
        requires
            self.is_sound(),
            rgba@.len() == 4 * (self.out_w * self.out_h),
        ensures
            out@ == (if use444 {
                i444_of(rgba@, (self.out_w * self.out_h) as nat)
            } else {
                i420_of(rgba@, self.out_w as int, self.out_h as int)
            }),
    {
        proof {
            law_even_sizes_have_full_planes(rgba@, self.out_w as int, self.out_h as int);
        }
        if use444 {
            rgba_to_i444(rgba, self.out_w as usize, self.out_h as usize)
        } else {
            rgba_to_i420(rgba, self.out_w as usize, self.out_h as usize)
        }
    }
}

/// Upright pictures of a job get past the size check of the engine.
pub proof fn law_upright_pictures_are_frames(plan: RenderPlan, rgba: Seq<u8>)
    requires
        plan.is_sound(),
        rgba.len() == 4 * (plan.work_w * plan.work_h),
    ensures
        first_step(
            plan.out_w as int,
            plan.out_h as int,
            turned(rgba, plan.work_w as int, plan.work_h as int, plan.rot).len() as int,
        ) == EngineStep::ParseSettings,
{
    assert(plan.work_w * plan.work_h == plan.work_h * plan.work_w) by (nonlinear_arith);
}

/// What the encoder gets of a picture ends where its last plane ends.
pub proof fn law_planes_use_up_the_picture(plan: RenderPlan, rgba: Seq<u8>)
    requires
        plan.is_sound(),
    ensures
        i444_of(rgba, (plan.out_w * plan.out_h) as nat).len() == planes_of(
            plan.out_w as int,
            plan.out_h as int,
            true,
        )[2].1,
        i420_of(rgba, plan.out_w as int, plan.out_h as int).len() == planes_of(
            plan.out_w as int,
            plan.out_h as int,
            false,
        )[2].1,
{
    let w = plan.out_w as int;
    let h = plan.out_h as int;
    assert(0 <= w * h) by (nonlinear_arith)
        requires
            0 < w,
            0 < h,
    ;
    law_planes_tile(w, h, true);
    law_planes_tile(w, h, false);
    law_even_sizes_have_full_planes(rgba, w, h);
}

/// Message of a file that could not be opened: the path was no path, or what the
/// library left in its error buffer.
pub open spec fn open_fault(path_ok: bool, path_fault: Seq<char>, err: Seq<u8>) -> Seq<char> {
    if path_ok {
        lossy_text(before_nul(err))
    } else {
        path_fault
    }
}

/// Goes on once the source file is open.
pub fn input_opened(path_ok: bool, opened: bool, err: &[u8]) -> (r: Result<(), RenderError>)
    ensures
        path_ok && opened ==> r is Ok,
        !(path_ok && opened) ==> failed_with(r, open_fault(path_ok, "bad path"@, err@)),
{
    if !path_ok {
        Err(failed("bad path"))
    } else if !opened {
        Err(RenderError::Failed(cstr(err)))
    } else {
        Ok(())
    }
}

/// Goes on once the output file is open.
pub fn output_opened(path_ok: bool, opened: bool, err: &[u8]) -> (r: Result<(), RenderError>)
    ensures
        path_ok && opened ==> r is Ok,
        !(path_ok && opened) ==> failed_with(r, open_fault(path_ok, "bad out path"@, err@)),
{
    if !path_ok {
        Err(failed("bad out path"))
    } else if !opened {
        Err(RenderError::Failed(cstr(err)))
    } else {
        Ok(())
    }
}

/// Goes on once the encoder is open.
pub fn encoder_opened(opened: bool, err: &[u8]) -> (r: Result<(), RenderError>)
    ensures
        opened ==> r is Ok,
        !opened ==> failed_with(r, lossy_text(before_nul(err@))),
{
    if opened {
        Ok(())
    } else {
        Err(RenderError::Failed(cstr(err)))
    }
}

/// Goes on once packets and frames are allocated.
pub fn buffers_allocated(allocated: bool) -> (r: Result<(), RenderError>)
    ensures
        allocated ==> r is Ok,
        !allocated ==> failed_with(r, "alloc failed"@),
{
    if allocated {
        Ok(())
    } else {
        Err(failed("alloc failed"))
    }
}

/// Whether audio times are shifted by the start of the stretch: only where the
/// output has an audio stream with a usable time base.
pub fn shifts_audio(audio_out: i32, tb_num: i32, tb_den: i32) -> (b: bool)
    ensures
        b == (audio_out >= 0 && tb_num > 0 && tb_den > 0),
{
    audio_out >= 0 && tb_num > 0 && tb_den > 0
}

/// What planning returns: the plan of the parameters and the source, or a failure
/// with the message of why there is none.
pub proof fn law_planned(p: &RenderParams, info: &SourceInfo, r: Result<RenderPlan, RenderError>)
    requires
        call_ensures(plan_render, (p, info), r),
    ensures
        r is Ok <==> plan_of(*p, *info) is Ok,
        r is Ok ==> r->Ok_0 == plan_of(*p, *info)->Ok_0,
        info.width <= 0 || info.height <= 0 ==> failed_with(r, "bad video dims"@),
        r is Err && info.width > 0 && info.height > 0 ==> failed_with(r, "bad output dims"@),
{
}

/// How opening goes on. A path that is none and a file that cannot be opened end the
/// job with a message; so do an encoder that cannot be opened and missing memory;
/// everything else lets it go on.
pub proof fn law_opening(
    path_ok: bool,
    opened: bool,
    err: &[u8],
    input: Result<(), RenderError>,
    output: Result<(), RenderError>,
    encoder: Result<(), RenderError>,
    buffers: Result<(), RenderError>,
)
    requires
        call_ensures(input_opened, (path_ok, opened, err), input),
        call_ensures(output_opened, (path_ok, opened, err), output),
        call_ensures(encoder_opened, (opened, err), encoder),
        call_ensures(buffers_allocated, (opened,), buffers),
    ensures
        path_ok && opened <==> input is Ok,
        path_ok && opened <==> output is Ok,
        opened <==> encoder is Ok,
        opened <==> buffers is Ok,
        !path_ok ==> failed_with(input, "bad path"@) && failed_with(output, "bad out path"@),
        path_ok && !opened ==> failed_with(input, lossy_text(before_nul(err@))) && failed_with(
            output,
            lossy_text(before_nul(err@)),
        ),
        !opened ==> failed_with(encoder, lossy_text(before_nul(err@))),
        !opened ==> failed_with(buffers, "alloc failed"@),
{
}

/// Sound is shifted exactly where the output has an audio stream and both parts of
/// its time base are positive.
pub proof fn law_sound_shift(audio_out: i32, tb_num: i32, tb_den: i32, b: bool)
    requires
        call_ensures(shifts_audio, (audio_out, tb_num, tb_den), b),
    ensures
        b ==> audio_out >= 0 && tb_num > 0 && tb_den > 0,
        audio_out < 0 || tb_num <= 0 || tb_den <= 0 ==> !b,
        audio_out >= 0 && tb_num > 0 && tb_den > 0 ==> b,
{
}

/// What a plan does to a picture: it is turned by the rotation of the plan, and
/// becomes 4:4:4 or 4:2:0 at the size of the finished video. And its job works on the
/// stretch of the plan, with the effect as it was asked for.
pub proof fn law_plan_is_carried_out(
    plan: &RenderPlan,
    p: &RenderParams,
    rgba: &[u8],
    use444: bool,
    streams: (i32, i32, i32),
    total: i32,
    upright: Vec<u8>,
    planar: Vec<u8>,
    cfg: JobConfig,
)
    requires
        call_ensures(RenderPlan::upright, (plan, rgba), upright),
        call_ensures(RenderPlan::planar, (plan, rgba, use444), planar),
        call_ensures(RenderPlan::job, (plan, p, streams.0, streams.1, streams.2, total), cfg),
    ensures
        upright@ == turned(rgba@, plan.work_w as int, plan.work_h as int, plan.rot),
        use444 ==> planar@ == i444_of(rgba@, (plan.out_w * plan.out_h) as nat),
        !use444 ==> planar@ == i420_of(rgba@, plan.out_w as int, plan.out_h as int),
        cfg.start_us == plan.start_us,
        cfg.end_us == plan.end_us,
        cfg.video_in == streams.0,
        cfg.audio_in == streams.1,
        cfg.audio_out == streams.2,
        cfg.effect == p.effect_enabled,
        cfg.total == total,
{
}

/// An RGBA picture has four bytes per pixel.
pub proof fn law_rgba_len(w: i32, h: i32, len: usize)
    requires
        call_ensures(rgba_len, (w, h), len),
    ensures
        len == 4 * (w * h),
{
}

} // verus!

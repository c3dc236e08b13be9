//! Running the effect engine on one frame: what is checked before, in what order
//! things happen, and which code comes of it.

use vstd::prelude::*;

verus! {

/// The frame was processed.
pub const ERR_OK: i32 = 0;

/// The settings are not settings JSON.
pub const ERR_BAD_JSON: i32 = -1;

/// The pixel buffer cannot be read or has not the size of the frame.
pub const ERR_BAD_PIXELS: i32 = -2;

/// A side of the frame is zero.
pub const ERR_BAD_DIMS: i32 = -3;

/// The engine gave up, or there is no engine.
pub const ERR_PANIC: i32 = -4;

/// Bytes that a frame must have: four per pixel.
pub open spec fn frame_bytes(width: int, height: int) -> int {
    4 * (width * height)
}

/// The next thing to do for a frame.
#[derive(Clone, Copy, Debug, PartialEq, Eq, Structural)]
pub enum EngineStep {
    /// Read the settings; answered with whether they could be read.
    ParseSettings,
    /// Apply the effect; answered with whether it came through.
    Apply,
    /// Nothing more; the code of the frame.
    Done(i32),
}

/// The first step for a frame: wrong sizes end it at once.
pub open spec fn first_step(width: int, height: int, len: int) -> EngineStep {
    if width == 0 || height == 0 {
        EngineStep::Done(ERR_BAD_DIMS)
    } else if len != frame_bytes(width, height) {
        EngineStep::Done(ERR_BAD_PIXELS)
    } else {
        EngineStep::ParseSettings
    }
}

/// The step after another one was answered.
pub open spec fn step_after(step: EngineStep, ok: bool) -> EngineStep {
    match step {
        EngineStep::ParseSettings => if ok {
            EngineStep::Apply
        } else {
            EngineStep::Done(ERR_BAD_JSON)
        },
        EngineStep::Apply => if ok {
            EngineStep::Done(ERR_OK)
        } else {
            EngineStep::Done(ERR_PANIC)
        },
        EngineStep::Done(code) => EngineStep::Done(code),
    }
}

/// Starts on a frame of the given size whose pixel buffer has `len` bytes.
pub fn process_rgba_inner(width: usize, height: usize, len: usize) -> (step: EngineStep)
    ensures
        step == first_step(width as int, height as int, len as int),
{
    if width == 0 || height == 0 {
        return EngineStep::Done(ERR_BAD_DIMS);
    }
    let pixels: usize = match width.checked_mul(height) {
        None => return EngineStep::Done(ERR_BAD_PIXELS),
        Some(n) => n,
    };
    let expected: usize = match pixels.checked_mul(4) {
        None => return EngineStep::Done(ERR_BAD_PIXELS),
        Some(n) => n,
    };
    if len != expected {
        EngineStep::Done(ERR_BAD_PIXELS)
    } else {
        EngineStep::ParseSettings
    }
}

impl EngineStep {
    /// Goes on once this step is done.
    pub fn next(self, ok: bool) -> (step: EngineStep)
        ensures
            step == step_after(self, ok),
    {
        match self {
            EngineStep::ParseSettings => if ok {
                EngineStep::Apply
            } else {
                EngineStep::Done(ERR_BAD_JSON)
            },
            EngineStep::Apply => if ok {
                EngineStep::Done(ERR_OK)
            } else {
                EngineStep::Done(ERR_PANIC)
            },
            EngineStep::Done(code) => EngineStep::Done(code),
        }
    }
}

/// The code of a frame, from what is handed in and how the outside steps end.
pub open spec fn frame_code(width: int, height: int, len: int, parsed: bool, applied: bool) -> i32 {
    if width == 0 || height == 0 {
        ERR_BAD_DIMS
    } else if len != frame_bytes(width, height) {
        ERR_BAD_PIXELS
    } else if !parsed {
        ERR_BAD_JSON
    } else if !applied {
        ERR_PANIC
    } else {
        ERR_OK
    }
}

/// Two answers always bring a frame to its code, and the code is zero exactly
/// when the sizes fit, the settings can be read and the effect comes through.
pub proof fn law_frame_code(width: usize, height: usize, len: usize, parsed: bool, applied: bool)
    ensures
        step_after(
            step_after(first_step(width as int, height as int, len as int), parsed),
            applied,
        ) == EngineStep::Done(
            frame_code(width as int, height as int, len as int, parsed, applied),
        ),
        frame_code(width as int, height as int, len as int, parsed, applied) == ERR_OK <==> width
            > 0 && height > 0 && len == frame_bytes(width as int, height as int) && parsed
            && applied,
{
}

/// What each fault is answered with. A side of zero gives -3 before anything else; a
/// buffer without four bytes per pixel gives -2; settings that cannot be read give
/// -1, and the effect is then not applied; an effect that does not come through
/// gives -4; and a frame with none of these gives 0.
pub proof fn law_frame_faults(width: usize, height: usize, len: usize, ok: bool)
    ensures
        width == 0 || height == 0 ==> first_step(width as int, height as int, len as int)
            == EngineStep::Done(-3i32),
        width > 0 && height > 0 && len != 4 * (width * height) ==> first_step(
            width as int,
            height as int,
            len as int,
        ) == EngineStep::Done(-2i32),
        width > 0 && height > 0 && len == 4 * (width * height) ==> first_step(
            width as int,
            height as int,
            len as int,
        ) == EngineStep::ParseSettings,
        step_after(EngineStep::ParseSettings, false) == EngineStep::Done(-1i32),
        step_after(EngineStep::ParseSettings, true) == EngineStep::Apply,
        step_after(EngineStep::Apply, false) == EngineStep::Done(-4i32),
        step_after(EngineStep::Apply, true) == EngineStep::Done(0i32),
        forall|code: i32| #[trigger]
            step_after(EngineStep::Done(code), ok) == EngineStep::Done(code),
{
}

/// Exactly the buffers with four bytes per pixel get past the size check, however
/// large the sides are.
pub proof fn law_pixel_contract(width: usize, height: usize, len: usize)
    requires
        width > 0,
        height > 0,
    ensures
        first_step(width as int, height as int, len as int) == EngineStep::ParseSettings <==> len
            == 4 * (width * height),
{
}

/// The next thing to do for a frame that arrives through the Java interface.
#[derive(Clone, Copy, Debug, PartialEq, Eq, Structural)]
pub enum BridgeStep {
    /// Read the settings text; answered with zero when it could be read.
    ReadSettings,
    /// Read the pixels; answered with zero when they could be read.
    ReadPixels,
    /// Process the frame; answered with its code.
    Process,
    /// Hand the pixels back; answered with zero when that worked.
    WritePixels,
    /// Nothing more; the code for the caller.
    Reply(i32),
}

/// The first step for a frame on an engine handle.
pub open spec fn bridge_first(handle: i64) -> BridgeStep {
    if handle == 0 {
        BridgeStep::Reply(ERR_PANIC)
    } else {
        BridgeStep::ReadSettings
    }
}

/// The step after another one was answered. Pixels go back only where the frame
/// was processed.
pub open spec fn bridge_after(step: BridgeStep, answer: i32) -> BridgeStep {
    match step {
        BridgeStep::ReadSettings => if answer == 0 {
            BridgeStep::ReadPixels
        } else {
            BridgeStep::Reply(ERR_BAD_JSON)
        },
        BridgeStep::ReadPixels => if answer == 0 {
            BridgeStep::Process
        } else {
            BridgeStep::Reply(ERR_BAD_PIXELS)
        },
        BridgeStep::Process => if answer == ERR_OK {
            BridgeStep::WritePixels
        } else {
            BridgeStep::Reply(answer)
        },
        BridgeStep::WritePixels => if answer == 0 {
            BridgeStep::Reply(ERR_OK)
        } else {
            BridgeStep::Reply(ERR_PANIC)
        },
        BridgeStep::Reply(code) => BridgeStep::Reply(code),
    }
}

impl BridgeStep {
    /// Starts on a frame for an engine handle.
    pub fn first(handle: i64) -> (step: BridgeStep)
        ensures
            step == bridge_first(handle),
    {
        if handle == 0 {
            BridgeStep::Reply(ERR_PANIC)
        } else {
            BridgeStep::ReadSettings
        }
    }

    /// Goes on once this step is answered.
    pub fn next(self, answer: i32) -> (step: BridgeStep)
        ensures
            step == bridge_after(self, answer),
    {
        match self {
            BridgeStep::ReadSettings => if answer == 0 {
                BridgeStep::ReadPixels
            } else {
                BridgeStep::Reply(ERR_BAD_JSON)
            },
            BridgeStep::ReadPixels => if answer == 0 {
                BridgeStep::Process
            } else {
                BridgeStep::Reply(ERR_BAD_PIXELS)
            },
            BridgeStep::Process => if answer == ERR_OK {
                BridgeStep::WritePixels
            } else {
                BridgeStep::Reply(answer)
            },
            BridgeStep::WritePixels => if answer == 0 {
                BridgeStep::Reply(ERR_OK)
            } else {
                BridgeStep::Reply(ERR_PANIC)
            },
            BridgeStep::Reply(code) => BridgeStep::Reply(code),
        }
    }
}

/// A caller is told zero exactly when there is an engine and all four steps end
/// with zero.
pub proof fn law_bridge_code(handle: i64, settings: i32, pixels: i32, frame: i32, written: i32)
    ensures
        bridge_after(
            bridge_after(bridge_after(bridge_after(bridge_first(handle), settings), pixels), frame),
            written,
        ) == BridgeStep::Reply(ERR_OK) <==> handle != 0 && settings == 0 && pixels == 0 && frame
            == 0 && written == 0,
{
}

/// What each fault of a frame from Java is answered with. Without an engine the
/// answer is -4 and nothing is read; settings that cannot be read give -1, pixels
/// that cannot be read -2, and a frame that fails gives its own code. Pixels go back
/// only after a frame that gave zero, and where they cannot, the answer is -4.
pub proof fn law_bridge_faults(handle: i64, answer: i32)
    ensures
        bridge_first(0) == BridgeStep::Reply(-4i32),
        handle != 0 ==> bridge_first(handle) == BridgeStep::ReadSettings,
        bridge_after(BridgeStep::ReadSettings, 0) == BridgeStep::ReadPixels,
        bridge_after(BridgeStep::ReadPixels, 0) == BridgeStep::Process,
        bridge_after(BridgeStep::Process, 0) == BridgeStep::WritePixels,
        bridge_after(BridgeStep::WritePixels, 0) == BridgeStep::Reply(0i32),
        answer != 0 ==> bridge_after(BridgeStep::ReadSettings, answer) == BridgeStep::Reply(-1i32),
        answer != 0 ==> bridge_after(BridgeStep::ReadPixels, answer) == BridgeStep::Reply(-2i32),
        answer != 0 ==> bridge_after(BridgeStep::Process, answer) == BridgeStep::Reply(answer),
        answer != 0 ==> bridge_after(BridgeStep::WritePixels, answer) == BridgeStep::Reply(-4i32),
        forall|code: i32| #[trigger]
            bridge_after(BridgeStep::Reply(code), answer) == BridgeStep::Reply(code),
{
}

/// What the functions return: the size check lets through exactly four bytes per
/// pixel of a frame with sides, and the steps go on as stated.
pub proof fn law_engine_calls(
    width: usize,
    height: usize,
    len: usize,
    first: EngineStep,
    step: EngineStep,
    ok: bool,
    next: EngineStep,
)
    requires
        call_ensures(process_rgba_inner, (width, height, len), first),
        call_ensures(EngineStep::next, (step, ok), next),
    ensures
        width == 0 || height == 0 ==> first == EngineStep::Done(-3i32),
        width > 0 && height > 0 && len != 4 * (width * height) ==> first == EngineStep::Done(-2i32),
        width > 0 && height > 0 && len == 4 * (width * height) ==> first
            == EngineStep::ParseSettings,
        step == EngineStep::ParseSettings && ok ==> next == EngineStep::Apply,
        step == EngineStep::ParseSettings && !ok ==> next == EngineStep::Done(-1i32),
        step == EngineStep::Apply && ok ==> next == EngineStep::Done(0i32),
        step == EngineStep::Apply && !ok ==> next == EngineStep::Done(-4i32),
        step is Done ==> next == step,
{
}

/// What the functions return for a frame from Java: each step goes on after zero and
/// ends with its own code after anything else.
pub proof fn law_bridge_calls(
    handle: i64,
    first: BridgeStep,
    step: BridgeStep,
    answer: i32,
    next: BridgeStep,
)
    requires
        call_ensures(BridgeStep::first, (handle,), first),
        call_ensures(BridgeStep::next, (step, answer), next),
    ensures
        handle == 0 ==> first == BridgeStep::Reply(-4i32),
        handle != 0 ==> first == BridgeStep::ReadSettings,
        next == bridge_after(step, answer),
        step is Process && answer != 0 ==> next == BridgeStep::Reply(answer),
        next is WritePixels ==> step is Process && answer == 0,
{
}

} // verus!

//! What callers are told once a job ends: result codes and the last error text.

use crate::params::RenderError;
use vstd::prelude::*;

verus! {

/// Keeps the text of the latest error.
pub fn set_last_error(slot: &mut String, s: String)
    ensures
        *final(slot) == s,
{
    *slot = s;
}

/// The code of a finished render job: 0 when the file is complete, 1 when the job
/// was cancelled, -1 when it failed.
pub open spec fn render_code(r: Result<(), RenderError>) -> int {
    match r {
        Ok(()) => 0,
        Err(RenderError::Cancelled) => 1,
        Err(RenderError::Failed(_)) => -1,
    }
}

/// Turns the end of a render job into its code. Only a failure touches the last
/// error text.
pub fn render_reply(slot: &mut String, r: Result<(), RenderError>) -> (code: i32)
    ensures
        code as int == render_code(r),
        *final(slot) == (match r {
            Err(RenderError::Failed(e)) => e,
            _ => *old(slot),
        }),
{
    match r {
        Ok(()) => 0,
        Err(RenderError::Cancelled) => 1,
        Err(RenderError::Failed(e)) => {
            set_last_error(slot, e);
            -1
        },
    }
}

/// Turns a job down before it starts, with the text of the reason kept.
pub fn refuse(slot: &mut String, reason: String) -> (code: i32)
    ensures
        code == -1,
        *final(slot) == reason,
{
    set_last_error(slot, reason);
    -1
}

/// Callers are told zero for a complete file, one for a cancelled job and minus one
/// for a failed one, whatever the message.
pub proof fn law_render_codes(message: String)
    ensures
        render_code(Ok(())) == 0,
        render_code(Err(RenderError::Cancelled)) == 1,
        render_code(Err(RenderError::Failed(message))) == -1,
{
}

/// What becomes of the last error text: a failed job and a job that is turned down
/// leave their message and are answered with minus one; a complete or cancelled job
/// leaves the text alone.
pub proof fn law_last_error(message: String, code: i32)
    ensures
        forall|slot: &mut String| #[trigger]
            call_ensures(set_last_error, (slot, message), ()) ==> *final(slot) == message,
        forall|slot: &mut String| #[trigger]
            call_ensures(refuse, (slot, message), code) ==> *final(slot) == message && code == -1,
        forall|slot: &mut String| #[trigger]
            call_ensures(render_reply, (slot, Err(RenderError::Failed(message))), code)
                ==> *final(slot) == message && code == -1,
        forall|slot: &mut String| #[trigger]
            call_ensures(render_reply, (slot, Err(RenderError::Cancelled)), code) ==> *final(slot)
                == *slot && code == 1,
        forall|slot: &mut String| #[trigger]
            call_ensures(render_reply, (slot, Ok(())), code) ==> *final(slot) == *slot && code == 0,
{
}

} // verus!

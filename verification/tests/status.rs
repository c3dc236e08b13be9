use ntscrs_android::params::RenderError;
use ntscrs_android::status::{refuse, render_reply, set_last_error};

#[test]
fn codes_of_finished_jobs() {
    let mut last = String::from("old");
    assert_eq!(render_reply(&mut last, Ok(())), 0);
    assert_eq!(last, "old");
    assert_eq!(render_reply(&mut last, Err(RenderError::Cancelled)), 1);
    assert_eq!(last, "old");
    let failed = RenderError::Failed("swscale failed".to_string());
    assert_eq!(render_reply(&mut last, Err(failed)), -1);
    assert_eq!(last, "swscale failed");
}

#[test]
fn refused_jobs_leave_their_reason() {
    let mut last = String::new();
    set_last_error(&mut last, "first".to_string());
    assert_eq!(last, "first");
    assert_eq!(refuse(&mut last, "missing 'in_path'".to_string()), -1);
    assert_eq!(last, "missing 'in_path'");
}

use ntscrs_android::engine::{
    process_rgba_inner, BridgeStep, EngineStep, ERR_BAD_DIMS, ERR_BAD_JSON, ERR_BAD_PIXELS, ERR_OK,
    ERR_PANIC,
};

fn gradient_rgba(w: usize, h: usize) -> Vec<u8> {
    let mut v = Vec::with_capacity(w * h * 4);
    for y in 0..h {
        for x in 0..w {
            v.push((x * 255 / w.max(1)) as u8);
            v.push((y * 255 / h.max(1)) as u8);
            v.push(128u8);
            v.push(255u8);
        }
    }
    v
}

/// The code of a frame whose settings are the given text, on an engine that takes
/// all settings that are JSON.
fn process(width: usize, height: usize, settings_json: &str, pixels: &[u8]) -> i32 {
    let mut step = process_rgba_inner(width, height, pixels.len());
    loop {
        step = match step {
            EngineStep::ParseSettings => {
                step.next(serde_json::from_str::<serde_json::Value>(settings_json).is_ok())
            }
            EngineStep::Apply => step.next(true),
            EngineStep::Done(code) => return code,
        };
    }
}

#[test]
fn process_rgba_rejects_garbage() {
    let json = "{\"version\":1}";
    let px = gradient_rgba(8, 8);
    assert_eq!(process(0, 8, json, &px), ERR_BAD_DIMS);
    assert_eq!(process(8, 8, json, &px[..10]), ERR_BAD_PIXELS);
    assert_eq!(process(8, 8, "not json", &px), ERR_BAD_JSON);
    assert_eq!(process(8, 8, json, &px), ERR_OK);
}

#[test]
fn codes_have_their_values() {
    assert_eq!(
        (ERR_OK, ERR_BAD_JSON, ERR_BAD_PIXELS, ERR_BAD_DIMS, ERR_PANIC),
        (0, -1, -2, -3, -4)
    );
}

#[test]
fn sizes_are_checked_before_settings() {
    assert_eq!(process_rgba_inner(0, 0, 0), EngineStep::Done(ERR_BAD_DIMS));
    assert_eq!(process_rgba_inner(1, 0, 0), EngineStep::Done(ERR_BAD_DIMS));
    assert_eq!(process_rgba_inner(2, 3, 24), EngineStep::ParseSettings);
    for len in [0, 23, 25, 96] {
        assert_eq!(process_rgba_inner(2, 3, len), EngineStep::Done(ERR_BAD_PIXELS));
    }
}

#[test]
fn sizes_past_the_limit() {
    // A negative side arrives as a huge one.
    let huge = -1i32 as usize;
    assert_eq!(process_rgba_inner(huge, 8, 256), EngineStep::Done(ERR_BAD_PIXELS));
    // Pixels cannot be counted, so no buffer has the right size.
    for len in [0, 256, usize::MAX] {
        assert_eq!(process_rgba_inner(huge, 8, len), EngineStep::Done(ERR_BAD_PIXELS));
        assert_eq!(process_rgba_inner(usize::MAX, 2, len), EngineStep::Done(ERR_BAD_PIXELS));
    }
    // Pixels can be counted, bytes cannot.
    for len in [0, 4, usize::MAX] {
        assert_eq!(process_rgba_inner(huge, 1, len), EngineStep::Done(ERR_BAD_PIXELS));
    }
    assert_eq!(process(usize::MAX, 2, "not json", &[]), ERR_BAD_PIXELS);
}

#[test]
fn engine_steps_end_with_a_code() {
    let first = process_rgba_inner(2, 2, 16);
    assert_eq!(first.next(false), EngineStep::Done(ERR_BAD_JSON));
    assert_eq!(first.next(true), EngineStep::Apply);
    assert_eq!(first.next(true).next(false), EngineStep::Done(ERR_PANIC));
    assert_eq!(first.next(true).next(true), EngineStep::Done(ERR_OK));
    assert_eq!(EngineStep::Done(-3).next(true), EngineStep::Done(-3));
}

fn bridge(handle: i64, answers: [i32; 4]) -> BridgeStep {
    answers.iter().fold(BridgeStep::first(handle), |step, &a| step.next(a))
}

#[test]
fn bridge_codes() {
    assert_eq!(bridge(0, [0, 0, 0, 0]), BridgeStep::Reply(ERR_PANIC));
    assert_eq!(bridge(7, [1, 0, 0, 0]), BridgeStep::Reply(ERR_BAD_JSON));
    assert_eq!(bridge(7, [0, 1, 0, 0]), BridgeStep::Reply(ERR_BAD_PIXELS));
    assert_eq!(bridge(7, [0, 0, -3, 0]), BridgeStep::Reply(-3));
    assert_eq!(bridge(7, [0, 0, 0, 1]), BridgeStep::Reply(ERR_PANIC));
    assert_eq!(bridge(7, [0, 0, 0, 0]), BridgeStep::Reply(ERR_OK));
}

#[test]
fn pixels_go_back_only_after_success() {
    let step = BridgeStep::first(-5).next(0).next(0);
    assert_eq!(step, BridgeStep::Process);
    assert_eq!(step.next(0), BridgeStep::WritePixels);
    assert_eq!(step.next(-4), BridgeStep::Reply(ERR_PANIC));
}

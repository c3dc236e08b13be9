use ntscrs_android::engine::{process_rgba_inner, EngineStep};
use ntscrs_android::params::{RenderError, RenderParams};
use ntscrs_android::plan::{
    buffers_allocated, encoder_opened, failed, input_opened, output_opened, plan_render, rgba_len,
    shifts_audio, RenderPlan, SourceInfo, OPEN_END,
};
use ntscrs_android::planes::plane_spans;
use ntscrs_android::render::JobConfig;

fn params() -> RenderParams {
    RenderParams {
        in_path: "/in".to_string(),
        out_path: "/out".to_string(),
        settings_json: "{}".to_string(),
        easy: false,
        quality: 27,
        speed: 5,
        use444: false,
        interlaced: false,
        trim_start_us: 0,
        trim_end_us: i64::MAX,
        out_w: 0,
        out_h: 0,
        effect_enabled: true,
    }
}

fn source(width: i32, height: i32, rot: i32) -> SourceInfo {
    SourceInfo { width, height, dur_us: 10_000_000, rot }
}

fn message<T: std::fmt::Debug>(r: Result<T, RenderError>) -> String {
    match r {
        Err(RenderError::Failed(s)) => s,
        other => panic!("{:?}", other),
    }
}

#[test]
fn open_end_is_half_the_largest_time() {
    assert_eq!(OPEN_END, i64::MAX / 2);
}

#[test]
fn whole_source_upright() {
    assert_eq!(
        plan_render(&params(), &source(641, 361, 0)).unwrap(),
        RenderPlan {
            start_us: 0,
            end_us: OPEN_END,
            out_w: 640,
            out_h: 360,
            work_w: 640,
            work_h: 360,
            rot: 0,
        }
    );
}

#[test]
fn turned_source_swaps_sides() {
    for rot in [90, 270] {
        let plan = plan_render(&params(), &source(641, 361, rot)).unwrap();
        assert_eq!((plan.out_w, plan.out_h), (360, 640));
        assert_eq!((plan.work_w, plan.work_h), (640, 360));
        assert_eq!(plan.rot, rot);
    }
    let plan = plan_render(&params(), &source(641, 361, 180)).unwrap();
    assert_eq!((plan.out_w, plan.out_h, plan.work_w), (640, 360, 640));
}

#[test]
fn wanted_size_is_made_even() {
    let mut p = params();
    p.out_w = 101;
    p.out_h = 1;
    let plan = plan_render(&p, &source(641, 361, 90)).unwrap();
    assert_eq!((plan.out_w, plan.out_h), (100, 2));
    assert_eq!((plan.work_w, plan.work_h), (2, 100));
    // One side alone is no size.
    p.out_h = 0;
    let plan = plan_render(&p, &source(641, 361, 0)).unwrap();
    assert_eq!((plan.out_w, plan.out_h), (640, 360));
}

#[test]
fn stretch_lies_in_the_source() {
    let stretch = |start, end, dur_us| {
        let mut p = params();
        p.trim_start_us = start;
        p.trim_end_us = end;
        let plan = plan_render(&p, &SourceInfo { width: 4, height: 4, dur_us, rot: 0 }).unwrap();
        (plan.start_us, plan.end_us)
    };
    assert_eq!(stretch(1, 5, 10), (1, 5));
    assert_eq!(stretch(1, 50, 10), (1, 10));
    assert_eq!(stretch(-3, 5, 10), (0, 5));
    assert_eq!(stretch(7, 5, 10), (5, 5));
    assert_eq!(stretch(7, OPEN_END, 10), (7, OPEN_END));
    assert_eq!(stretch(7, OPEN_END - 1, 10), (7, 10));
    assert_eq!(stretch(1, 5, -1), (1, OPEN_END));
    assert_eq!(stretch(i64::MAX, i64::MAX, 10), (OPEN_END, OPEN_END));
}

#[test]
fn sources_that_cannot_be_rendered() {
    for (w, h) in [(0, 5), (5, 0), (-1, 5), (5, -1)] {
        assert_eq!(message(plan_render(&params(), &source(w, h, 0))), "bad video dims");
    }
    for (w, h) in [(1, 5), (5, 1)] {
        assert_eq!(message(plan_render(&params(), &source(w, h, 90))), "bad output dims");
    }
    let mut p = params();
    p.out_w = 4;
    p.out_h = 4;
    assert!(plan_render(&p, &source(1, 1, 0)).is_ok());
}

#[test]
fn pictures_are_turned_and_converted() {
    let plan = plan_render(&params(), &source(4, 2, 90)).unwrap();
    let scaled: Vec<u8> = (0..8u8).flat_map(|i| [i, i, i, 255]).collect();
    let upright = plan.upright(&scaled);
    let values: Vec<u8> = upright.chunks(4).map(|c| c[0]).collect();
    assert_eq!(values, [4, 0, 5, 1, 6, 2, 7, 3]);
    let small = plan.planar(&upright, false);
    assert_eq!(small.len(), 12);
    assert_eq!(&small[8..], [128, 128, 128, 128]);
    let full = plan.planar(&upright, true);
    assert_eq!(full.len(), 24);
    assert_eq!(small[..8], full[..8]);
}

#[test]
fn buffer_sizes() {
    assert_eq!(rgba_len(0, 7), 0);
    assert_eq!(rgba_len(64, 48), 12288);
}

#[test]
fn opening_faults() {
    let err = b"Invalid data found\0junk";
    assert!(input_opened(true, true, err).is_ok());
    assert_eq!(message(input_opened(false, false, err)), "bad path");
    assert_eq!(message(input_opened(true, false, err)), "Invalid data found");
    assert!(output_opened(true, true, err).is_ok());
    assert_eq!(message(output_opened(false, false, err)), "bad out path");
    assert_eq!(message(output_opened(true, false, err)), "Invalid data found");
    assert!(encoder_opened(true, err).is_ok());
    assert_eq!(message(encoder_opened(false, err)), "Invalid data found");
    assert!(buffers_allocated(true).is_ok());
    assert_eq!(message(buffers_allocated(false)), "alloc failed");
    assert_eq!(message::<()>(Err(failed("x"))), "x");
}

#[test]
fn audio_is_shifted_where_it_has_a_time_base() {
    assert!(shifts_audio(0, 1, 48000));
    assert!(!shifts_audio(-1, 1, 48000));
    assert!(!shifts_audio(1, 0, 48000));
    assert!(!shifts_audio(1, 1, 0));
}

#[test]
fn upright_pictures_fit_engine_and_encoder() {
    for rot in [0, 90, 180, 270] {
        let plan = plan_render(&params(), &source(7, 5, rot)).unwrap();
        let scaled = vec![50u8; rgba_len(plan.work_w, plan.work_h)];
        let upright = plan.upright(&scaled);
        let (w, h) = (plan.out_w, plan.out_h);
        assert_eq!(
            process_rgba_inner(w as usize, h as usize, upright.len()),
            EngineStep::ParseSettings
        );
        for use444 in [false, true] {
            let planar = plan.planar(&upright, use444);
            assert_eq!(plane_spans(w, h, use444)[2].end, planar.len());
        }
    }
}

#[test]
fn jobs_follow_their_plan() {
    let mut p = params();
    p.trim_start_us = 1_000_000;
    p.trim_end_us = 3_000_000;
    for effect in [false, true] {
        p.effect_enabled = effect;
        let plan = plan_render(&p, &source(4, 4, 0)).unwrap();
        assert_eq!(
            plan.job(&p, 2, 5, 1, 60),
            JobConfig {
                start_us: 1_000_000,
                end_us: 3_000_000,
                video_in: 2,
                audio_in: 5,
                audio_out: 1,
                effect,
                total: 60,
            }
        );
    }
}

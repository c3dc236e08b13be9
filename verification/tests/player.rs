use ntscrs_android::plan::SourceInfo;
use ntscrs_android::player::{
    no_player_text, preview_opened, PlayAction, PlayFault, PlayState, Player,
};
use ntscrs_android::render::{AGAIN, END};

fn source(width: i32, height: i32, rot: i32) -> SourceInfo {
    SourceInfo { width, height, dur_us: -1, rot }
}

fn player() -> Player {
    Player::open(&source(4, 2, 90), 4, 2, 1000, 0).unwrap()
}

/// The search for one picture, with each answer beside the action it belongs to.
fn search(p: &mut Player, enabled: bool, answers: &[(PlayAction, i64)]) -> PlayState {
    let mut st = PlayState::start(true);
    for (action, reply) in answers {
        assert_eq!(st.pending, *action);
        st = p.next(st, enabled, *reply);
    }
    st
}

fn picture(number: i32, us: i64) -> Vec<(PlayAction, i64)> {
    let mut answers = vec![
        (PlayAction::ReadPacket, 0),
        (PlayAction::PacketStream, 0),
        (PlayAction::SendPacket, 0),
        (PlayAction::ReceiveFrame, 0),
        (PlayAction::FrameTime, 3),
        (PlayAction::RescaleVideo(3), us),
        (PlayAction::FrameFormat, 0),
    ];
    if number == 0 {
        answers.push((PlayAction::OpenScaler { format: 0, replace: false }, 1));
    }
    answers.push((PlayAction::ScaleFrame, 2));
    answers.push((PlayAction::ApplyEffect(number), 0));
    answers
}

#[test]
fn opening_a_player() {
    let p = Player::open(&source(1921, 1081, 90), 481, 271, 5_000_000, 3).unwrap();
    assert_eq!((p.work_w, p.work_h, p.rot), (480, 270, 90));
    assert_eq!(p.rgba, vec![0; 480 * 270 * 4]);
    assert_eq!((p.idx, p.end_us, p.video_in, p.scaler), (0, 5_000_000, 3, None));
    assert_eq!(p.err, "");
    let tiny = Player::open(&source(1, 1, 0), 1, -5, 1, 0).unwrap();
    assert_eq!((tiny.work_w, tiny.work_h, tiny.rgba.len()), (2, 2, 16));
}

#[test]
fn sources_that_cannot_be_shown() {
    assert_eq!(Player::open(&source(0, 9, 0), 2, 2, 1, 0).unwrap_err(), "bad video dims");
    assert_eq!(Player::open(&source(9, -1, 0), 2, 2, 1, 0).unwrap_err(), "bad video dims");
    assert_eq!(preview_opened(true, true, b"x"), Ok(()));
    assert_eq!(preview_opened(false, false, b"x"), Err("bad path".to_string()));
    assert_eq!(preview_opened(true, false, b"x\0y"), Err("x".to_string()));
    assert_eq!(no_player_text(), "bad player");
}

#[test]
fn pictures_are_numbered_until_a_jump() {
    let mut p = player();
    let st = search(&mut p, true, &picture(0, 10));
    assert_eq!(st.pending, PlayAction::Deliver(10));
    assert_eq!((p.idx, p.scaler), (1, Some(0)));
    let st = search(&mut p, true, &picture(1, 20));
    assert_eq!(st.pending, PlayAction::Deliver(20));
    assert_eq!(p.idx, 2);
    p.seek();
    assert_eq!((p.idx, p.scaler), (0, Some(0)));
    assert_eq!(p.next(st, true, -1), st);
}

#[test]
fn effect_is_left_out_when_off() {
    let mut p = player();
    let mut answers = picture(0, 10);
    answers.pop();
    let st = search(&mut p, false, &answers);
    assert_eq!(st.pending, PlayAction::Deliver(10));
    assert_eq!(p.idx, 1);
}

#[test]
fn delivered_pictures_are_upright() {
    let mut p = player();
    p.rgba = (0..8u8).flat_map(|i| [i, 0, 0, 255]).collect();
    let (rgba, w, h) = p.upright();
    assert_eq!((w, h), (2, 4));
    let values: Vec<u8> = rgba.chunks(4).map(|c| c[0]).collect();
    assert_eq!(values, [4, 0, 5, 1, 6, 2, 7, 3]);
    let st = search(&mut p, true, &picture(0, 10));
    let packet = p.finish(st, w, h, &rgba);
    assert_eq!(packet[..16], [2, 0, 0, 0, 4, 0, 0, 0, 10, 0, 0, 0, 0, 0, 0, 0]);
    assert_eq!(packet[16..], rgba[..]);
    p.rot = 0;
    assert_eq!(p.upright(), (p.rgba.clone(), 4, 2));
}

#[test]
fn previews_end_in_time() {
    let mut p = player();
    for us in [1000, 1001] {
        let mut answers = picture(0, us)[..6].to_vec();
        answers.push((PlayAction::DropFrame, 0));
        let st = search(&mut p, true, &answers);
        assert_eq!(st.pending, PlayAction::Finished);
        assert!(p.finish(st, 2, 4, &[]).is_empty());
    }
    assert_eq!((p.idx, p.err.as_str()), (0, ""));
    assert_eq!(search(&mut p, true, &picture(0, 999)).pending, PlayAction::Deliver(999));
}

#[test]
fn pictures_without_a_time_stand_at_zero() {
    let mut p = player();
    let mut answers = picture(0, 0)[..4].to_vec();
    answers.push((PlayAction::FrameTime, -1));
    let st = search(&mut p, true, &answers);
    assert_eq!((st.pending, st.us), (PlayAction::FrameFormat, 0));
}

#[test]
fn decoder_is_flushed_at_the_end() {
    let mut p = player();
    let lead = [
        (PlayAction::ReadPacket, 0),
        (PlayAction::PacketStream, 4),
        (PlayAction::DropPacket, 0),
        (PlayAction::ReceiveFrame, AGAIN),
        (PlayAction::ReadPacket, -1),
        (PlayAction::FlushDecoder, 0),
    ];
    for reply in [AGAIN, END] {
        let mut answers = lead.to_vec();
        answers.push((PlayAction::ReceiveFrame, reply));
        assert_eq!(search(&mut p, true, &answers).pending, PlayAction::Finished);
    }
    let mut answers = lead.to_vec();
    answers.push((PlayAction::ReceiveFrame, 0));
    assert_eq!(search(&mut p, true, &answers).pending, PlayAction::FrameTime);
}

#[test]
fn scaler_follows_the_pixel_format() {
    let mut p = player();
    search(&mut p, true, &picture(0, 10));
    let mut answers = picture(1, 20)[..6].to_vec();
    answers.push((PlayAction::FrameFormat, 5));
    let st = search(&mut p, true, &answers);
    assert_eq!(st.pending, PlayAction::OpenScaler { format: 5, replace: true });
    assert_eq!(p.scaler, None);
    let st = p.next(st, true, 1);
    assert_eq!((st.pending, p.scaler), (PlayAction::ScaleFrame, Some(5)));
}

#[test]
fn play_faults_are_told_once() {
    let cases = [
        (2, -22, "decode send failed (-22)"),
        (3, -1, "decode failed (-1)"),
        (7, 0, "swscale init failed"),
        (8, 0, "swscale failed"),
        (9, -3, "engine error (-3)"),
    ];
    for (steps, reply, message) in cases {
        let mut p = player();
        let st = search(&mut p, true, &picture(0, 10)[..steps]);
        let st = p.next(st, true, reply);
        assert!(p.finish(st, 2, 4, &[1]).is_empty());
        assert_eq!(p.take_error(), message);
        assert_eq!(p.take_error(), "");
        assert_eq!(p.idx, 0);
    }
    let mut p = player();
    let st = PlayState::start(false);
    assert_eq!(st.pending, PlayAction::Failed(PlayFault::Alloc));
    p.finish(st, 2, 4, &[]);
    assert_eq!(p.take_error(), "alloc failed");
}

#[test]
fn busy_decoders_are_no_fault() {
    let mut p = player();
    let mut answers = picture(0, 10)[..2].to_vec();
    answers.push((PlayAction::SendPacket, AGAIN));
    assert_eq!(search(&mut p, true, &answers).pending, PlayAction::ReceiveFrame);
}

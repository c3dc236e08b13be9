use ntscrs_android::params::RenderError;
use ntscrs_android::render::{
    in_stretch, start_job, step_job, Action, Fault, JobConfig, JobState, Outcome, AGAIN, END,
};

fn config() -> JobConfig {
    JobConfig {
        start_us: 100,
        end_us: 200,
        video_in: 0,
        audio_in: 1,
        audio_out: 1,
        effect: true,
        total: 3,
    }
}

/// A job that has been given the answers, each to the action it stands beside.
fn run(cfg: &JobConfig, answers: &[(Action, i64)]) -> JobState {
    let mut st = start_job();
    for (action, reply) in answers {
        assert_eq!(st.pending, *action);
        st = step_job(cfg, st, *reply);
    }
    st
}

fn first_picture() -> Vec<(Action, i64)> {
    vec![
        (Action::PollCancel, 0),
        (Action::ReadPacket, 0),
        (Action::PacketStream, 0),
        (Action::SendPacket, 0),
        (Action::ReceiveFrame, 0),
        (Action::FrameTime, 5),
        (Action::RescaleVideo(5), 150),
        (Action::FrameFormat, 0),
        (Action::OpenScaler { format: 0, replace: false }, 1),
        (Action::ScaleFrame, 2),
        (Action::ApplyEffect(0), 0),
        (Action::AllocFrame, 1),
        (Action::SendFrame(0), 0),
        (Action::Progress(1, 3), 0),
        (Action::ReceiveEncoded, 0),
        (Action::WriteEncoded, 0),
        (Action::ReceiveEncoded, AGAIN),
    ]
}

#[test]
fn codes_of_codecs() {
    assert_eq!((AGAIN, END), (-11, -541478725));
}

#[test]
fn one_picture_makes_a_file() {
    let mut answers = first_picture();
    answers.extend([
        (Action::ReceiveFrame, AGAIN),
        (Action::PollCancel, 0),
        (Action::ReadPacket, -541478725),
        (Action::FlushDecoder, 0),
        (Action::ReceiveFrame, AGAIN),
        (Action::PollCancel, 0),
        (Action::ReceiveFrame, END),
        (Action::FlushEncoder, 0),
        (Action::ReceiveEncoded, 0),
        (Action::WriteEncoded, 0),
        (Action::ReceiveEncoded, END),
    ]);
    let st = run(&config(), &answers);
    assert_eq!(st.pending, Action::Stop(Outcome::Complete));
    assert_eq!(st.frames, 1);
    // A job that has stopped stays as it is.
    assert_eq!(step_job(&config(), st, 0), st);
    assert_eq!(step_job(&config(), st, -1), st);
}

#[test]
fn frames_are_numbered() {
    let mut answers = first_picture();
    answers.extend([
        (Action::ReceiveFrame, 0),
        (Action::FrameTime, -1),
        (Action::FrameFormat, 0),
        (Action::ScaleFrame, 2),
        (Action::ApplyEffect(1), 0),
        (Action::AllocFrame, 1),
        (Action::SendFrame(1), 0),
        (Action::Progress(2, 3), 0),
        (Action::ReceiveEncoded, AGAIN),
        (Action::ReceiveFrame, 0),
        (Action::FrameTime, 9),
        (Action::RescaleVideo(9), 199),
        (Action::FrameFormat, 5),
        (Action::OpenScaler { format: 5, replace: true }, 1),
        (Action::ScaleFrame, 2),
        (Action::ApplyEffect(2), 0),
        (Action::AllocFrame, 1),
        (Action::SendFrame(2), 0),
        (Action::Progress(3, 3), 0),
    ]);
    let st = run(&config(), &answers);
    assert_eq!((st.frames, st.scaler), (3, Some(5)));
}

#[test]
fn pictures_outside_the_stretch_are_dropped() {
    let lead: Vec<(Action, i64)> = first_picture()[..5].to_vec();
    for us in [0, 99, 200, 1000, -7] {
        let mut answers = lead.clone();
        answers.push((Action::FrameTime, 3));
        answers.push((Action::RescaleVideo(3), us));
        answers.push((Action::DropFrame, 0));
        assert_eq!(run(&config(), &answers).pending, Action::ReceiveFrame);
    }
    for us in [100, 199] {
        let mut answers = lead.clone();
        answers.push((Action::FrameTime, 3));
        answers.push((Action::RescaleVideo(3), us));
        assert_eq!(run(&config(), &answers).pending, Action::FrameFormat);
    }
}

#[test]
fn effect_can_be_off() {
    let mut cfg = config();
    cfg.effect = false;
    let st = run(&cfg, &first_picture()[..10]);
    assert_eq!(st.pending, Action::AllocFrame);
}

#[test]
fn sound_is_trimmed_like_pictures() {
    let lead = [
        (Action::PollCancel, 0),
        (Action::ReadPacket, 0),
        (Action::PacketStream, 1),
    ];
    for (us, next) in [
        (99, Action::DropPacket),
        (100, Action::WriteAudio),
        (199, Action::WriteAudio),
        (200, Action::DropPacket),
    ] {
        let mut answers = lead.to_vec();
        answers.push((Action::AudioTime, 7));
        answers.push((Action::RescaleAudio(7), us));
        let st = run(&config(), &answers);
        assert_eq!(st.pending, next);
        assert_eq!(step_job(&config(), st, 0).pending, Action::ReceiveFrame);
    }
    // Sound without a time is left out.
    let mut answers = lead.to_vec();
    answers.push((Action::AudioTime, -1));
    assert_eq!(run(&config(), &answers).pending, Action::DropPacket);
}

#[test]
fn sound_without_a_place_is_dropped() {
    let mut cfg = config();
    cfg.audio_out = -1;
    let lead = [(Action::PollCancel, 0), (Action::ReadPacket, 0), (Action::PacketStream, 1)];
    assert_eq!(run(&cfg, &lead).pending, Action::DropPacket);
    let other = [(Action::PollCancel, 0), (Action::ReadPacket, 0), (Action::PacketStream, 2)];
    assert_eq!(run(&config(), &other).pending, Action::DropPacket);
}

#[test]
fn stretches() {
    assert!(in_stretch(100, 200, 100));
    assert!(!in_stretch(100, 200, 200));
    assert!(!in_stretch(100, 100, 100));
    assert!(in_stretch(100, i64::MAX / 2, i64::MAX));
    assert!(!in_stretch(100, i64::MAX / 2, 99));
}

#[test]
fn cancelled_jobs() {
    let st = run(&config(), &[(Action::PollCancel, 1)]);
    assert_eq!(st.pending, Action::Stop(Outcome::Cancelled));
    assert!(matches!(Outcome::Cancelled.result(), Err(RenderError::Cancelled)));
    assert!(Outcome::Complete.result().is_ok());
}

#[test]
fn decoders_may_ask_to_wait() {
    let answers = [
        (Action::PollCancel, 0),
        (Action::ReadPacket, 0),
        (Action::PacketStream, 0),
        (Action::SendPacket, AGAIN),
    ];
    assert_eq!(run(&config(), &answers).pending, Action::ReceiveFrame);
}

#[test]
fn empty_sources_make_no_file() {
    let answers = [
        (Action::PollCancel, 0),
        (Action::ReadPacket, -1),
        (Action::FlushDecoder, -22),
        (Action::ReceiveFrame, END),
        (Action::FlushEncoder, -22),
        (Action::ReceiveEncoded, END),
    ];
    let st = run(&config(), &answers);
    assert_eq!(st.pending, Action::Stop(Outcome::Failed(Fault::NoFrames)));
}

fn fault_after(steps: usize, reply: i64) -> String {
    let st = run(&config(), &first_picture()[..steps]);
    let st = step_job(&config(), st, reply);
    match st.pending {
        Action::Stop(outcome @ Outcome::Failed(_)) => match outcome.result() {
            Err(RenderError::Failed(s)) => s,
            other => panic!("{:?}", other),
        },
        other => panic!("{:?}", other),
    }
}

#[test]
fn faults_are_told() {
    assert_eq!(fault_after(3, -22), "decode send failed (-22)");
    assert_eq!(fault_after(4, -1), "decode receive failed (-1)");
    assert_eq!(fault_after(8, 0), "swscale init failed");
    assert_eq!(fault_after(9, 0), "swscale failed");
    assert_eq!(fault_after(9, -1), "swscale failed");
    assert_eq!(fault_after(10, -3), "engine error (-3)");
    assert_eq!(fault_after(11, 0), "frame alloc failed");
    assert_eq!(fault_after(12, -12), "x264 send failed (-12)");
    assert_eq!(fault_after(14, -1094995529), "x264 receive failed (-1094995529)");
    assert_eq!(fault_after(15, -28), "mux write failed (-28)");
}

#[test]
fn fault_messages() {
    assert_eq!(Fault::AudioWrite(-5).message(), "audio mux failed (-5)");
    assert_eq!(Fault::NoFrames.message(), "no frames encoded");
    let answers = [
        (Action::PollCancel, 0),
        (Action::ReadPacket, 0),
        (Action::PacketStream, 1),
        (Action::AudioTime, 7),
        (Action::RescaleAudio(7), 150),
        (Action::WriteAudio, -5),
    ];
    assert_eq!(
        run(&config(), &answers).pending,
        Action::Stop(Outcome::Failed(Fault::AudioWrite(-5)))
    );
}

#[test]
fn complete_jobs_hold_all_sound_of_the_stretch() {
    let mut answers = vec![];
    for (us, written) in [(99, false), (100, true), (150, true), (200, false)] {
        answers.extend([
            (Action::PollCancel, 0),
            (Action::ReadPacket, 0),
            (Action::PacketStream, 1),
            (Action::AudioTime, 7),
            (Action::RescaleAudio(7), us),
            (if written { Action::WriteAudio } else { Action::DropPacket }, 0),
            (Action::ReceiveFrame, AGAIN),
        ]);
    }
    answers.extend(first_picture());
    answers.extend([
        (Action::ReceiveFrame, END),
        (Action::FlushEncoder, 0),
        (Action::ReceiveEncoded, END),
    ]);
    let st = run(&config(), &answers);
    assert_eq!(st.pending, Action::Stop(Outcome::Complete));
    let kept = answers
        .iter()
        .filter(|(a, us)| matches!(a, Action::RescaleAudio(_)) && in_stretch(100, 200, *us))
        .count();
    let written = answers.iter().filter(|(a, _)| *a == Action::WriteAudio).count();
    assert_eq!((kept, written), (2, 2));
}

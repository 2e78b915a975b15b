use bark_core::app::consts::{DELAY_START_MS, DELAY_START_PACKETS, DELAY_START_SAMPLES};
use bark_core::app::packet::{
    Audio, AudioPacketHeader, PacketKind, SessionId, Time, TimePhase, TimestampMicros,
    FRAMES_PER_PACKET, SAMPLES_PER_PACKET, SAMPLE_RATE,
};
use bark_core::app::stream::{Playback, Stream};
use bark_core::app::{start, Receiver, Response};
use bark_core::stats::Stats;

fn audio(sid: i64, seq: u64) -> PacketKind {
    PacketKind::Audio(Audio::new(
        AudioPacketHeader { sid: SessionId(sid), seq },
        [0; SAMPLES_PER_PACKET],
    ))
}

fn packet(sid: i64, seq: u64) -> Audio {
    Audio::new(AudioPacketHeader { sid: SessionId(sid), seq }, [0; SAMPLES_PER_PACKET])
}

fn time(sid: i64, phase: Option<TimePhase>) -> Time {
    Time {
        sid: SessionId(sid),
        phase,
        stream_1: TimestampMicros(10),
        receive_2: TimestampMicros(0),
        stream_3: TimestampMicros(0),
    }
}

const NOW: TimestampMicros = TimestampMicros(1234);

#[test]
fn delay_constants() {
    assert_eq!(DELAY_START_SAMPLES, DELAY_START_MS * SAMPLE_RATE as usize / 1000);
    assert_eq!(DELAY_START_PACKETS, DELAY_START_SAMPLES / FRAMES_PER_PACKET);
    assert_eq!(DELAY_START_PACKETS, 20);
}

#[test]
fn stream_starts_once_when_count_exceeds_threshold() {
    let mut stream = Stream::new(SessionId(1), 0);
    for seq in 0..DELAY_START_PACKETS as u64 {
        assert!(stream.receive_audio(packet(1, seq), &mut Stats::new()).is_none());
        assert!(!stream.started());
    }
    let task = stream.receive_audio(packet(1, 20), &mut Stats::new()).expect("playback starts");
    assert_eq!(task.name, "bark::stream");
    assert_eq!(task.priority, 16);
    assert_eq!(task.core, 1);
    assert!(stream.started());
    for seq in 21..60u64 {
        assert!(stream.receive_audio(packet(1, seq), &mut Stats::new()).is_none());
        assert!(stream.started());
    }
}

#[test]
fn dropped_packets_count_towards_the_start() {
    let mut stream = Stream::new(SessionId(1), 1000);
    for _ in 0..DELAY_START_PACKETS {
        assert!(stream.receive_audio(packet(1, 0), &mut Stats::new()).is_none());
    }
    assert!(stream.receive_audio(packet(1, 0), &mut Stats::new()).is_some());
}

#[test]
fn older_session_is_ignored_and_newer_replaces() {
    let mut receiver = Receiver::new();
    assert_eq!(receiver.session(), None);
    assert!(matches!(receiver.receive(audio(2, 7), NOW, &mut Stats::new()), Response::Nothing));
    assert_eq!(receiver.session(), Some(SessionId(2)));
    for seq in 8..8 + DELAY_START_PACKETS as u64 {
        receiver.receive(audio(2, seq), NOW, &mut Stats::new());
    }
    assert!(receiver.started());

    assert!(matches!(receiver.receive(audio(1, 0), NOW, &mut Stats::new()), Response::Nothing));
    assert_eq!(receiver.session(), Some(SessionId(2)));
    assert!(receiver.started());

    assert!(matches!(receiver.receive(audio(3, 0), NOW, &mut Stats::new()), Response::Nothing));
    assert_eq!(receiver.session(), Some(SessionId(3)));
    assert!(!receiver.started());
}

#[test]
fn newer_session_replaces_session_one() {
    let mut receiver = Receiver::new();
    receiver.receive(audio(1, 0), NOW, &mut Stats::new());
    assert_eq!(receiver.session(), Some(SessionId(1)));
    receiver.receive(audio(3, 0), NOW, &mut Stats::new());
    assert_eq!(receiver.session(), Some(SessionId(3)));
    receiver.receive(audio(2, 0), NOW, &mut Stats::new());
    assert_eq!(receiver.session(), Some(SessionId(3)));
}

#[test]
fn receiver_reports_start_of_playback() {
    let mut receiver = Receiver::new();
    let mut starts = 0;
    for seq in 0..50u64 {
        if let Response::StartPlayback(task) = receiver.receive(audio(5, seq), NOW, &mut Stats::new()) {
            starts += 1;
            assert_eq!(seq, DELAY_START_PACKETS as u64);
            assert_eq!(task.name, "bark::stream");
        }
    }
    assert_eq!(starts, 1);
}

#[test]
fn broadcast_time_is_stamped_and_sent_back() {
    let mut receiver = Receiver::new();
    match receiver.receive(PacketKind::Time(time(1, Some(TimePhase::Broadcast))), NOW, &mut Stats::new()) {
        Response::SendTime(reply) => {
            assert_eq!(reply.receive_2, NOW);
            assert_eq!(reply.stream_1, TimestampMicros(10));
            assert_eq!(reply.sid, SessionId(1));
        }
        other => panic!("unexpected response {:?}", other),
    }
    assert_eq!(receiver.session(), None);
}

#[test]
fn other_packets_are_unhandled_or_ignored() {
    let mut receiver = Receiver::new();
    assert!(matches!(receiver.receive(PacketKind::Other, NOW, &mut Stats::new()), Response::Unhandled));
    assert!(matches!(
        receiver.receive(PacketKind::Time(time(1, Some(TimePhase::StreamReply))), NOW, &mut Stats::new()),
        Response::Nothing
    ));
    assert!(matches!(
        receiver.receive(PacketKind::Time(time(1, Some(TimePhase::ReceiverReply))), NOW, &mut Stats::new()),
        Response::Nothing
    ));
    assert!(matches!(receiver.receive(PacketKind::Time(time(1, None)), NOW, &mut Stats::new()), Response::Nothing));
}

#[test]
fn admissions_are_counted() {
    let mut stats = Stats::new();
    let mut receiver = Receiver::new();
    receiver.receive(audio(2, 100), NOW, &mut stats);
    receiver.receive(audio(2, 101), NOW, &mut stats);
    receiver.receive(audio(2, 101), NOW, &mut stats);
    receiver.receive(audio(2, 99), NOW, &mut stats);
    receiver.receive(audio(2, 150), NOW, &mut stats);
    receiver.receive(audio(1, 100), NOW, &mut stats);
    receiver.receive(PacketKind::Other, NOW, &mut stats);
    let report = stats.take();
    assert_eq!(report.audio_packets_received_on_time, 3);
    assert_eq!(report.audio_packets_received_late, 1);
    assert_eq!(report.audio_packets_received_early, 1);
}

#[test]
fn playback_round_follows_the_current_session() {
    let mut stats = Stats::new();
    let mut receiver = Receiver::new();
    assert!(matches!(receiver.run_stream(SessionId(1), &mut stats), Playback::Exit));
    receiver.receive(audio(1, 7), NOW, &mut stats);
    assert_eq!(receiver.head_seq(SessionId(1)), Some(7));
    assert_eq!(receiver.head_seq(SessionId(2)), None);
    assert!(matches!(receiver.run_stream(SessionId(1), &mut stats), Playback::Write(_)));
    assert!(matches!(receiver.run_stream(SessionId(1), &mut stats), Playback::Write(_)));
    assert_eq!(receiver.head_seq(SessionId(1)), Some(9));
    receiver.receive(audio(2, 0), NOW, &mut stats);
    assert!(matches!(receiver.run_stream(SessionId(1), &mut stats), Playback::Exit));
    let report = stats.take();
    assert_eq!((report.stream_hit, report.stream_miss), (1, 1));
}

#[test]
fn time_reply_reaches_the_stream_of_its_session() {
    let mut stats = Stats::new();
    let mut stream = Stream::new(SessionId(4), 0);
    assert_eq!(stream.sid(), SessionId(4));
    stream.receive_time(time(4, Some(TimePhase::StreamReply)));
    assert_eq!(stream.head_seq(), 0);
    let mut receiver = Receiver::new();
    receiver.receive(audio(4, 0), NOW, &mut stats);
    assert!(matches!(
        receiver.receive(PacketKind::Time(time(4, Some(TimePhase::StreamReply))), NOW, &mut stats),
        Response::Nothing
    ));
    assert_eq!(receiver.session(), Some(SessionId(4)));
}

#[test]
fn app_task_is_named() {
    let task = start();
    assert_eq!(task.name, "bark::app");
    assert_eq!(task.stack_bytes, 8192);
    assert_eq!(task.priority, 0);
    assert_eq!(task.core, 0);
}

use rtsp_relay::error::RelayError;
use rtsp_relay::fanout::{Broadcaster, Consumed};
use rtsp_relay::frame::{CodedFrame, StreamItem};
use rtsp_relay::lifecycle::{Action, Controller, Event, Outcome, Phase, Stage};
use rtsp_relay::opts::Opts;
use rtsp_relay::session::{SessionDescriptor, SubStream};

fn controller() -> Controller {
    Controller::new(Opts::new("rtsp://camera/stream".to_string()))
}

fn session() -> SessionDescriptor {
    let extra = [&[0x67u8][..], b"SPS-bytes", &[0x68u8][..], b"PPS-bytes"].concat();
    SessionDescriptor::new(vec![SubStream::Video {
        codec_id: "avc1.4d001f".to_string(),
        extra_data: extra,
    }])
}

/// Drives a fresh run up to the streaming stage.
fn streaming(hub: &mut Broadcaster) -> Controller {
    let mut run = controller();
    assert_eq!(run.step(Event::Start, hub), Action::Describe);
    assert_eq!(run.step(Event::Described(session()), hub), Action::Setup(0));
    assert_eq!(run.step(Event::SetupDone, hub), Action::Play);
    assert_eq!(run.step(Event::PlayStarted, hub), Action::AwaitNext);
    run
}

#[test]
fn run_starts_idle() {
    let run = controller();
    assert_eq!(run.phase(), Phase::Idle);
    assert_eq!(run.stage(), Stage::Idle);
    assert_eq!(run.address(), "rtsp://camera/stream");
    assert_eq!(run.outcome(), None);
    assert!(run.selection().is_none());
}

#[test]
fn run_passes_through_its_phases() {
    let mut hub = Broadcaster::new();
    let mut run = controller();
    assert_eq!(run.step(Event::Start, &mut hub), Action::Describe);
    assert_eq!(run.phase(), Phase::Negotiating);
    assert_eq!(run.stage(), Stage::Describing);
    assert_eq!(run.step(Event::Described(session()), &mut hub), Action::Setup(0));
    assert_eq!(run.phase(), Phase::Negotiating);
    assert_eq!(run.stage(), Stage::SettingUp);
    assert_eq!(run.step(Event::SetupDone, &mut hub), Action::Play);
    assert_eq!(run.phase(), Phase::Negotiating);
    assert_eq!(run.stage(), Stage::Starting);
    assert_eq!(run.step(Event::PlayStarted, &mut hub), Action::AwaitNext);
    assert_eq!(run.phase(), Phase::Streaming);
    assert_eq!(run.stage(), Stage::Streaming);
    assert_eq!(run.outcome(), None);
}

#[test]
fn first_keyframe_reaches_the_subscriber_with_the_configuration() {
    let mut hub = Broadcaster::new();
    let mut sub = hub.subscribe();
    let mut run = streaming(&mut hub);
    let selection = run.selection().unwrap();
    assert_eq!(selection.index(), 0);
    assert_eq!(selection.codec(), "avc1.4d001f");
    let frame = CodedFrame::new(90_000, vec![0, 0, 0, 5, 0xAA], true, false);
    assert_eq!(run.step(Event::Item(StreamItem::Video(frame)), &mut hub), Action::AwaitNext);
    let relayed = match hub.consume(&mut sub) {
        Consumed::Frame(frame) => frame,
        other => panic!("expected a frame, got {:?}", other),
    };
    assert_eq!(relayed.metadata().ts(), 90_000);
    assert_eq!(relayed.metadata().media(), "video");
    assert_eq!(relayed.metadata().codec(), "avc1.4d001f");
    assert_eq!(relayed.metadata().frame_type(), Some("keyframe"));
    let expected = [
        &[0u8, 0, 0, 1, 0x67][..],
        b"SPS-bytes",
        &[0u8, 0, 0, 1, 0x68][..],
        b"PPS-bytes",
        &[0u8, 0, 0, 1, 0xAA][..],
    ]
    .concat();
    assert_eq!(relayed.payload(), expected.as_slice());
    assert_eq!(hub.consume(&mut sub), Consumed::Pending);
}

#[test]
fn frames_are_relayed_in_the_order_they_come() {
    let mut hub = Broadcaster::new();
    let mut sub = hub.subscribe();
    let mut run = streaming(&mut hub);
    for ts in 1..=3 {
        let frame = CodedFrame::new(ts, vec![0, 0, 0, 1, ts as u8], false, false);
        assert_eq!(run.step(Event::Item(StreamItem::Video(frame)), &mut hub), Action::AwaitNext);
        assert_eq!(run.step(Event::Item(StreamItem::Other), &mut hub), Action::AwaitNext);
    }
    assert_eq!(hub.published(), 3);
    for ts in 1..=3 {
        match hub.consume(&mut sub) {
            Consumed::Frame(frame) => {
                assert_eq!(frame.metadata().ts(), ts);
                assert_eq!(frame.metadata().frame_type(), None);
                assert_eq!(frame.payload(), &[0, 0, 0, 1, ts as u8][..]);
            }
            other => panic!("expected a frame, got {:?}", other),
        }
    }
}

#[test]
fn items_that_are_no_video_are_passed_over() {
    let mut hub = Broadcaster::new();
    let mut sub = hub.subscribe();
    let mut run = streaming(&mut hub);
    assert_eq!(run.step(Event::Item(StreamItem::Other), &mut hub), Action::AwaitNext);
    assert_eq!(run.phase(), Phase::Streaming);
    assert_eq!(hub.published(), 0);
    assert_eq!(hub.consume(&mut sub), Consumed::Pending);
}

#[test]
fn stop_request_ends_the_run_with_one_teardown() {
    let mut hub = Broadcaster::new();
    let mut sub = hub.subscribe();
    let mut run = streaming(&mut hub);
    let mut actions = vec![];
    actions.push(run.step(Event::StopRequested, &mut hub));
    assert_eq!(run.phase(), Phase::Stopped);
    assert_eq!(run.stage(), Stage::Closing);
    assert_eq!(run.outcome(), Some(Outcome::Stopped));
    assert!(hub.is_closed());
    // whatever comes in while the session is torn down changes nothing
    let late = CodedFrame::new(1, vec![0, 0, 0, 1, 9], true, false);
    actions.push(run.step(Event::Item(StreamItem::Video(late)), &mut hub));
    actions.push(run.step(Event::StopRequested, &mut hub));
    actions.push(run.step(Event::TeardownDone, &mut hub));
    actions.push(run.step(Event::TeardownDone, &mut hub));
    assert_eq!(
        actions,
        vec![
            Action::Teardown,
            Action::Nothing,
            Action::Nothing,
            Action::Exit { outcome: Outcome::Stopped, teardown_failed: false },
            Action::Nothing,
        ]
    );
    assert_eq!(actions.iter().filter(|a| **a == Action::Teardown).count(), 1);
    assert_eq!(run.phase(), Phase::Stopped);
    assert_eq!(run.stage(), Stage::Finished);
    assert_eq!(hub.published(), 0);
    assert_eq!(hub.consume(&mut sub), Consumed::Closed);
}

#[test]
fn failed_teardown_does_not_mask_the_outcome() {
    let mut hub = Broadcaster::new();
    let mut run = streaming(&mut hub);
    assert_eq!(run.step(Event::StopRequested, &mut hub), Action::Teardown);
    assert_eq!(
        run.step(Event::TeardownFailed, &mut hub),
        Action::Exit { outcome: Outcome::Stopped, teardown_failed: true }
    );
    assert_eq!(run.outcome(), Some(Outcome::Stopped));

    let mut hub = Broadcaster::new();
    let mut run = streaming(&mut hub);
    assert_eq!(run.step(Event::EndOfStream, &mut hub), Action::Teardown);
    assert_eq!(
        run.step(Event::TeardownFailed, &mut hub),
        Action::Exit { outcome: Outcome::Failed(RelayError::StreamEnded), teardown_failed: true }
    );
    assert_eq!(run.phase(), Phase::Failed);
}

/// Feeds `events` to a fresh run and expects it to fail with `error` at the
/// last of them.
fn expect_failure(events: Vec<Event>, error: RelayError) {
    let mut hub = Broadcaster::new();
    let mut sub = hub.subscribe();
    let mut run = controller();
    let last = events.len() - 1;
    for (i, event) in events.into_iter().enumerate() {
        let action = run.step(event, &mut hub);
        if i == last {
            assert_eq!(action, Action::Teardown);
        } else {
            assert_ne!(action, Action::Teardown);
            assert_ne!(action, Action::Nothing);
        }
    }
    assert_eq!(run.phase(), Phase::Failed);
    assert_eq!(run.outcome(), Some(Outcome::Failed(error)));
    assert!(hub.is_closed());
    assert_eq!(hub.consume(&mut sub), Consumed::Closed);
    assert_eq!(
        run.step(Event::TeardownDone, &mut hub),
        Action::Exit { outcome: Outcome::Failed(error), teardown_failed: false }
    );
    assert_eq!(run.stage(), Stage::Finished);
    assert_eq!(run.phase(), Phase::Failed);
}

#[test]
fn failed_description_fails_the_run() {
    expect_failure(vec![Event::Start, Event::DescribeFailed], RelayError::NegotiationFailed);
}

#[test]
fn session_without_video_fails_the_run() {
    let audio_only = SessionDescriptor::new(vec![SubStream::Other]);
    expect_failure(vec![Event::Start, Event::Described(audio_only)], RelayError::NoVideoStream);
}

#[test]
fn failed_setup_fails_the_run() {
    expect_failure(
        vec![Event::Start, Event::Described(session()), Event::SetupFailed],
        RelayError::SetupFailed,
    );
}

#[test]
fn failed_playback_start_fails_the_run() {
    expect_failure(
        vec![Event::Start, Event::Described(session()), Event::SetupDone, Event::PlayFailed],
        RelayError::PlaybackStartFailed,
    );
}

#[test]
fn end_of_stream_fails_the_run() {
    expect_failure(
        vec![
            Event::Start,
            Event::Described(session()),
            Event::SetupDone,
            Event::PlayStarted,
            Event::EndOfStream,
        ],
        RelayError::StreamEnded,
    );
}

#[test]
fn stream_failure_fails_the_run() {
    expect_failure(
        vec![
            Event::Start,
            Event::Described(session()),
            Event::SetupDone,
            Event::PlayStarted,
            Event::Item(StreamItem::Other),
            Event::StreamFailed,
        ],
        RelayError::StreamFailed,
    );
}

#[test]
fn stop_request_is_heard_only_while_streaming() {
    let mut hub = Broadcaster::new();
    let mut run = controller();
    assert_eq!(run.step(Event::StopRequested, &mut hub), Action::Nothing);
    assert_eq!(run.phase(), Phase::Idle);
    assert_eq!(run.step(Event::Start, &mut hub), Action::Describe);
    assert_eq!(run.step(Event::StopRequested, &mut hub), Action::Nothing);
    assert_eq!(run.stage(), Stage::Describing);
    assert_eq!(run.step(Event::Described(session()), &mut hub), Action::Setup(0));
    assert_eq!(run.step(Event::StopRequested, &mut hub), Action::Nothing);
    assert_eq!(run.step(Event::SetupDone, &mut hub), Action::Play);
    assert_eq!(run.step(Event::StopRequested, &mut hub), Action::Nothing);
    assert_eq!(run.stage(), Stage::Starting);
    assert!(!hub.is_closed());
}

#[test]
fn events_out_of_place_are_passed_over() {
    let mut hub = Broadcaster::new();
    let mut run = controller();
    assert_eq!(run.step(Event::PlayStarted, &mut hub), Action::Nothing);
    assert_eq!(run.step(Event::TeardownDone, &mut hub), Action::Nothing);
    assert_eq!(run.step(Event::Described(session()), &mut hub), Action::Nothing);
    assert_eq!(run.stage(), Stage::Idle);
    let mut run = streaming(&mut hub);
    assert_eq!(run.step(Event::Start, &mut hub), Action::Nothing);
    assert_eq!(run.step(Event::SetupFailed, &mut hub), Action::Nothing);
    assert_eq!(run.step(Event::TeardownFailed, &mut hub), Action::Nothing);
    assert_eq!(run.stage(), Stage::Streaming);
    assert_eq!(run.outcome(), None);
}

#[test]
fn selection_uses_the_first_video_sub_stream() {
    let mut hub = Broadcaster::new();
    let mut run = controller();
    run.step(Event::Start, &mut hub);
    let two = SessionDescriptor::new(vec![
        SubStream::Other,
        SubStream::Other,
        SubStream::Video { codec_id: "hvc1".to_string(), extra_data: vec![] },
        SubStream::Video { codec_id: "avc1".to_string(), extra_data: vec![0x67, 0x68] },
    ]);
    assert_eq!(run.step(Event::Described(two), &mut hub), Action::Setup(2));
    let selection = run.selection().unwrap();
    assert_eq!(selection.codec(), "hvc1");
    assert!(selection.config().is_empty());
}

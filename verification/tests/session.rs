use rtsp_relay::error::{ErrorClass, RelayError};
use rtsp_relay::opts::Opts;
use rtsp_relay::session::{SessionDescriptor, SubStream};

fn video(codec: &str, extra: &[u8]) -> SubStream {
    SubStream::Video { codec_id: codec.to_string(), extra_data: extra.to_vec() }
}

#[test]
fn first_video_sub_stream_is_selected() {
    let session = SessionDescriptor::new(vec![
        SubStream::Other,
        video("avc1.4d001f", &[0x67, 0x4D, 0x68, 0xEE]),
        video("hvc1", &[]),
    ]);
    assert_eq!(session.len(), 3);
    assert_eq!(session.find_video(), Some(1));
    let selection = session.negotiate().ok().unwrap();
    assert_eq!(selection.index(), 1);
    assert_eq!(selection.codec(), "avc1.4d001f");
    assert_eq!(
        selection.config().as_slice(),
        &[0, 0, 0, 1, 0x67, 0x4D, 0, 0, 0, 1, 0x68, 0xEE][..]
    );
}

#[test]
fn selection_of_a_stream_without_parameter_sets_has_an_empty_packet() {
    let session = SessionDescriptor::new(vec![video("avc1", &[1, 2, 3])]);
    let selection = session.negotiate().ok().unwrap();
    assert_eq!(selection.index(), 0);
    assert!(selection.config().is_empty());
}

#[test]
fn session_without_video_cannot_be_relayed() {
    let session = SessionDescriptor::new(vec![SubStream::Other, SubStream::Other]);
    assert_eq!(session.find_video(), None);
    assert_eq!(session.negotiate().err(), Some(RelayError::NoVideoStream));
    let empty = SessionDescriptor::new(vec![]);
    assert_eq!(empty.len(), 0);
    assert_eq!(empty.negotiate().err(), Some(RelayError::NoVideoStream));
}

#[test]
fn sub_streams_are_kept_in_order() {
    let session = SessionDescriptor::new(vec![SubStream::Other, video("avc1", &[9])]);
    assert_eq!(session.get(0), Some(&SubStream::Other));
    assert_eq!(session.get(1), Some(&video("avc1", &[9])));
    assert_eq!(session.get(2), None);
    assert!(!SubStream::Other.is_video());
    assert!(video("avc1", &[]).is_video());
}

#[test]
fn every_failure_has_its_class_and_its_text() {
    assert_eq!(RelayError::NoVideoStream.class(), ErrorClass::Configuration);
    assert_eq!(RelayError::NegotiationFailed.class(), ErrorClass::Transport);
    assert_eq!(RelayError::SetupFailed.class(), ErrorClass::Transport);
    assert_eq!(RelayError::PlaybackStartFailed.class(), ErrorClass::Transport);
    assert_eq!(RelayError::StreamFailed.class(), ErrorClass::Transport);
    assert_eq!(RelayError::StreamEnded.class(), ErrorClass::StreamEnded);
    assert_eq!(RelayError::NoVideoStream.message(), "couldn't find video stream");
    assert_eq!(RelayError::NegotiationFailed.message(), "session negotiation failed");
    assert_eq!(RelayError::SetupFailed.message(), "stream setup failed");
    assert_eq!(RelayError::PlaybackStartFailed.message(), "playback start failed");
    assert_eq!(RelayError::StreamEnded.message(), "EOF");
    assert_eq!(RelayError::StreamFailed.message(), "stream failed");
}

#[test]
fn address_is_kept_as_the_parser_writes_it() {
    let opts = Opts::parse("rtsp://camera.local:554/stream").unwrap();
    assert_eq!(opts.url(), "rtsp://camera.local:554/stream");
    // the parser drops white space around the address and lowers the scheme
    let trimmed = Opts::parse("  RTSP://camera/live \n").unwrap();
    assert_eq!(trimmed.url(), "rtsp://camera/live");
}

#[test]
fn text_that_is_no_url_gives_no_options() {
    assert_eq!(Opts::parse("camera"), None);
    assert_eq!(Opts::parse(""), None);
    assert_eq!(Opts::parse("//camera/stream"), None);
}

#[test]
fn options_can_be_made_from_an_address_as_given() {
    let opts = Opts::new("rtsp://camera/stream".to_string());
    assert_eq!(opts.url(), "rtsp://camera/stream");
    assert_eq!(opts.clone(), opts);
    assert_eq!(Opts::from_parsed(None), None);
    assert_eq!(Opts::from_parsed(Some("x:y".to_string())), Some(Opts::new("x:y".to_string())));
}

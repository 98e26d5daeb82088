use rtsp_relay::config::{find_marker, ConfigPacket, FIRST_SET_TYPE, SECOND_SET_TYPE};

const START: [u8; 4] = [0, 0, 0, 1];

fn blob(parts: &[&[u8]]) -> Vec<u8> {
    parts.concat()
}

#[test]
fn packet_holds_both_sets_behind_start_codes() {
    let extra = blob(&[&[0x67], b"SPS-bytes", &[0x68], b"PPS-bytes"]);
    let packet = ConfigPacket::extract(&extra);
    let expected = blob(&[&START, &[0x67], b"SPS-bytes", &START, &[0x68], b"PPS-bytes"]);
    assert_eq!(packet.as_slice(), expected.as_slice());
    assert_eq!(packet.len(), 8 + extra.len());
    assert!(!packet.is_empty());
}

#[test]
fn packet_starts_at_the_first_marker() {
    let extra = [0x01, 0x42, 0x00, 0x67, 0x11, 0x22, 0x68, 0x33];
    let packet = ConfigPacket::extract(&extra);
    assert_eq!(
        packet.as_slice(),
        &[0, 0, 0, 1, 0x67, 0x11, 0x22, 0, 0, 0, 1, 0x68, 0x33][..]
    );
}

#[test]
fn packet_takes_the_first_occurrence_of_each_marker() {
    let extra = [0x67, 0x01, 0x67, 0x02, 0x68, 0x03, 0x68, 0x04];
    let packet = ConfigPacket::extract(&extra);
    assert_eq!(
        packet.as_slice(),
        &[0, 0, 0, 1, 0x67, 0x01, 0x67, 0x02, 0, 0, 0, 1, 0x68, 0x03, 0x68, 0x04][..]
    );
}

#[test]
fn marker_is_read_through_the_mask() {
    // 0x27 & 0x1F == 7 and 0xE8 & 0x1F == 8
    let extra = [0x27, 0xAA, 0xE8, 0xBB];
    assert_eq!(find_marker(&extra, FIRST_SET_TYPE), Some(0));
    assert_eq!(find_marker(&extra, SECOND_SET_TYPE), Some(2));
    let packet = ConfigPacket::extract(&extra);
    assert_eq!(packet.as_slice(), &[0, 0, 0, 1, 0x27, 0xAA, 0, 0, 0, 1, 0xE8, 0xBB][..]);
}

#[test]
fn adjacent_markers_give_two_one_byte_sets() {
    let packet = ConfigPacket::extract(&[0x67, 0x68]);
    assert_eq!(packet.as_slice(), &[0, 0, 0, 1, 0x67, 0, 0, 0, 1, 0x68][..]);
}

#[test]
fn packet_is_empty_without_markers() {
    assert!(ConfigPacket::extract(&[]).is_empty());
    assert!(ConfigPacket::extract(&[0x01, 0x02, 0x03]).is_empty());
    assert_eq!(ConfigPacket::extract(&[0x01, 0x02, 0x03]).len(), 0);
}

#[test]
fn packet_is_empty_with_one_marker_only() {
    assert!(ConfigPacket::extract(&[0x67, 0x01, 0x02]).is_empty());
    assert!(ConfigPacket::extract(&[0x01, 0x68, 0x02]).is_empty());
}

#[test]
fn packet_is_empty_when_markers_are_reversed() {
    let extra = blob(&[&[0x68], b"PPS-bytes", &[0x67], b"SPS-bytes"]);
    let packet = ConfigPacket::extract(&extra);
    assert!(packet.is_empty());
    assert_eq!(packet.as_slice(), &[][..] as &[u8]);
}

#[test]
fn reversed_first_occurrences_decide_even_with_a_later_second_marker() {
    // first 0x68 at 0, first 0x67 at 1: reversed, whatever follows
    let packet = ConfigPacket::extract(&[0x68, 0x67, 0x68]);
    assert!(packet.is_empty());
}

#[test]
fn find_marker_reports_absence() {
    assert_eq!(find_marker(&[], FIRST_SET_TYPE), None);
    assert_eq!(find_marker(&[0x68, 0x01], FIRST_SET_TYPE), None);
    assert_eq!(find_marker(&[0x00, 0x00, 0x67], FIRST_SET_TYPE), Some(2));
}

#[test]
fn empty_packet_has_no_bytes() {
    let packet = ConfigPacket::empty();
    assert!(packet.is_empty());
    assert_eq!(packet.len(), 0);
}

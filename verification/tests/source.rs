use playback::source::{file_position, stream_position};
use playback::HEADER_OFFSET;

#[test]
fn the_header_is_167_bytes_long() {
    assert_eq!(HEADER_OFFSET, 167);
}

#[test]
fn bitstream_positions_are_shifted_by_the_header() {
    assert_eq!(file_position(HEADER_OFFSET, 0), Some(167));
    assert_eq!(file_position(HEADER_OFFSET, 1_000), Some(1_167));
    assert_eq!(file_position(0, 5), Some(5));
    assert_eq!(file_position(HEADER_OFFSET, u64::MAX - 167), Some(u64::MAX));
}

#[test]
fn positions_past_the_last_offset_have_no_place_in_the_file() {
    assert_eq!(file_position(HEADER_OFFSET, u64::MAX - 166), None);
    assert_eq!(file_position(HEADER_OFFSET, u64::MAX), None);
    assert_eq!(file_position(u64::MAX, 1), None);
}

#[test]
fn file_positions_are_read_back_without_the_header() {
    assert_eq!(stream_position(HEADER_OFFSET, 167), 0);
    assert_eq!(stream_position(HEADER_OFFSET, 1_167), 1_000);
    assert_eq!(stream_position(HEADER_OFFSET, u64::MAX), u64::MAX - 167);
}

#[test]
fn a_position_inside_the_header_counts_as_the_start() {
    assert_eq!(stream_position(HEADER_OFFSET, 0), 0);
    assert_eq!(stream_position(HEADER_OFFSET, 166), 0);
}

#[test]
fn positions_round_trip() {
    for position in [0, 1, 166, 167, 168, 1 << 40] {
        let target = file_position(HEADER_OFFSET, position).unwrap();
        assert_eq!(stream_position(HEADER_OFFSET, target), position);
    }
}

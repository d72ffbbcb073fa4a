use btwattch2::reassembler::Reassembler;

/// A 23-byte frame whose first byte is the marker and whose other bytes
/// are distinct values that never equal the marker.
fn sample_frame() -> Vec<u8> {
    let mut f = vec![0xAA];
    for i in 1..23u8 {
        f.push(i);
    }
    f
}

#[test]
fn whole_frame_in_one_chunk() {
    let frame = sample_frame();
    let mut r = Reassembler::new();
    let out = r.feed(&frame);
    assert_eq!(out, Some(frame));
    assert_eq!(r.buffered_len(), 0);
}

#[test]
fn split_frame_reassembles_at_every_split_point() {
    let frame = sample_frame();
    for k in 1..23 {
        let mut r = Reassembler::new();
        assert_eq!(r.feed(&frame[..k]), None);
        assert_eq!(r.feed(&frame[k..]), Some(frame.clone()));
        assert_eq!(r.buffered_len(), 0);
    }
}

#[test]
fn split_frame_reassembles_across_three_chunks() {
    let frame = sample_frame();
    let mut r = Reassembler::new();
    assert_eq!(r.feed(&frame[..7]), None);
    assert_eq!(r.feed(&frame[7..15]), None);
    assert_eq!(r.feed(&frame[15..]), Some(frame));
}

#[test]
fn marker_chunk_discards_partial_accumulation() {
    let mut r = Reassembler::new();
    assert_eq!(r.feed(&[0xAA, 0x10, 0x20, 0x30]), None);
    assert_eq!(r.buffered_len(), 4);
    let frame = sample_frame();
    assert_eq!(r.feed(&frame), Some(frame));
    assert_eq!(r.buffered_len(), 0);
}

#[test]
fn empty_chunk_is_ignored() {
    let mut r = Reassembler::new();
    assert_eq!(r.feed(&[0xAA, 0x10]), None);
    assert_eq!(r.feed(&[]), None);
    assert_eq!(r.buffered_len(), 2);
}

#[test]
fn cold_start_chunk_without_marker_is_buffered() {
    let mut r = Reassembler::new();
    assert_eq!(r.feed(&[0x01, 0x02, 0x03]), None);
    assert_eq!(r.buffered_len(), 3);
    let frame = sample_frame();
    assert_eq!(r.feed(&frame), Some(frame));
}

#[test]
fn second_fragment_starting_with_marker_resyncs_instead_of_completing() {
    // A fragment that itself begins with the marker byte restarts
    // accumulation, even mid-frame: the pair does not complete.
    let mut frame = sample_frame();
    frame[11] = 0xAA;
    let mut r = Reassembler::new();
    assert_eq!(r.feed(&frame[..11]), None);
    assert_eq!(r.feed(&frame[11..]), None);
    assert_eq!(r.buffered_len(), 12);
}

#[test]
fn excess_bytes_beyond_frame_are_dropped() {
    let mut chunk = sample_frame();
    chunk.push(0x77);
    chunk.push(0x78);
    let mut r = Reassembler::new();
    assert_eq!(r.feed(&chunk), Some(sample_frame()));
    assert_eq!(r.buffered_len(), 0);
}

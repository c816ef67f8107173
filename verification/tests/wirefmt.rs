use ohes_core::{get_frame, get_varint, put_frame, put_varint};

#[test]
fn varint_round_trips() {
    for value in [0u64, 1, 127, 128, 300, 16384, u64::MAX] {
        let mut buf = Vec::new();
        put_varint(&mut buf, value);
        let (back, end) = get_varint(&buf, 0).expect("decodes");
        assert_eq!(back, value);
        assert_eq!(end, buf.len());
    }
}

#[test]
fn varint_encoding_is_base_128() {
    let mut buf = Vec::new();
    put_varint(&mut buf, 300);
    assert_eq!(buf, vec![0xAC, 0x02]);
    let mut buf = Vec::new();
    put_varint(&mut buf, 5);
    assert_eq!(buf, vec![5]);
}

#[test]
fn truncated_varint_is_refused() {
    assert!(get_varint(&vec![0x80u8], 0).is_none());
    assert!(get_varint(&Vec::new(), 0).is_none());
}

#[test]
fn frame_round_trips_with_trailing_bytes() {
    let mut buf = Vec::new();
    put_frame(&mut buf, &b"payload".to_vec());
    buf.push(0xEE);
    let (content, end) = get_frame(&buf, 0).expect("frame decodes");
    assert_eq!(content, b"payload".to_vec());
    assert_eq!(end, buf.len() - 1);
}

#[test]
fn short_frame_is_refused() {
    // announces four bytes, carries two
    assert!(get_frame(&vec![4u8, 1, 2], 0).is_none());
}

#[test]
fn oversized_varint_is_refused() {
    // eleven continuation bytes describe a value beyond 64 bits
    let buf = vec![0xFFu8, 0xFF, 0xFF, 0xFF, 0xFF, 0xFF, 0xFF, 0xFF, 0xFF, 0xFF, 0x01];
    assert!(get_varint(&buf, 0).is_none());
}

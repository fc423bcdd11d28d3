use ferry::header::Header;

#[test]
fn header_encoding() {
    let h = Header::with_parts(1_048_576, 4);
    assert_eq!(h.bytes(), &[0x00, 0x00, 0x00, 0x00, 0x00, 0x10, 0x00, 0x00, 0x00, 0x04]);
    assert_eq!(Header::len(), 10);
}

#[test]
fn header_round_trip() {
    for (ps, pc) in [(0u64, 0u16), (1, 1), (u64::MAX, u16::MAX), (0x0102_0304_0506_0708, 0x0a0b)] {
        let h = Header::with_parts(ps, pc);
        let back = Header::from_bytes(&h.bytes()[..]);
        assert_eq!(back.part_size(), ps);
        assert_eq!(back.part_count(), pc);
    }
    let mut h = Header::new();
    assert_eq!(h.bytes(), &[0u8; 10]);
    h.set_part_count(&513);
    h.set_part_size(&258);
    assert_eq!(h.bytes(), &[0, 0, 0, 0, 0, 0, 1, 2, 2, 1]);
}

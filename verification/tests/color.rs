use ddlm::color::argb8888;

#[test]
fn packs_alpha_first() {
    assert_eq!(argb8888(0xFF, 0x00, 0x00, 0x00), 0xFF00_0000);
    assert_eq!(argb8888(0x12, 0x34, 0x56, 0x78), 0x1234_5678);
    assert_eq!(argb8888(0, 0, 0, 0), 0);
    assert_eq!(argb8888(255, 191, 191, 191), 0xFFBF_BFBF);
}

#[test]
fn packs_like_big_endian_bytes() {
    assert_eq!(argb8888(1, 2, 3, 4), u32::from_be_bytes([1, 2, 3, 4]));
}

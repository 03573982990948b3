use rmk_boot::diag::le_words;

#[test]
fn decodes_little_endian_words() {
    let b = [
        0x00, 0x10, 0x00, 0x20, 0x01, 0x02, 0x03, 0x04, 0xff, 0xff, 0xff, 0xff, 0, 0, 0, 0,
    ];
    assert_eq!(le_words(&b), [0x2000_1000, 0x0403_0201, 0xffff_ffff, 0]);
}

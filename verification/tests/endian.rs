use fdt::u32_from_be_byte_slice;
use fdt::u64_from_be_byte_slice;

#[test]
fn u32_decode_exact_value() {
    assert_eq!(
        u32_from_be_byte_slice(&[0xde, 0xad, 0xbe, 0xef]),
        Some(0xdead_beef)
    );
    assert_eq!(u32_from_be_byte_slice(&[0x00, 0x00, 0x00, 0x09]), Some(9));
    assert_eq!(u32_from_be_byte_slice(&[0x00, 0x00, 0x00, 0x00]), Some(0));
    assert_eq!(
        u32_from_be_byte_slice(&[0xff, 0xff, 0xff, 0xff]),
        Some(u32::MAX)
    );
}

#[test]
fn u32_decode_ignores_trailing_bytes() {
    assert_eq!(
        u32_from_be_byte_slice(&[0x12, 0x34, 0x56, 0x78, 0x9a, 0xbc]),
        Some(0x1234_5678)
    );
}

#[test]
fn u32_decode_short_input_fails() {
    assert_eq!(u32_from_be_byte_slice(&[]), None);
    assert_eq!(u32_from_be_byte_slice(&[0x01]), None);
    assert_eq!(u32_from_be_byte_slice(&[0x01, 0x02]), None);
    assert_eq!(u32_from_be_byte_slice(&[0x01, 0x02, 0x03]), None);
}

#[test]
fn u32_decode_matches_manual_composition() {
    let span = [0x0a, 0x0b, 0x0c, 0x0d];
    let manual = ((span[0] as u32) << 24)
        | ((span[1] as u32) << 16)
        | ((span[2] as u32) << 8)
        | (span[3] as u32);
    assert_eq!(u32_from_be_byte_slice(&span), Some(manual));
}

#[test]
fn u32_round_trip() {
    for v in [0u32, 1, 9, 0x100, 0xdead_beef, u32::MAX] {
        let bytes = [
            (v >> 24) as u8,
            (v >> 16) as u8,
            (v >> 8) as u8,
            v as u8,
        ];
        assert_eq!(u32_from_be_byte_slice(&bytes), Some(v));
    }
}

#[test]
fn u64_decode_exact_value() {
    assert_eq!(
        u64_from_be_byte_slice(&[0x01, 0x23, 0x45, 0x67, 0x89, 0xab, 0xcd, 0xef]),
        Some(0x0123_4567_89ab_cdef)
    );
    assert_eq!(
        u64_from_be_byte_slice(&[0xff; 8]),
        Some(u64::MAX)
    );
}

#[test]
fn u64_decode_short_input_fails() {
    assert_eq!(u64_from_be_byte_slice(&[]), None);
    assert_eq!(u64_from_be_byte_slice(&[0x01, 0x02, 0x03, 0x04]), None);
    assert_eq!(u64_from_be_byte_slice(&[0x01, 0x02, 0x03, 0x04, 0x05, 0x06, 0x07]), None);
}

#[test]
fn u64_round_trip() {
    for v in [0u64, 1, 0x1_0000_0000, 0xdead_beef_cafe_f00d, u64::MAX] {
        let bytes = v.to_be_bytes();
        assert_eq!(u64_from_be_byte_slice(&bytes), Some(v));
    }
}

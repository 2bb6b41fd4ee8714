use rustboy::bits::check_bit;
use rustboy::bits::sign_extend;
use rustboy::bits::u16_as_u8s;
use rustboy::bits::u8s_as_u16;

#[test]
fn test_u8s_as_u16() {
    assert_eq!(u8s_as_u16((0x12, 0x34)), 0x1234);
    assert_eq!(u8s_as_u16((0xFF, 0xEF)), 0xFFEF);
}

#[test]
fn test_u16_as_u8s() {
    assert_eq!(u16_as_u8s(0x1234), (0x12, 0x34));
    assert_eq!(u16_as_u8s(0xFFFF), (0xFF, 0xFF));
}

#[test]
fn test_check_bit() {
    assert!(check_bit(0b0100_0000, 6));
    assert!(check_bit(0b0000_1000, 3));
    assert!(check_bit(0b0100_0001, 0));
    assert!(!check_bit(0b0100_0001, 3));
    assert!(!check_bit(0b0100_0001, 7));
}

#[test]
fn test_word_round_trip() {
    for value in [0u16, 1, 0x00FF, 0x0100, 0x1234, 0x8000, 0xFFFE, 0xFFFF] {
        assert_eq!(u8s_as_u16(u16_as_u8s(value)), value);
    }
}

#[test]
fn test_sign_extend() {
    assert_eq!(sign_extend(0x00), 0x0000);
    assert_eq!(sign_extend(0x7F), 0x007F);
    assert_eq!(sign_extend(0x80), 0xFF80);
    assert_eq!(sign_extend(0xFE), 0xFFFE);
    assert_eq!(sign_extend(0xFF), 0xFFFF);
}

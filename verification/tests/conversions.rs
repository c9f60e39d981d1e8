use stlink_probe::common::push_u16_le;
use stlink_probe::common::push_u32_le;
use stlink_probe::common::u16_of_le;
use stlink_probe::common::u24_of_le;
use stlink_probe::common::u32_of_le;
use stlink_probe::common::BytesTo;

#[test]
fn convert_u32() {
    assert_eq!((&[0x42u8, 0, 0, 0][..]).to_u32(), 0x42);
    assert_eq!((&[0, 0x42u8, 0, 0][..]).to_u32(), 0x4200);
    assert_eq!((&[0, 0, 0x42u8, 0][..]).to_u32(), 0x420000);
    assert_eq!((&[0, 0, 0, 0x42u8][..]).to_u32(), 0x42000000);
}

#[test]
fn convert_u16() {
    assert_eq!((&[0x42u8, 0][..]).to_u16(), 0x42);
    assert_eq!((&[0, 0x42u8][..]).to_u16(), 0x4200);
}

#[test]
fn byte_helpers_match_trait() {
    assert_eq!(u16_of_le(0xcd, 0xab), 0xabcd);
    assert_eq!(u32_of_le(0x78, 0x56, 0x34, 0x12), 0x12345678);
    assert_eq!(u24_of_le(0x78, 0x56, 0x34), 0x345678);
    assert_eq!(u24_of_le(0xff, 0xff, 0xff), 0xffffff);
}

#[test]
fn encode_u16_round_trip() {
    let mut v: Vec<u8> = Vec::new();
    push_u16_le(&mut v, 0xabcd);
    assert_eq!(v, vec![0xcd, 0xab]);
    assert_eq!((&v[..]).to_u16(), 0xabcd);
}

#[test]
fn encode_u32_round_trip() {
    let mut v: Vec<u8> = Vec::new();
    push_u32_le(&mut v, 0xdeadbeef);
    assert_eq!(v, vec![0xef, 0xbe, 0xad, 0xde]);
    assert_eq!((&v[..]).to_u32(), 0xdeadbeef);
}

#[test]
fn encode_appends_after_existing_bytes() {
    let mut v: Vec<u8> = vec![0xf2, 0x07];
    push_u32_le(&mut v, 0x20001000);
    push_u16_le(&mut v, 0x0400);
    assert_eq!(v, vec![0xf2, 0x07, 0x00, 0x10, 0x00, 0x20, 0x00, 0x04]);
}

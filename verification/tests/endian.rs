use wasmdbg::{ExtendTo, LittleEndianConvert, WrapTo, F32, F64};

#[test]
fn integers_are_written_least_significant_byte_first() {
    let mut two = [0u8; 2];
    0x1234u16.to_little_endian(&mut two);
    assert_eq!(two, [0x34, 0x12]);
    let mut four = [0u8; 4];
    0x1234_5678u32.to_little_endian(&mut four);
    assert_eq!(four, [0x78, 0x56, 0x34, 0x12]);
    (-2i32).to_little_endian(&mut four);
    assert_eq!(four, [0xfe, 0xff, 0xff, 0xff]);
    let mut eight = [0u8; 8];
    0x0102_0304_0506_0708u64.to_little_endian(&mut eight);
    assert_eq!(eight, [8, 7, 6, 5, 4, 3, 2, 1]);
    i64::MIN.to_little_endian(&mut eight);
    assert_eq!(eight, [0, 0, 0, 0, 0, 0, 0, 0x80]);
    let mut one = [0u8; 1];
    (-1i8).to_little_endian(&mut one);
    assert_eq!(one, [0xff]);
    7u8.to_little_endian(&mut one);
    assert_eq!(one, [7]);
    (-2i16).to_little_endian(&mut two);
    assert_eq!(two, [0xfe, 0xff]);
}

#[test]
fn writing_leaves_the_rest_of_the_buffer() {
    let mut buffer = [9u8; 6];
    0x0102_0304u32.to_little_endian(&mut buffer);
    assert_eq!(buffer, [4, 3, 2, 1, 9, 9]);
}

#[test]
fn integers_are_read_least_significant_byte_first() {
    assert_eq!(u16::from_little_endian(&[0x34, 0x12]), 0x1234);
    assert_eq!(i16::from_little_endian(&[0xfe, 0xff]), -2);
    assert_eq!(u32::from_little_endian(&[0x78, 0x56, 0x34, 0x12]), 0x1234_5678);
    assert_eq!(i32::from_little_endian(&[0xfe, 0xff, 0xff, 0xff]), -2);
    assert_eq!(u64::from_little_endian(&[8, 7, 6, 5, 4, 3, 2, 1]), 0x0102_0304_0506_0708);
    assert_eq!(i64::from_little_endian(&[0, 0, 0, 0, 0, 0, 0, 0x80]), i64::MIN);
    assert_eq!(u8::from_little_endian(&[7, 8]), 7);
    assert_eq!(i8::from_little_endian(&[0xff]), -1);
    assert_eq!(u32::from_little_endian(&[1, 0, 0, 0, 0xff, 0xff]), 1);
}

#[test]
fn decoding_what_was_encoded_gives_the_value_back() {
    let mut four = [0u8; 4];
    let mut eight = [0u8; 8];
    for v in [0i32, 1, -1, i32::MIN, i32::MAX, 0x1234_5678] {
        v.to_little_endian(&mut four);
        assert_eq!(i32::from_little_endian(&four), v);
    }
    for v in [0i64, 1, -1, i64::MIN, i64::MAX, 0x1234_5678_9abc_def0] {
        v.to_little_endian(&mut eight);
        assert_eq!(i64::from_little_endian(&eight), v);
    }
}

#[test]
fn float_bits_survive_encoding() {
    let mut four = [0u8; 4];
    let mut eight = [0u8; 8];
    for bits in [0u32, 0x3f80_0000, 0x7fc0_0000, 0x7fc0_0001, 0xffc1_2345, 0x7f80_0001, 0x8000_0000] {
        F32::from_bits(bits).to_little_endian(&mut four);
        assert_eq!(four, bits.to_le_bytes());
        assert_eq!(F32::from_little_endian(&four), F32::from_bits(bits));
        assert_eq!(F32::from_little_endian(&four).to_bits(), bits);
    }
    for bits in [0u64, 0x3ff0_0000_0000_0000, 0x7ff8_0000_0000_0000, 0x7ff8_0000_0000_0001, 0xfff0_0000_dead_beef] {
        F64::from_bits(bits).to_little_endian(&mut eight);
        assert_eq!(eight, bits.to_le_bytes());
        assert_eq!(F64::from_little_endian(&eight).to_bits(), bits);
    }
}

#[test]
fn extension_repeats_the_sign_or_fills_with_zeros() {
    let a: u32 = (-1i8).extend_to();
    assert_eq!(a, 0xffff_ffff);
    let b: u32 = 0xffu8.extend_to();
    assert_eq!(b, 0xff);
    let c: u32 = (-2i16).extend_to();
    assert_eq!(c, 0xffff_fffe);
    let d: u32 = 0xffffu16.extend_to();
    assert_eq!(d, 0xffff);
    let e: u64 = (-1i8).extend_to();
    assert_eq!(e, u64::MAX);
    let f: u64 = 0x80u8.extend_to();
    assert_eq!(f, 0x80);
    let g: u64 = i16::MIN.extend_to();
    assert_eq!(g, 0xffff_ffff_ffff_8000);
    let h: u64 = 0x8000u16.extend_to();
    assert_eq!(h, 0x8000);
    let i: u64 = i32::MIN.extend_to();
    assert_eq!(i, 0xffff_ffff_8000_0000);
    let j: u64 = 0x8000_0000u32.extend_to();
    assert_eq!(j, 0x8000_0000);
}

#[test]
fn wrapping_keeps_the_low_bits() {
    let a: u8 = 0x12u8.wrap_to();
    assert_eq!(a, 0x12);
    let b: u8 = 0x1234u16.wrap_to();
    assert_eq!(b, 0x34);
    let c: u8 = 0x1234_5678u32.wrap_to();
    assert_eq!(c, 0x78);
    let d: u16 = 0x1234_5678u32.wrap_to();
    assert_eq!(d, 0x5678);
    let e: u8 = 0x0102_0304_0506_0708u64.wrap_to();
    assert_eq!(e, 0x08);
    let f: u16 = 0x0102_0304_0506_0708u64.wrap_to();
    assert_eq!(f, 0x0708);
    let g: u32 = 0x0102_0304_0506_0708u64.wrap_to();
    assert_eq!(g, 0x0506_0708);
}

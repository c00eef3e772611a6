use beep::convert::{
    code_to_i16, code_to_i32, code_to_i64, code_to_i8, code_to_u16, code_to_u32, code_to_u64,
    code_to_u8, CODE_ONE,
};

#[test]
fn signed_formats_map_zero_to_zero() {
    assert_eq!(code_to_i8(0), 0);
    assert_eq!(code_to_i16(0), 0);
    assert_eq!(code_to_i32(0), 0);
    assert_eq!(code_to_i64(0), 0);
}

#[test]
fn unsigned_formats_map_zero_to_midpoint() {
    assert_eq!(code_to_u8(0), 128);
    assert_eq!(code_to_u16(0), 0x8000);
    assert_eq!(code_to_u32(0), 0x8000_0000);
    assert_eq!(code_to_u64(0), 0x8000_0000_0000_0000);
}

#[test]
fn full_positive_scale_maps_to_max() {
    assert_eq!(code_to_i8(CODE_ONE), i8::MAX);
    assert_eq!(code_to_i16(CODE_ONE), i16::MAX);
    assert_eq!(code_to_i32(CODE_ONE), i32::MAX);
    assert_eq!(code_to_i64(CODE_ONE), i64::MAX);
    assert_eq!(code_to_u8(CODE_ONE), u8::MAX);
    assert_eq!(code_to_u16(CODE_ONE), u16::MAX);
    assert_eq!(code_to_u32(CODE_ONE), u32::MAX);
    assert_eq!(code_to_u64(CODE_ONE), u64::MAX);
}

#[test]
fn full_negative_scale_maps_to_min() {
    assert_eq!(code_to_i8(-CODE_ONE), i8::MIN);
    assert_eq!(code_to_i16(-CODE_ONE), i16::MIN);
    assert_eq!(code_to_i32(-CODE_ONE), i32::MIN);
    assert_eq!(code_to_i64(-CODE_ONE), i64::MIN);
    assert_eq!(code_to_u8(-CODE_ONE), 0);
    assert_eq!(code_to_u16(-CODE_ONE), 0);
    assert_eq!(code_to_u32(-CODE_ONE), 0);
    assert_eq!(code_to_u64(-CODE_ONE), 0);
}

#[test]
fn intermediate_amplitudes_scale_linearly() {
    assert_eq!(code_to_u8(CODE_ONE / 2), 192);
    assert_eq!(code_to_u8(-CODE_ONE / 2), 64);
    assert_eq!(code_to_i16(CODE_ONE / 2), 0x4000);
    assert_eq!(code_to_i16(-0x200), -1);
    assert_eq!(code_to_i64(1), 1 << 39);
    assert_eq!(code_to_u32(1), 0x8000_0000 + 0x80);
}

use int_conv::ZeroExtended;

#[test]
fn zero_extend_unsigned() {
    assert_eq!(  u8::zero_extended::<  u8>(1), 1);
    assert_eq!(  u8::zero_extended::< u16>(1), 1);
    assert_eq!(  u8::zero_extended::< u32>(1), 1);
    assert_eq!(  u8::zero_extended::< u64>(1), 1);
    assert_eq!(  u8::zero_extended::<u128>(1), 1);
    assert_eq!( u16::zero_extended::< u16>(1), 1);
    assert_eq!( u16::zero_extended::< u32>(1), 1);
    assert_eq!( u16::zero_extended::< u64>(1), 1);
    assert_eq!( u16::zero_extended::<u128>(1), 1);
    assert_eq!( u32::zero_extended::< u32>(1), 1);
    assert_eq!( u32::zero_extended::< u64>(1), 1);
    assert_eq!( u32::zero_extended::<u128>(1), 1);
    assert_eq!( u64::zero_extended::< u64>(1), 1);
    assert_eq!( u64::zero_extended::<u128>(1), 1);
    assert_eq!(u128::zero_extended::<u128>(1), 1);
}

#[test]
fn zero_extend_unsigned_big() {
    assert_eq!( u8::zero_extended::< u16>( u8::MAX),  u16::from( u8::MAX));
    assert_eq!( u8::zero_extended::< u32>( u8::MAX),  u32::from( u8::MAX));
    assert_eq!( u8::zero_extended::< u64>( u8::MAX),  u64::from( u8::MAX));
    assert_eq!( u8::zero_extended::<u128>( u8::MAX), u128::from( u8::MAX));
    assert_eq!(u16::zero_extended::< u32>(u16::MAX),  u32::from(u16::MAX));
    assert_eq!(u16::zero_extended::< u64>(u16::MAX),  u64::from(u16::MAX));
    assert_eq!(u16::zero_extended::<u128>(u16::MAX), u128::from(u16::MAX));
    assert_eq!(u32::zero_extended::< u64>(u32::MAX),  u64::from(u32::MAX));
    assert_eq!(u32::zero_extended::<u128>(u32::MAX), u128::from(u32::MAX));
    assert_eq!(u64::zero_extended::<u128>(u64::MAX), u128::from(u64::MAX));

    assert_eq!(  u8::zero_extended::<  u8>(  u8::MAX),   u8::MAX);
    assert_eq!( u16::zero_extended::< u16>( u16::MAX),  u16::MAX);
    assert_eq!( u32::zero_extended::< u32>( u32::MAX),  u32::MAX);
    assert_eq!( u64::zero_extended::< u64>( u64::MAX),  u64::MAX);
    assert_eq!(u128::zero_extended::<u128>(u128::MAX), u128::MAX);
}

#[test]
fn zero_extend_signed_positive() {
    assert_eq!(  i8::zero_extended::<  i8>(1), 1);
    assert_eq!(  i8::zero_extended::< i16>(1), 1);
    assert_eq!(  i8::zero_extended::< i32>(1), 1);
    assert_eq!(  i8::zero_extended::< i64>(1), 1);
    assert_eq!(  i8::zero_extended::<i128>(1), 1);
    assert_eq!( i16::zero_extended::< i16>(1), 1);
    assert_eq!( i16::zero_extended::< i32>(1), 1);
    assert_eq!( i16::zero_extended::< i64>(1), 1);
    assert_eq!( i16::zero_extended::<i128>(1), 1);
    assert_eq!( i32::zero_extended::< i32>(1), 1);
    assert_eq!( i32::zero_extended::< i64>(1), 1);
    assert_eq!( i32::zero_extended::<i128>(1), 1);
    assert_eq!( i64::zero_extended::< i64>(1), 1);
    assert_eq!( i64::zero_extended::<i128>(1), 1);
    assert_eq!(i128::zero_extended::<i128>(1), 1);
}

#[test]
fn zero_extend_signed_negative() {
    assert_eq!( i8::zero_extended::< i16>(-1),  i16::from(u8  ::MAX));
    assert_eq!( i8::zero_extended::< i32>(-1),  i32::from(u8  ::MAX));
    assert_eq!( i8::zero_extended::< i64>(-1),  i64::from(u8  ::MAX));
    assert_eq!( i8::zero_extended::<i128>(-1), i128::from(u8  ::MAX));
    assert_eq!(i16::zero_extended::< i32>(-1),  i32::from(u16 ::MAX));
    assert_eq!(i16::zero_extended::< i64>(-1),  i64::from(u16 ::MAX));
    assert_eq!(i16::zero_extended::<i128>(-1), i128::from(u16 ::MAX));
    assert_eq!(i32::zero_extended::< i64>(-1),  i64::from(u32 ::MAX));
    assert_eq!(i32::zero_extended::<i128>(-1), i128::from(u32 ::MAX));
    assert_eq!(i64::zero_extended::<i128>(-1), i128::from(u64 ::MAX));

    assert_eq!(  i8::zero_extended::<  i8>(-1), -1);
    assert_eq!( i16::zero_extended::< i16>(-1), -1);
    assert_eq!( i32::zero_extended::< i32>(-1), -1);
    assert_eq!( i64::zero_extended::< i64>(-1), -1);
    assert_eq!(i128::zero_extended::<i128>(-1), -1);
}

use int_conv::Split;

#[test]
fn split_lo() {
    assert_eq!(u128::lo(u128::MAX), u64::MAX);
    assert_eq!( u64::lo( u64::MAX), u32::MAX);
    assert_eq!( u32::lo( u32::MAX), u16::MAX);
    assert_eq!( u16::lo( u16::MAX),  u8::MAX);
}

#[test]
fn split_lo_half() {
    assert_eq!(u128::lo(u128::from(u64::MAX)), u64::MAX);
    assert_eq!( u64::lo( u64::from(u32::MAX)), u32::MAX);
    assert_eq!( u32::lo( u32::from(u16::MAX)), u16::MAX);
    assert_eq!( u16::lo( u16::from( u8::MAX)),  u8::MAX);
}

#[test]
fn split_hi() {
    assert_eq!(u128::hi(u128::MAX), u64::MAX);
    assert_eq!( u64::hi( u64::MAX), u32::MAX);
    assert_eq!( u32::hi( u32::MAX), u16::MAX);
    assert_eq!( u16::hi( u16::MAX),  u8::MAX);
}

#[test]
fn split_hi_half() {
    assert_eq!(u128::hi(u128::from(u64::MAX)), 0);
    assert_eq!( u64::hi( u64::from(u32::MAX)), 0);
    assert_eq!( u32::hi( u32::from(u16::MAX)), 0);
    assert_eq!( u16::hi( u16::from( u8::MAX)), 0);
}

#[test]
fn split_lo_hi() {
    assert_eq!(u128::lo_hi(u128::MAX), (u128::lo(u128::MAX), u128::hi(u128::MAX)));
    assert_eq!( u64::lo_hi( u64::MAX), ( u64::lo( u64::MAX),  u64::hi( u64::MAX)));
    assert_eq!( u32::lo_hi( u32::MAX), ( u32::lo( u32::MAX),  u32::hi( u32::MAX)));
    assert_eq!( u16::lo_hi( u16::MAX), ( u16::lo( u16::MAX),  u16::hi( u16::MAX)));
}

#[test]
fn split_lo_hi_half() {
    assert_eq!(u128::lo_hi(u128::from(u64::MAX)), (u128::lo(u128::from(u64::MAX)), u128::hi(u128::from(u64::MAX))));
    assert_eq!( u64::lo_hi( u64::from(u32::MAX)), ( u64::lo( u64::from(u32::MAX)),  u64::hi( u64::from(u32::MAX))));
    assert_eq!( u32::lo_hi( u32::from(u16::MAX)), ( u32::lo( u32::from(u16::MAX)),  u32::hi( u32::from(u16::MAX))));
    assert_eq!( u16::lo_hi( u16::from( u8::MAX)), ( u16::lo( u16::from( u8::MAX)),  u16::hi( u16::from( u8::MAX))));
}

use int_conv::{Extend, IntRepr, IsSigned, IsUnsigned, Join, SignExtend, Signed, Split, Truncate, ZeroExtend};

fn has_zero_extend<S: ZeroExtend<T>, T: IntRepr>() {}
fn has_sign_extend<S: SignExtend<T>, T: IntRepr>() {}
fn has_extend<S: Extend<T>, T: IntRepr>() {}
fn has_truncate<S: Truncate<T>, T: IntRepr>() {}
fn has_pair<T: Signed<Signed = S, Unsigned = U>, S, U>() {}
fn is_signed<T: IsSigned>() {}
fn is_unsigned<T: IsUnsigned>() {}
fn has_halves<T: Split<Lo = H, Hi = H> + Join, H>() {}

#[test]
fn coverage_zero_extend() {
    has_zero_extend::<u8, u8>();
    has_zero_extend::<u8, u16>();
    has_zero_extend::<u8, u32>();
    has_zero_extend::<u8, u64>();
    has_zero_extend::<u8, u128>();
    has_zero_extend::<u16, u16>();
    has_zero_extend::<u16, u32>();
    has_zero_extend::<u16, u64>();
    has_zero_extend::<u16, u128>();
    has_zero_extend::<u32, u32>();
    has_zero_extend::<u32, u64>();
    has_zero_extend::<u32, u128>();
    has_zero_extend::<u64, u64>();
    has_zero_extend::<u64, u128>();
    has_zero_extend::<u128, u128>();
    has_zero_extend::<i8, i8>();
    has_zero_extend::<i8, i16>();
    has_zero_extend::<i8, i32>();
    has_zero_extend::<i8, i64>();
    has_zero_extend::<i8, i128>();
    has_zero_extend::<i16, i16>();
    has_zero_extend::<i16, i32>();
    has_zero_extend::<i16, i64>();
    has_zero_extend::<i16, i128>();
    has_zero_extend::<i32, i32>();
    has_zero_extend::<i32, i64>();
    has_zero_extend::<i32, i128>();
    has_zero_extend::<i64, i64>();
    has_zero_extend::<i64, i128>();
    has_zero_extend::<i128, i128>();
}

#[test]
fn coverage_sign_extend() {
    has_sign_extend::<i8, i8>();
    has_sign_extend::<i8, i16>();
    has_sign_extend::<i8, i32>();
    has_sign_extend::<i8, i64>();
    has_sign_extend::<i8, i128>();
    has_sign_extend::<i16, i16>();
    has_sign_extend::<i16, i32>();
    has_sign_extend::<i16, i64>();
    has_sign_extend::<i16, i128>();
    has_sign_extend::<i32, i32>();
    has_sign_extend::<i32, i64>();
    has_sign_extend::<i32, i128>();
    has_sign_extend::<i64, i64>();
    has_sign_extend::<i64, i128>();
    has_sign_extend::<i128, i128>();
    has_sign_extend::<u8, u8>();
    has_sign_extend::<u16, u16>();
    has_sign_extend::<u32, u32>();
    has_sign_extend::<u64, u64>();
    has_sign_extend::<u128, u128>();
}

#[test]
fn coverage_extend() {
    has_extend::<u8, u8>();
    has_extend::<u8, u16>();
    has_extend::<u8, u32>();
    has_extend::<u8, u64>();
    has_extend::<u8, u128>();
    has_extend::<u16, u16>();
    has_extend::<u16, u32>();
    has_extend::<u16, u64>();
    has_extend::<u16, u128>();
    has_extend::<u32, u32>();
    has_extend::<u32, u64>();
    has_extend::<u32, u128>();
    has_extend::<u64, u64>();
    has_extend::<u64, u128>();
    has_extend::<u128, u128>();
    has_extend::<i8, i8>();
    has_extend::<i8, i16>();
    has_extend::<i8, i32>();
    has_extend::<i8, i64>();
    has_extend::<i8, i128>();
    has_extend::<i16, i16>();
    has_extend::<i16, i32>();
    has_extend::<i16, i64>();
    has_extend::<i16, i128>();
    has_extend::<i32, i32>();
    has_extend::<i32, i64>();
    has_extend::<i32, i128>();
    has_extend::<i64, i64>();
    has_extend::<i64, i128>();
    has_extend::<i128, i128>();
}

#[test]
fn coverage_truncate() {
    has_truncate::<u8, u8>();
    has_truncate::<u16, u8>();
    has_truncate::<u16, u16>();
    has_truncate::<u32, u8>();
    has_truncate::<u32, u16>();
    has_truncate::<u32, u32>();
    has_truncate::<u64, u8>();
    has_truncate::<u64, u16>();
    has_truncate::<u64, u32>();
    has_truncate::<u64, u64>();
    has_truncate::<u128, u8>();
    has_truncate::<u128, u16>();
    has_truncate::<u128, u32>();
    has_truncate::<u128, u64>();
    has_truncate::<u128, u128>();
    has_truncate::<i8, i8>();
    has_truncate::<i16, i8>();
    has_truncate::<i16, i16>();
    has_truncate::<i32, i8>();
    has_truncate::<i32, i16>();
    has_truncate::<i32, i32>();
    has_truncate::<i64, i8>();
    has_truncate::<i64, i16>();
    has_truncate::<i64, i32>();
    has_truncate::<i64, i64>();
    has_truncate::<i128, i8>();
    has_truncate::<i128, i16>();
    has_truncate::<i128, i32>();
    has_truncate::<i128, i64>();
    has_truncate::<i128, i128>();
}

#[test]
fn coverage_signedness_pairing() {
    has_pair::<i8, i8, u8>();
    has_pair::<u8, i8, u8>();
    is_signed::<i8>();
    is_unsigned::<u8>();
    has_pair::<i16, i16, u16>();
    has_pair::<u16, i16, u16>();
    is_signed::<i16>();
    is_unsigned::<u16>();
    has_pair::<i32, i32, u32>();
    has_pair::<u32, i32, u32>();
    is_signed::<i32>();
    is_unsigned::<u32>();
    has_pair::<i64, i64, u64>();
    has_pair::<u64, i64, u64>();
    is_signed::<i64>();
    is_unsigned::<u64>();
    has_pair::<i128, i128, u128>();
    has_pair::<u128, i128, u128>();
    is_signed::<i128>();
    is_unsigned::<u128>();
    has_pair::<isize, isize, usize>();
    has_pair::<usize, isize, usize>();
    is_signed::<isize>();
    is_unsigned::<usize>();
}

#[test]
fn coverage_split_join() {
    has_halves::<u16, u8>();
    has_halves::<u32, u16>();
    has_halves::<u64, u32>();
    has_halves::<u128, u64>();
}

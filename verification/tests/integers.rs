use wasmdbg::vm::Trap;
use wasmdbg::wasm::integer::count_ones_u64;
use wasmdbg::Integer;

#[test]
fn division_by_zero_fails() {
    assert_eq!(Integer::div(7i32, 0i32), Err(Trap::DivisionByZero));
    assert_eq!(Integer::div(7u32, 0u32), Err(Trap::DivisionByZero));
    assert_eq!(Integer::div(7i64, 0i64), Err(Trap::DivisionByZero));
    assert_eq!(Integer::div(7u64, 0u64), Err(Trap::DivisionByZero));
    assert_eq!(Integer::div(i32::MIN, 0i32), Err(Trap::DivisionByZero));
    assert_eq!(Integer::div(0i32, 0i32), Err(Trap::DivisionByZero));
}

#[test]
fn remainder_by_zero_fails() {
    assert_eq!(Integer::rem(7i32, 0i32), Err(Trap::DivisionByZero));
    assert_eq!(Integer::rem(7u32, 0u32), Err(Trap::DivisionByZero));
    assert_eq!(Integer::rem(7i64, 0i64), Err(Trap::DivisionByZero));
    assert_eq!(Integer::rem(7u64, 0u64), Err(Trap::DivisionByZero));
}

#[test]
fn least_number_divided_by_minus_one_overflows() {
    assert_eq!(Integer::div(i32::MIN, -1i32), Err(Trap::SignedIntegerOverflow));
    assert_eq!(Integer::div(i64::MIN, -1i64), Err(Trap::SignedIntegerOverflow));
}

#[test]
fn no_other_division_fails() {
    assert_eq!(Integer::div(i32::MIN, 1i32), Ok(i32::MIN));
    assert_eq!(Integer::div(i32::MAX, -1i32), Ok(-i32::MAX));
    assert_eq!(Integer::div(i32::MIN + 1, -1i32), Ok(i32::MAX));
    assert_eq!(Integer::div(i64::MIN, 2i64), Ok(i64::MIN / 2));
    assert_eq!(Integer::rem(i32::MIN, -1i32), Ok(0));
    assert_eq!(Integer::rem(i64::MIN, -1i64), Ok(0));
    assert_eq!(Integer::div(u32::MAX, u32::MAX), Ok(1));
    assert_eq!(Integer::div(u64::MAX, 1u64), Ok(u64::MAX));
}

#[test]
fn division_rounds_towards_zero() {
    assert_eq!(Integer::div(7i32, 2i32), Ok(3));
    assert_eq!(Integer::div(-7i32, 2i32), Ok(-3));
    assert_eq!(Integer::div(7i32, -2i32), Ok(-3));
    assert_eq!(Integer::div(-7i32, -2i32), Ok(3));
    assert_eq!(Integer::rem(7i32, 2i32), Ok(1));
    assert_eq!(Integer::rem(-7i32, 2i32), Ok(-1));
    assert_eq!(Integer::rem(7i32, -2i32), Ok(1));
    assert_eq!(Integer::rem(-7i32, -2i32), Ok(-1));
    assert_eq!(Integer::div(-7i64, 2i64), Ok(-3));
    assert_eq!(Integer::rem(-7i64, 2i64), Ok(-1));
    assert_eq!(Integer::div(7u32, 2u32), Ok(3));
    assert_eq!(Integer::rem(7u64, 4u64), Ok(3));
}

#[test]
fn zero_counts_have_the_width_of_the_operand() {
    assert_eq!(Integer::leading_zeros(1u32), 31);
    assert_eq!(Integer::leading_zeros(0u32), 32);
    assert_eq!(Integer::leading_zeros(-1i32), 0);
    assert_eq!(Integer::leading_zeros(1i32), 31);
    assert_eq!(Integer::leading_zeros(1u64), 63);
    assert_eq!(Integer::leading_zeros(0i64), 64);
    assert_eq!(Integer::leading_zeros(i64::MIN), 0);
    assert_eq!(Integer::trailing_zeros(8u32), 3);
    assert_eq!(Integer::trailing_zeros(0u32), 32);
    assert_eq!(Integer::trailing_zeros(i32::MIN), 31);
    assert_eq!(Integer::trailing_zeros(0u64), 64);
    assert_eq!(Integer::trailing_zeros(i64::MIN), 63);
}

#[test]
fn count_ones_counts_the_set_bits() {
    assert_eq!(Integer::count_ones(0u32), 0);
    assert_eq!(Integer::count_ones(0b1011u32), 3);
    assert_eq!(Integer::count_ones(-1i32), 32);
    assert_eq!(Integer::count_ones(u64::MAX), 64);
    assert_eq!(Integer::count_ones(-1i64), 64);
    assert_eq!(Integer::count_ones(i64::MIN), 1);
    assert_eq!(count_ones_u64(0xf0f0), 8);
}

#[test]
fn rotations_wrap_the_bits_around() {
    assert_eq!(Integer::rotl(0x8000_0001u32, 1u32), 0x0000_0003);
    assert_eq!(Integer::rotr(0x8000_0001u32, 1u32), 0xc000_0000);
    assert_eq!(Integer::rotl(0x1234_5678u32, 32u32), 0x1234_5678);
    assert_eq!(Integer::rotl(0x1234_5678u32, 36u32), 0x2345_6781);
    assert_eq!(Integer::rotr(0x1234_5678u32, 4u32), 0x8123_4567);
    assert_eq!(Integer::rotl(i32::MIN, 1i32), 1);
    assert_eq!(Integer::rotr(1i32, 1i32), i32::MIN);
    assert_eq!(Integer::rotl(1i32, -1i32), i32::MIN);
    assert_eq!(Integer::rotl(0x8000_0000_0000_0001u64, 4u64), 0x18);
    assert_eq!(Integer::rotr(0x18u64, 4u64), 0x8000_0000_0000_0001);
    assert_eq!(Integer::rotl(i64::MIN, 65i64), 1);
    assert_eq!(Integer::rotr(1i64, 64i64), 1);
}

#[test]
fn sixteen_bit_operations() {
    assert_eq!(Integer::leading_zeros(1i16), 15);
    assert_eq!(Integer::leading_zeros(0i16), 16);
    assert_eq!(Integer::leading_zeros(-1i16), 0);
    assert_eq!(Integer::trailing_zeros(i16::MIN), 15);
    assert_eq!(Integer::trailing_zeros(0i16), 16);
    assert_eq!(Integer::count_ones(-1i16), 16);
    assert_eq!(Integer::count_ones(0x0ff0i16), 8);
    assert_eq!(Integer::rotl(i16::MIN, 1i16), 1);
    assert_eq!(Integer::rotl(0x1234i16, 4i16), 0x2341);
    assert_eq!(Integer::rotl(0x1234i16, 16i16), 0x1234);
    assert_eq!(Integer::rotl(1i16, -1i16), i16::MIN);
    assert_eq!(Integer::rotr(1i16, 1i16), i16::MIN);
    assert_eq!(Integer::rotr(0x1234i16, 4i16), 0x4123);
    assert_eq!(Integer::div(-7i16, 2i16), Ok(-3));
    assert_eq!(Integer::rem(-7i16, 2i16), Ok(-1));
    assert_eq!(Integer::div(i16::MIN, -1i16), Err(Trap::SignedIntegerOverflow));
    assert_eq!(Integer::rem(i16::MIN, -1i16), Ok(0));
    assert_eq!(Integer::div(1i16, 0i16), Err(Trap::DivisionByZero));
    assert_eq!(Integer::rem(1i16, 0i16), Err(Trap::DivisionByZero));
}

#[test]
fn hundred_twenty_eight_bit_operations() {
    assert_eq!(Integer::leading_zeros(1i128), 127);
    assert_eq!(Integer::leading_zeros(0i128), 128);
    assert_eq!(Integer::leading_zeros(-1i128), 0);
    assert_eq!(Integer::leading_zeros(1i128 << 64), 63);
    assert_eq!(Integer::leading_zeros(1i128 << 63), 64);
    assert_eq!(Integer::trailing_zeros(i128::MIN), 127);
    assert_eq!(Integer::trailing_zeros(0i128), 128);
    assert_eq!(Integer::trailing_zeros(1i128 << 64), 64);
    assert_eq!(Integer::trailing_zeros(6i128), 1);
    assert_eq!(Integer::count_ones(-1i128), 128);
    assert_eq!(Integer::count_ones((1i128 << 100) | 7), 4);
    assert_eq!(Integer::rotl(i128::MIN, 1i128), 1);
    assert_eq!(Integer::rotl(1i128, 64i128), 1i128 << 64);
    assert_eq!(Integer::rotl(1i128, 128i128), 1);
    assert_eq!(Integer::rotl(1i128, -1i128), i128::MIN);
    assert_eq!(Integer::rotr(1i128, 1i128), i128::MIN);
    assert_eq!(Integer::rotr(1i128 << 64, 64i128), 1);
    assert_eq!(Integer::div(-7i128, 2i128), Ok(-3));
    assert_eq!(Integer::rem(-7i128, 2i128), Ok(-1));
    assert_eq!(Integer::div(i128::MIN, -1i128), Err(Trap::SignedIntegerOverflow));
    assert_eq!(Integer::rem(i128::MIN, -1i128), Ok(0));
    assert_eq!(Integer::div(1i128, 0i128), Err(Trap::DivisionByZero));
}

#[test]
fn numbers_are_read_in_the_radix_of_their_prefix() {
    assert_eq!(<i32 as Integer>::from_str_with_radix("42"), Ok(42));
    assert_eq!(<i32 as Integer>::from_str_with_radix("-42"), Ok(-42));
    assert_eq!(<i32 as Integer>::from_str_with_radix("+42"), Ok(42));
    assert_eq!(<i32 as Integer>::from_str_with_radix("0x2a"), Ok(42));
    assert_eq!(<i32 as Integer>::from_str_with_radix("0X2A"), Ok(42));
    assert_eq!(<i32 as Integer>::from_str_with_radix("0o52"), Ok(42));
    assert_eq!(<i32 as Integer>::from_str_with_radix("0O52"), Ok(42));
    assert_eq!(<i32 as Integer>::from_str_with_radix("0b101010"), Ok(42));
    assert_eq!(<i32 as Integer>::from_str_with_radix("0B101010"), Ok(42));
    assert_eq!(<i32 as Integer>::from_str_with_radix("0x-2a"), Ok(-42));
    assert_eq!(<i32 as Integer>::from_str_with_radix("007"), Ok(7));
    assert_eq!(<u32 as Integer>::from_str_with_radix("0xffffffff"), Ok(u32::MAX));
    assert_eq!(<i64 as Integer>::from_str_with_radix("0x7fffffffffffffff"), Ok(i64::MAX));
    assert_eq!(<u64 as Integer>::from_str_with_radix("18446744073709551615"), Ok(u64::MAX));
    assert_eq!(<i16 as Integer>::from_str_with_radix("0b1111"), Ok(15));
    assert_eq!(<i128 as Integer>::from_str_with_radix("0x10000000000000000"), Ok(1i128 << 64));
}

#[test]
fn what_is_no_number_gives_an_error() {
    assert!(<i32 as Integer>::from_str_with_radix("").is_err());
    assert!(<i32 as Integer>::from_str_with_radix("0x").is_err());
    assert!(<i32 as Integer>::from_str_with_radix("0b").is_err());
    assert!(<i32 as Integer>::from_str_with_radix("x1").is_err());
    assert!(<i32 as Integer>::from_str_with_radix("0b12").is_err());
    assert!(<i32 as Integer>::from_str_with_radix("0o8").is_err());
    assert!(<i32 as Integer>::from_str_with_radix("0xg").is_err());
    assert!(<i32 as Integer>::from_str_with_radix("12a").is_err());
    assert!(<i32 as Integer>::from_str_with_radix(" 12").is_err());
    assert!(<i32 as Integer>::from_str_with_radix("0x80000000").is_err());
    assert!(<i32 as Integer>::from_str_with_radix("2147483648").is_err());
    assert!(<u32 as Integer>::from_str_with_radix("-1").is_err());
    assert!(<u32 as Integer>::from_str_with_radix("0x100000000").is_err());
    assert!(<i16 as Integer>::from_str_with_radix("40000").is_err());
    assert!(<i32 as Integer>::from_str_with_radix("\u{e9}1").is_err());
    assert!(<i32 as Integer>::from_str_with_radix("a\u{e9}1").is_err());
    assert!(<i32 as Integer>::from_str_with_radix("0\u{e9}1").is_err());
}

use vstd::prelude::*;
use vstd::std_specs::bits::{
    u16_leading_zeros, u16_trailing_zeros, u32_leading_zeros, u32_trailing_zeros,
    u64_leading_zeros, u64_trailing_zeros,
};

use crate::vm::{Trap, VMResult};
use crate::wasm::parse::{
    digits_of, parse_i128, parse_i16, parse_i32, parse_i64, parse_u32, parse_u64, parsed_i128,
    parsed_i16, parsed_i32, parsed_i64, parsed_u32, parsed_u64, radix_of, split_radix,
};
use std::num::ParseIntError;

verus! {

/// The quotient of `x` by `d`, rounded towards zero.
pub open spec fn trunc_div(x: int, d: int) -> int {
    if x >= 0 {
        if d > 0 {
            x / d
        } else {
            -(x / (-d))
        }
    } else {
        if d > 0 {
            -((-x) / d)
        } else {
            (-x) / (-d)
        }
    }
}

/// The remainder that goes with `trunc_div`: it has the sign of `x`.
pub open spec fn trunc_rem(x: int, d: int) -> int {
    if x >= 0 {
        if d > 0 {
            x % d
        } else {
            x % (-d)
        }
    } else {
        if d > 0 {
            -((-x) % d)
        } else {
            -((-x) % (-d))
        }
    }
}

/// The number of bits that are set in `x`.
pub open spec fn count_ones_of(x: nat) -> nat
    decreases x,
{
    if x == 0 {
        0
    } else {
        (x % 2) + count_ones_of(x / 2)
    }
}

/// `x` rotated to the left by `n` bits, in 16 bits.
pub open spec fn rotl16(x: u16, n: u32) -> u16 {
    let k = n % 16;
    if k == 0 {
        x
    } else {
        (x << k) | (x >> ((16 - k) as u32))
    }
}

/// `x` rotated to the right by `n` bits, in 16 bits.
pub open spec fn rotr16(x: u16, n: u32) -> u16 {
    let k = n % 16;
    if k == 0 {
        x
    } else {
        (x >> k) | (x << ((16 - k) as u32))
    }
}

/// `x` rotated to the left by `n` bits, in 128 bits.
pub open spec fn rotl128(x: u128, n: u32) -> u128 {
    let k = n % 128;
    if k == 0 {
        x
    } else {
        (x << k) | (x >> ((128 - k) as u32))
    }
}

/// `x` rotated to the right by `n` bits, in 128 bits.
pub open spec fn rotr128(x: u128, n: u32) -> u128 {
    let k = n % 128;
    if k == 0 {
        x
    } else {
        (x >> k) | (x << ((128 - k) as u32))
    }
}

/// The high 64 bits of a 128-bit pattern.
pub open spec fn high_half(x: u128) -> u64 {
    (x >> 64) as u64
}

/// The low 64 bits of a 128-bit pattern.
pub open spec fn low_half(x: u128) -> u64 {
    (x & 0xffff_ffff_ffff_ffff) as u64
}

/// The number of zero bits above the highest bit that is set, in 128 bits.
pub open spec fn leading_zeros128(x: u128) -> int {
    if high_half(x) != 0 {
        u64_leading_zeros(high_half(x))
    } else {
        64 + u64_leading_zeros(low_half(x))
    }
}

/// The number of zero bits below the lowest bit that is set, in 128 bits.
pub open spec fn trailing_zeros128(x: u128) -> int {
    if low_half(x) != 0 {
        u64_trailing_zeros(low_half(x)) as int
    } else {
        64 + u64_trailing_zeros(high_half(x))
    }
}

/// The number of bits that are set, in 128 bits.
pub open spec fn count_ones128(x: u128) -> nat {
    count_ones_of(high_half(x) as nat) + count_ones_of(low_half(x) as nat)
}

/// `x` rotated to the left by `n` bits, in 32 bits.
pub open spec fn rotl32(x: u32, n: u32) -> u32 {
    let k = n % 32;
    if k == 0 {
        x
    } else {
        (x << k) | (x >> ((32 - k) as u32))
    }
}

/// `x` rotated to the right by `n` bits, in 32 bits.
pub open spec fn rotr32(x: u32, n: u32) -> u32 {
    let k = n % 32;
    if k == 0 {
        x
    } else {
        (x >> k) | (x << ((32 - k) as u32))
    }
}

/// `x` rotated to the left by `n` bits, in 64 bits.
pub open spec fn rotl64(x: u64, n: u64) -> u64 {
    let k = n % 64;
    if k == 0 {
        x
    } else {
        (x << k) | (x >> ((64 - k) as u64))
    }
}

/// `x` rotated to the right by `n` bits, in 64 bits.
pub open spec fn rotr64(x: u64, n: u64) -> u64 {
    let k = n % 64;
    if k == 0 {
        x
    } else {
        (x >> k) | (x << ((64 - k) as u64))
    }
}

/// A number below two to the `k` has at most `k` bits set.
proof fn lemma_count_ones_bound(x: nat, k: nat)
    requires
        x < vstd::arithmetic::power2::pow2(k),
    ensures
        count_ones_of(x) <= k,
    decreases k,
{
    if x != 0 {
        vstd::arithmetic::power2::lemma2_to64();
        if k > 0 {
            vstd::arithmetic::power2::lemma_pow2_unfold(k);
            lemma_count_ones_bound(x / 2, (k - 1) as nat);
        }
    }
}

/// Counts the bits that are set in `x`.
pub fn count_ones_u64(x: u64) -> (n: u32)
    ensures
        n == count_ones_of(x as nat),
        n <= 64,
{
    let mut rest: u64 = x;
    let mut n: u32 = 0;
    proof {
        vstd::arithmetic::power2::lemma2_to64_rest();
        lemma_count_ones_bound(x as nat, 64);
    }
    while rest != 0
        invariant
            count_ones_of(x as nat) <= 64,
            n + count_ones_of(rest as nat) == count_ones_of(x as nat),
        decreases rest,
    {
        n = n + (rest % 2) as u32;
        rest = rest / 2;
    }
    n
}

/// A quotient rounded towards zero is no larger in size than the dividend,
/// and reaches the dividend's negation only for the divisor -1; the
/// remainder lies between zero and the dividend.
proof fn lemma_trunc_bounds(x: int, d: int)
    requires
        d != 0,
    ensures
        x >= 0 ==> 0 <= trunc_rem(x, d) <= x,
        x <= 0 ==> x <= trunc_rem(x, d) <= 0,
        x >= 0 ==> -x <= trunc_div(x, d) <= x,
        x <= 0 ==> x <= trunc_div(x, d) <= -x,
        x < 0 && d != -1 ==> trunc_div(x, d) < -x,
{
    let ax = if x >= 0 { x } else { -x };
    let ad = if d > 0 { d } else { -d };
    vstd::arithmetic::div_mod::lemma_div_pos_is_pos(ax, ad);
    vstd::arithmetic::div_mod::lemma_div_nonincreasing(ax, ad);
    vstd::arithmetic::div_mod::lemma_mod_bound(ax, ad);
    vstd::arithmetic::div_mod::lemma_fundamental_div_mod(ax, ad);
    assert(ad * (ax / ad) >= 0) by (nonlinear_arith)
        requires
            ad > 0,
            ax / ad >= 0,
    ;
    if x < 0 && d < -1 {
        vstd::arithmetic::div_mod::lemma_div_decreases(ax, ad);
    }
}

/// Integer operations of the instruction set, the same for every width.
///
/// Counting and rotating work on the bit pattern and give a result of the
/// operand's own type. Division and remainder round towards zero and fail on
/// a zero divisor; dividing the least signed number by -1 fails as well.
pub trait Integer: Sized + Copy {
    /// The number as a mathematical integer.
    spec fn to_int(self) -> int;

    /// The least number of the type.
    spec fn min_int() -> int;

    spec fn spec_leading_zeros(self) -> Self;

    spec fn spec_trailing_zeros(self) -> Self;

    spec fn spec_count_ones(self) -> Self;

    spec fn spec_rotl(self, other: Self) -> Self;

    spec fn spec_rotr(self, other: Self) -> Self;

    fn leading_zeros(self) -> (r: Self)
        ensures
            r == self.spec_leading_zeros(),
    ;

    fn trailing_zeros(self) -> (r: Self)
        ensures
            r == self.spec_trailing_zeros(),
    ;

    fn count_ones(self) -> (r: Self)
        ensures
            r == self.spec_count_ones(),
    ;

    fn rotl(self, other: Self) -> (r: Self)
        ensures
            r == self.spec_rotl(other),
    ;

    fn rotr(self, other: Self) -> (r: Self)
        ensures
            r == self.spec_rotr(other),
    ;

    /// What std's parsing makes of digits in a radix.
    spec fn spec_parsed(digits: Seq<char>, radix: u32) -> Option<Self>;

    /// The number that a text stands for: its digits are read in the radix
    /// that its prefix names, or in radix 10 where it has none, as std's
    /// parsing reads them.
    fn from_str_with_radix(s: &str) -> (r: Result<Self, ParseIntError>)
        ensures
            match r {
                Ok(number) => Self::spec_parsed(digits_of(s@), radix_of(s@)) == Some(number),
                Err(_) => Self::spec_parsed(digits_of(s@), radix_of(s@)) is None,
            },
    ;

    fn rem(self, other: Self) -> (r: VMResult<Self>)
        ensures
            other.to_int() == 0 ==> r == Err::<Self, Trap>(Trap::DivisionByZero),
            other.to_int() != 0 ==> r is Ok && r->Ok_0.to_int() == trunc_rem(
                self.to_int(),
                other.to_int(),
            ),
    ;

    fn div(self, other: Self) -> (r: VMResult<Self>)
        ensures
            other.to_int() == 0 ==> r == Err::<Self, Trap>(Trap::DivisionByZero),
            self.to_int() == Self::min_int() && other.to_int() == -1 ==> r == Err::<Self, Trap>(
                Trap::SignedIntegerOverflow,
            ),
            other.to_int() != 0 && !(self.to_int() == Self::min_int() && other.to_int() == -1)
                ==> r is Ok && r->Ok_0.to_int() == trunc_div(self.to_int(), other.to_int()),
    ;
}

impl Integer for u32 {
    open spec fn to_int(self) -> int {
        self as int
    }

    open spec fn min_int() -> int {
        0
    }

    open spec fn spec_leading_zeros(self) -> u32 {
        u32_leading_zeros(self) as u32
    }

    open spec fn spec_trailing_zeros(self) -> u32 {
        u32_trailing_zeros(self) as u32
    }

    open spec fn spec_count_ones(self) -> u32 {
        count_ones_of(self as nat) as u32
    }

    open spec fn spec_rotl(self, other: u32) -> u32 {
        rotl32(self, other)
    }

    open spec fn spec_rotr(self, other: u32) -> u32 {
        rotr32(self, other)
    }

    fn leading_zeros(self) -> (r: u32) {
        self.leading_zeros() as u32
    }

    fn trailing_zeros(self) -> (r: u32) {
        self.trailing_zeros() as u32
    }

    fn count_ones(self) -> (r: u32) {
        count_ones_u64(self as u64) as u32
    }

    fn rotl(self, other: u32) -> (r: u32) {
        let k: u32 = other % 32;
        if k == 0 {
            self
        } else {
            let back: u32 = 32 - k;
            let r: u32 = (self << k) | (self >> back);
            assert(r == rotl32(self, other));
            assert(self.spec_rotl(other) == rotl32(self, other));
            r
        }
    }

    fn rotr(self, other: u32) -> (r: u32) {
        let k: u32 = other % 32;
        if k == 0 {
            self
        } else {
            let back: u32 = 32 - k;
            let r: u32 = (self >> k) | (self << back);
            assert(r == rotr32(self, other));
            r
        }
    }

    open spec fn spec_parsed(digits: Seq<char>, radix: u32) -> Option<u32> {
        parsed_u32(digits, radix)
    }

    fn from_str_with_radix(s: &str) -> (r: Result<u32, ParseIntError>) {
        let (radix, digits) = split_radix(s);
        parse_u32(digits, radix)
    }

    fn rem(self, other: u32) -> (r: VMResult<u32>) {
        if other == 0 {
            Err(Trap::DivisionByZero)
        } else {
            Ok(self % other)
        }
    }

    fn div(self, other: u32) -> (r: VMResult<u32>) {
        if other == 0 {
            Err(Trap::DivisionByZero)
        } else {
            Ok(self / other)
        }
    }
}

impl Integer for u64 {
    open spec fn to_int(self) -> int {
        self as int
    }

    open spec fn min_int() -> int {
        0
    }

    open spec fn spec_leading_zeros(self) -> u64 {
        u64_leading_zeros(self) as u64
    }

    open spec fn spec_trailing_zeros(self) -> u64 {
        u64_trailing_zeros(self) as u64
    }

    open spec fn spec_count_ones(self) -> u64 {
        count_ones_of(self as nat) as u64
    }

    open spec fn spec_rotl(self, other: u64) -> u64 {
        rotl64(self, other)
    }

    open spec fn spec_rotr(self, other: u64) -> u64 {
        rotr64(self, other)
    }

    fn leading_zeros(self) -> (r: u64) {
        self.leading_zeros() as u64
    }

    fn trailing_zeros(self) -> (r: u64) {
        self.trailing_zeros() as u64
    }

    fn count_ones(self) -> (r: u64) {
        count_ones_u64(self as u64) as u64
    }

    fn rotl(self, other: u64) -> (r: u64) {
        let k: u64 = other % 64;
        if k == 0 {
            self
        } else {
            let back: u64 = 64 - k;
            let r: u64 = (self << k) | (self >> back);
            assert(r == rotl64(self, other));
            assert(self.spec_rotl(other) == rotl64(self, other));
            r
        }
    }

    fn rotr(self, other: u64) -> (r: u64) {
        let k: u64 = other % 64;
        if k == 0 {
            self
        } else {
            let back: u64 = 64 - k;
            let r: u64 = (self >> k) | (self << back);
            assert(r == rotr64(self, other));
            r
        }
    }

    open spec fn spec_parsed(digits: Seq<char>, radix: u32) -> Option<u64> {
        parsed_u64(digits, radix)
    }

    fn from_str_with_radix(s: &str) -> (r: Result<u64, ParseIntError>) {
        let (radix, digits) = split_radix(s);
        parse_u64(digits, radix)
    }

    fn rem(self, other: u64) -> (r: VMResult<u64>) {
        if other == 0 {
            Err(Trap::DivisionByZero)
        } else {
            Ok(self % other)
        }
    }

    fn div(self, other: u64) -> (r: VMResult<u64>) {
        if other == 0 {
            Err(Trap::DivisionByZero)
        } else {
            Ok(self / other)
        }
    }
}

impl Integer for i32 {
    open spec fn to_int(self) -> int {
        self as int
    }

    open spec fn min_int() -> int {
        -0x8000_0000
    }

    open spec fn spec_leading_zeros(self) -> i32 {
        u32_leading_zeros(self as u32) as i32
    }

    open spec fn spec_trailing_zeros(self) -> i32 {
        u32_trailing_zeros(self as u32) as i32
    }

    open spec fn spec_count_ones(self) -> i32 {
        count_ones_of((self as u32) as nat) as i32
    }

    open spec fn spec_rotl(self, other: i32) -> i32 {
        rotl32(self as u32, other as u32) as i32
    }

    open spec fn spec_rotr(self, other: i32) -> i32 {
        rotr32(self as u32, other as u32) as i32
    }

    fn leading_zeros(self) -> (r: i32) {
        (self as u32).leading_zeros() as i32
    }

    fn trailing_zeros(self) -> (r: i32) {
        (self as u32).trailing_zeros() as i32
    }

    fn count_ones(self) -> (r: i32) {
        count_ones_u64((self as u32) as u64) as i32
    }

    fn rotl(self, other: i32) -> (r: i32) {
        Integer::rotl(self as u32, other as u32) as i32
    }

    fn rotr(self, other: i32) -> (r: i32) {
        Integer::rotr(self as u32, other as u32) as i32
    }

    open spec fn spec_parsed(digits: Seq<char>, radix: u32) -> Option<i32> {
        parsed_i32(digits, radix)
    }

    fn from_str_with_radix(s: &str) -> (r: Result<i32, ParseIntError>) {
        let (radix, digits) = split_radix(s);
        parse_i32(digits, radix)
    }

    fn rem(self, other: i32) -> (r: VMResult<i32>) {
        if other == 0 {
            Err(Trap::DivisionByZero)
        } else {
            proof {
                lemma_trunc_bounds(self as int, other as int);
            }
            match self.checked_rem(other) {
                Some(r) => Ok(r),
                None => Ok(0),
            }
        }
    }

    fn div(self, other: i32) -> (r: VMResult<i32>) {
        if other == 0 {
            Err(Trap::DivisionByZero)
        } else {
            proof {
                lemma_trunc_bounds(self as int, other as int);
            }
            match self.checked_div(other) {
                Some(q) => Ok(q),
                None => Err(Trap::SignedIntegerOverflow),
            }
        }
    }
}

impl Integer for i64 {
    open spec fn to_int(self) -> int {
        self as int
    }

    open spec fn min_int() -> int {
        -0x8000_0000_0000_0000
    }

    open spec fn spec_leading_zeros(self) -> i64 {
        u64_leading_zeros(self as u64) as i64
    }

    open spec fn spec_trailing_zeros(self) -> i64 {
        u64_trailing_zeros(self as u64) as i64
    }

    open spec fn spec_count_ones(self) -> i64 {
        count_ones_of((self as u64) as nat) as i64
    }

    open spec fn spec_rotl(self, other: i64) -> i64 {
        rotl64(self as u64, other as u64) as i64
    }

    open spec fn spec_rotr(self, other: i64) -> i64 {
        rotr64(self as u64, other as u64) as i64
    }

    fn leading_zeros(self) -> (r: i64) {
        (self as u64).leading_zeros() as i64
    }

    fn trailing_zeros(self) -> (r: i64) {
        (self as u64).trailing_zeros() as i64
    }

    fn count_ones(self) -> (r: i64) {
        count_ones_u64((self as u64) as u64) as i64
    }

    fn rotl(self, other: i64) -> (r: i64) {
        Integer::rotl(self as u64, other as u64) as i64
    }

    fn rotr(self, other: i64) -> (r: i64) {
        Integer::rotr(self as u64, other as u64) as i64
    }

    open spec fn spec_parsed(digits: Seq<char>, radix: u32) -> Option<i64> {
        parsed_i64(digits, radix)
    }

    fn from_str_with_radix(s: &str) -> (r: Result<i64, ParseIntError>) {
        let (radix, digits) = split_radix(s);
        parse_i64(digits, radix)
    }

    fn rem(self, other: i64) -> (r: VMResult<i64>) {
        if other == 0 {
            Err(Trap::DivisionByZero)
        } else {
            proof {
                lemma_trunc_bounds(self as int, other as int);
            }
            match self.checked_rem(other) {
                Some(r) => Ok(r),
                None => Ok(0),
            }
        }
    }

    fn div(self, other: i64) -> (r: VMResult<i64>) {
        if other == 0 {
            Err(Trap::DivisionByZero)
        } else {
            proof {
                lemma_trunc_bounds(self as int, other as int);
            }
            match self.checked_div(other) {
                Some(q) => Ok(q),
                None => Err(Trap::SignedIntegerOverflow),
            }
        }
    }
}

impl Integer for i16 {
    open spec fn to_int(self) -> int {
        self as int
    }

    open spec fn min_int() -> int {
        -0x8000
    }

    open spec fn spec_leading_zeros(self) -> i16 {
        u16_leading_zeros(self as u16) as i16
    }

    open spec fn spec_trailing_zeros(self) -> i16 {
        u16_trailing_zeros(self as u16) as i16
    }

    open spec fn spec_count_ones(self) -> i16 {
        count_ones_of((self as u16) as nat) as i16
    }

    open spec fn spec_rotl(self, other: i16) -> i16 {
        rotl16(self as u16, (other as u16) as u32) as i16
    }

    open spec fn spec_rotr(self, other: i16) -> i16 {
        rotr16(self as u16, (other as u16) as u32) as i16
    }

    fn leading_zeros(self) -> (r: i16) {
        (self as u16).leading_zeros() as i16
    }

    fn trailing_zeros(self) -> (r: i16) {
        (self as u16).trailing_zeros() as i16
    }

    fn count_ones(self) -> (r: i16) {
        count_ones_u64((self as u16) as u64) as i16
    }

    fn rotl(self, other: i16) -> (r: i16) {
        let x = self as u16;
        let k: u32 = ((other as u16) as u32) % 16;
        if k == 0 {
            x as i16
        } else {
            let back: u32 = 16 - k;
            let r: u16 = (x << k) | (x >> back);
            assert(r == rotl16(x, (other as u16) as u32));
            assert(self.spec_rotl(other) == rotl16(x, (other as u16) as u32) as i16);
            r as i16
        }
    }

    fn rotr(self, other: i16) -> (r: i16) {
        let x = self as u16;
        let k: u32 = ((other as u16) as u32) % 16;
        if k == 0 {
            x as i16
        } else {
            let back: u32 = 16 - k;
            let r: u16 = (x >> k) | (x << back);
            assert(r == rotr16(x, (other as u16) as u32));
            assert(self.spec_rotr(other) == rotr16(x, (other as u16) as u32) as i16);
            r as i16
        }
    }

    open spec fn spec_parsed(digits: Seq<char>, radix: u32) -> Option<i16> {
        parsed_i16(digits, radix)
    }

    fn from_str_with_radix(s: &str) -> (r: Result<i16, ParseIntError>) {
        let (radix, digits) = split_radix(s);
        parse_i16(digits, radix)
    }

    fn rem(self, other: i16) -> (r: VMResult<i16>) {
        if other == 0 {
            Err(Trap::DivisionByZero)
        } else {
            proof {
                lemma_trunc_bounds(self as int, other as int);
            }
            match self.checked_rem(other) {
                Some(r) => Ok(r),
                None => Ok(0),
            }
        }
    }

    fn div(self, other: i16) -> (r: VMResult<i16>) {
        if other == 0 {
            Err(Trap::DivisionByZero)
        } else {
            proof {
                lemma_trunc_bounds(self as int, other as int);
            }
            match self.checked_div(other) {
                Some(q) => Ok(q),
                None => Err(Trap::SignedIntegerOverflow),
            }
        }
    }
}

impl Integer for i128 {
    open spec fn to_int(self) -> int {
        self as int
    }

    open spec fn min_int() -> int {
        -0x8000_0000_0000_0000_0000_0000_0000_0000
    }

    open spec fn spec_leading_zeros(self) -> i128 {
        leading_zeros128(self as u128) as i128
    }

    open spec fn spec_trailing_zeros(self) -> i128 {
        trailing_zeros128(self as u128) as i128
    }

    open spec fn spec_count_ones(self) -> i128 {
        count_ones128(self as u128) as i128
    }

    open spec fn spec_rotl(self, other: i128) -> i128 {
        rotl128(self as u128, ((other as u128) & 0xffff_ffff) as u32) as i128
    }

    open spec fn spec_rotr(self, other: i128) -> i128 {
        rotr128(self as u128, ((other as u128) & 0xffff_ffff) as u32) as i128
    }

    fn leading_zeros(self) -> (r: i128) {
        let x = self as u128;
        let high = (x >> 64) as u64;
        let low = (x & 0xffff_ffff_ffff_ffff) as u64;
        if high != 0 {
            high.leading_zeros() as i128
        } else {
            64 + low.leading_zeros() as i128
        }
    }

    fn trailing_zeros(self) -> (r: i128) {
        let x = self as u128;
        let high = (x >> 64) as u64;
        let low = (x & 0xffff_ffff_ffff_ffff) as u64;
        if low != 0 {
            low.trailing_zeros() as i128
        } else {
            64 + high.trailing_zeros() as i128
        }
    }

    fn count_ones(self) -> (r: i128) {
        let x = self as u128;
        let high = (x >> 64) as u64;
        let low = (x & 0xffff_ffff_ffff_ffff) as u64;
        (count_ones_u64(high) + count_ones_u64(low)) as i128
    }

    fn rotl(self, other: i128) -> (r: i128) {
        let x = self as u128;
        let n: u32 = ((other as u128) & 0xffff_ffff) as u32;
        let k: u32 = n % 128;
        if k == 0 {
            x as i128
        } else {
            let back: u32 = 128 - k;
            let r: u128 = (x << k) | (x >> back);
            assert(r == rotl128(x, n));
            assert(self.spec_rotl(other) == rotl128(x, n) as i128);
            r as i128
        }
    }

    fn rotr(self, other: i128) -> (r: i128) {
        let x = self as u128;
        let n: u32 = ((other as u128) & 0xffff_ffff) as u32;
        let k: u32 = n % 128;
        if k == 0 {
            x as i128
        } else {
            let back: u32 = 128 - k;
            let r: u128 = (x >> k) | (x << back);
            assert(r == rotr128(x, n));
            assert(self.spec_rotr(other) == rotr128(x, n) as i128);
            r as i128
        }
    }

    open spec fn spec_parsed(digits: Seq<char>, radix: u32) -> Option<i128> {
        parsed_i128(digits, radix)
    }

    fn from_str_with_radix(s: &str) -> (r: Result<i128, ParseIntError>) {
        let (radix, digits) = split_radix(s);
        parse_i128(digits, radix)
    }

    fn rem(self, other: i128) -> (r: VMResult<i128>) {
        if other == 0 {
            Err(Trap::DivisionByZero)
        } else {
            proof {
                lemma_trunc_bounds(self as int, other as int);
            }
            match self.checked_rem(other) {
                Some(r) => Ok(r),
                None => Ok(0),
            }
        }
    }

    fn div(self, other: i128) -> (r: VMResult<i128>) {
        if other == 0 {
            Err(Trap::DivisionByZero)
        } else {
            proof {
                lemma_trunc_bounds(self as int, other as int);
            }
            match self.checked_div(other) {
                Some(q) => Ok(q),
                None => Err(Trap::SignedIntegerOverflow),
            }
        }
    }
}

} // verus!

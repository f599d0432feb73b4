use vstd::prelude::*;

use crate::wasm::value::{F32, F64};

verus! {

/// The two bytes of `x`, the least significant first.
pub open spec fn u16_le_bytes(x: u16) -> Seq<u8> {
    seq![(x & 0xff) as u8, ((x >> 8) & 0xff) as u8]
}

/// The number whose bytes, the least significant first, are the first two of `b`.
pub open spec fn u16_of_le_bytes(b: Seq<u8>) -> u16 {
    (b[0] as u16) | ((b[1] as u16) << 8)
}

/// The four bytes of `x`, the least significant first.
pub open spec fn u32_le_bytes(x: u32) -> Seq<u8> {
    seq![
        (x & 0xff) as u8,
        ((x >> 8) & 0xff) as u8,
        ((x >> 16) & 0xff) as u8,
        ((x >> 24) & 0xff) as u8,
    ]
}

/// The number whose bytes, the least significant first, are the first four of `b`.
pub open spec fn u32_of_le_bytes(b: Seq<u8>) -> u32 {
    (b[0] as u32) | ((b[1] as u32) << 8) | ((b[2] as u32) << 16) | ((b[3] as u32) << 24)
}

/// The eight bytes of `x`, the least significant first.
pub open spec fn u64_le_bytes(x: u64) -> Seq<u8> {
    seq![
        (x & 0xff) as u8,
        ((x >> 8) & 0xff) as u8,
        ((x >> 16) & 0xff) as u8,
        ((x >> 24) & 0xff) as u8,
        ((x >> 32) & 0xff) as u8,
        ((x >> 40) & 0xff) as u8,
        ((x >> 48) & 0xff) as u8,
        ((x >> 56) & 0xff) as u8,
    ]
}

/// The number whose bytes, the least significant first, are the first eight of `b`.
pub open spec fn u64_of_le_bytes(b: Seq<u8>) -> u64 {
    (b[0] as u64) | ((b[1] as u64) << 8) | ((b[2] as u64) << 16) | ((b[3] as u64) << 24) | ((
    b[4] as u64) << 32) | ((b[5] as u64) << 40) | ((b[6] as u64) << 48) | ((b[7] as u64) << 56)
}

/// Decoding the bytes of a 16-bit number gives the number back.
pub proof fn lemma_u16_round_trip(x: u16)
    ensures
        u16_of_le_bytes(u16_le_bytes(x)) == x,
{
    assert((((x & 0xff) as u8) as u16) | (((((x >> 8) & 0xff) as u8) as u16) << 8) == x)
        by (bit_vector);
}

/// Encoding the number that two bytes decode to gives the bytes back.
pub proof fn lemma_u16_bytes_round_trip(b: Seq<u8>)
    requires
        b.len() == 2,
    ensures
        u16_le_bytes(u16_of_le_bytes(b)) == b,
{
    let b0 = b[0];
    let b1 = b[1];
    let x = (b0 as u16) | ((b1 as u16) << 8);
    assert((x & 0xff) as u8 == b0 && ((x >> 8) & 0xff) as u8 == b1) by (bit_vector)
        requires
            x == (b0 as u16) | ((b1 as u16) << 8),
    ;
}

/// Decoding the bytes of a 32-bit number gives the number back.
pub proof fn lemma_u32_round_trip(x: u32)
    ensures
        u32_of_le_bytes(u32_le_bytes(x)) == x,
{
    assert((((x & 0xff) as u8) as u32) | (((((x >> 8) & 0xff) as u8) as u32) << 8) | (((((x >> 16)
        & 0xff) as u8) as u32) << 16) | (((((x >> 24) & 0xff) as u8) as u32) << 24) == x)
        by (bit_vector);
}

/// Encoding the number that four bytes decode to gives the bytes back.
pub proof fn lemma_u32_bytes_round_trip(b: Seq<u8>)
    requires
        b.len() == 4,
    ensures
        u32_le_bytes(u32_of_le_bytes(b)) == b,
{
    let b0 = b[0];
    let b1 = b[1];
    let b2 = b[2];
    let b3 = b[3];
    let x = (b0 as u32) | ((b1 as u32) << 8) | ((b2 as u32) << 16) | ((b3 as u32) << 24);
    assert((x & 0xff) as u8 == b0 && ((x >> 8) & 0xff) as u8 == b1 && ((x >> 16) & 0xff) as u8
        == b2 && ((x >> 24) & 0xff) as u8 == b3) by (bit_vector)
        requires
            x == (b0 as u32) | ((b1 as u32) << 8) | ((b2 as u32) << 16) | ((b3 as u32) << 24),
    ;
}

/// Decoding the bytes of a 64-bit number gives the number back.
pub proof fn lemma_u64_round_trip(x: u64)
    ensures
        u64_of_le_bytes(u64_le_bytes(x)) == x,
{
    assert((((x & 0xff) as u8) as u64) | (((((x >> 8) & 0xff) as u8) as u64) << 8) | (((((x >> 16)
        & 0xff) as u8) as u64) << 16) | (((((x >> 24) & 0xff) as u8) as u64) << 24) | (((((x
        >> 32) & 0xff) as u8) as u64) << 32) | (((((x >> 40) & 0xff) as u8) as u64) << 40) | (((((x
        >> 48) & 0xff) as u8) as u64) << 48) | (((((x >> 56) & 0xff) as u8) as u64) << 56) == x)
        by (bit_vector);
}

/// Encoding the number that eight bytes decode to gives the bytes back.
pub proof fn lemma_u64_bytes_round_trip(b: Seq<u8>)
    requires
        b.len() == 8,
    ensures
        u64_le_bytes(u64_of_le_bytes(b)) == b,
{
    let b0 = b[0];
    let b1 = b[1];
    let b2 = b[2];
    let b3 = b[3];
    let b4 = b[4];
    let b5 = b[5];
    let b6 = b[6];
    let b7 = b[7];
    let x = (b0 as u64) | ((b1 as u64) << 8) | ((b2 as u64) << 16) | ((b3 as u64) << 24) | ((
    b4 as u64) << 32) | ((b5 as u64) << 40) | ((b6 as u64) << 48) | ((b7 as u64) << 56);
    assert((x & 0xff) as u8 == b0 && ((x >> 8) & 0xff) as u8 == b1 && ((x >> 16) & 0xff) as u8
        == b2 && ((x >> 24) & 0xff) as u8 == b3 && ((x >> 32) & 0xff) as u8 == b4 && ((x >> 40)
        & 0xff) as u8 == b5 && ((x >> 48) & 0xff) as u8 == b6 && ((x >> 56) & 0xff) as u8 == b7)
        by (bit_vector)
        requires
            x == (b0 as u64) | ((b1 as u64) << 8) | ((b2 as u64) << 16) | ((b3 as u64) << 24) | ((
            b4 as u64) << 32) | ((b5 as u64) << 40) | ((b6 as u64) << 48) | ((b7 as u64) << 56),
    ;
}

fn read_u16(buffer: &[u8]) -> (x: u16)
    requires
        buffer@.len() >= 2,
    ensures
        x == u16_of_le_bytes(buffer@),
{
    (buffer[0] as u16) | ((buffer[1] as u16) << 8)
}

fn read_u32(buffer: &[u8]) -> (x: u32)
    requires
        buffer@.len() >= 4,
    ensures
        x == u32_of_le_bytes(buffer@),
{
    (buffer[0] as u32) | ((buffer[1] as u32) << 8) | ((buffer[2] as u32) << 16) | ((
    buffer[3] as u32) << 24)
}

fn read_u64(buffer: &[u8]) -> (x: u64)
    requires
        buffer@.len() >= 8,
    ensures
        x == u64_of_le_bytes(buffer@),
{
    (buffer[0] as u64) | ((buffer[1] as u64) << 8) | ((buffer[2] as u64) << 16) | ((
    buffer[3] as u64) << 24) | ((buffer[4] as u64) << 32) | ((buffer[5] as u64) << 40) | ((
    buffer[6] as u64) << 48) | ((buffer[7] as u64) << 56)
}

fn write_u16(x: u16, buffer: &mut [u8])
    requires
        old(buffer)@.len() >= 2,
    ensures
        final(buffer)@ == u16_le_bytes(x) + old(buffer)@.skip(2),
{
    buffer[0] = (x & 0xff) as u8;
    buffer[1] = ((x >> 8) & 0xff) as u8;
}

fn write_u32(x: u32, buffer: &mut [u8])
    requires
        old(buffer)@.len() >= 4,
    ensures
        final(buffer)@ == u32_le_bytes(x) + old(buffer)@.skip(4),
{
    buffer[0] = (x & 0xff) as u8;
    buffer[1] = ((x >> 8) & 0xff) as u8;
    buffer[2] = ((x >> 16) & 0xff) as u8;
    buffer[3] = ((x >> 24) & 0xff) as u8;
}

fn write_u64(x: u64, buffer: &mut [u8])
    requires
        old(buffer)@.len() >= 8,
    ensures
        final(buffer)@ == u64_le_bytes(x) + old(buffer)@.skip(8),
{
    buffer[0] = (x & 0xff) as u8;
    buffer[1] = ((x >> 8) & 0xff) as u8;
    buffer[2] = ((x >> 16) & 0xff) as u8;
    buffer[3] = ((x >> 24) & 0xff) as u8;
    buffer[4] = ((x >> 32) & 0xff) as u8;
    buffer[5] = ((x >> 40) & 0xff) as u8;
    buffer[6] = ((x >> 48) & 0xff) as u8;
    buffer[7] = ((x >> 56) & 0xff) as u8;
}

/// A value with a little-endian encoding of a fixed number of bytes.
///
/// Encoding and decoding are inverse to each other: decoding the bytes of a
/// value gives the value, bit for bit, and encoding what bytes decode to
/// gives the bytes.
pub trait LittleEndianConvert: Sized {
    /// The number of bytes of the encoding.
    spec fn size() -> nat;

    /// The bytes of the value, the least significant first.
    spec fn le_bytes(self) -> Seq<u8>;

    /// The value that the first `size()` bytes of `bytes` encode.
    spec fn of_le_bytes(bytes: Seq<u8>) -> Self;

    /// Decoding the bytes of a value gives the value back.
    proof fn lemma_decode_encode(self)
        ensures
            self.le_bytes().len() == Self::size(),
            Self::of_le_bytes(self.le_bytes()) == self,
    ;

    /// Encoding the value that bytes decode to gives the bytes back.
    proof fn lemma_encode_decode(bytes: Seq<u8>)
        requires
            bytes.len() == Self::size(),
        ensures
            Self::of_le_bytes(bytes).le_bytes() == bytes,
    ;

    /// Decodes the first `size()` bytes of `buffer`.
    fn from_little_endian(buffer: &[u8]) -> (v: Self)
        requires
            buffer@.len() >= Self::size(),
        ensures
            v == Self::of_le_bytes(buffer@.take(Self::size() as int)),
            v.le_bytes() == buffer@.take(Self::size() as int),
    ;

    /// Encodes the value into the first `size()` bytes of `buffer`.
    fn to_little_endian(self, buffer: &mut [u8])
        requires
            old(buffer)@.len() >= Self::size(),
        ensures
            final(buffer)@ == self.le_bytes() + old(buffer)@.skip(Self::size() as int),
    ;
}

impl LittleEndianConvert for u8 {
    open spec fn size() -> nat {
        1
    }

    open spec fn le_bytes(self) -> Seq<u8> {
        seq![self]
    }

    open spec fn of_le_bytes(bytes: Seq<u8>) -> u8 {
        bytes[0]
    }

    proof fn lemma_decode_encode(self) {
    }

    proof fn lemma_encode_decode(bytes: Seq<u8>) {
    }

    fn from_little_endian(buffer: &[u8]) -> (v: u8) {
        proof {
            Self::lemma_encode_decode(buffer@.take(1));
        }
        buffer[0]
    }

    fn to_little_endian(self, buffer: &mut [u8]) {
        buffer[0] = self;
    }
}

impl LittleEndianConvert for i8 {
    open spec fn size() -> nat {
        1
    }

    open spec fn le_bytes(self) -> Seq<u8> {
        seq![self as u8]
    }

    open spec fn of_le_bytes(bytes: Seq<u8>) -> i8 {
        bytes[0] as i8
    }

    proof fn lemma_decode_encode(self) {
        assert((self as u8) as i8 == self) by (bit_vector);
    }

    proof fn lemma_encode_decode(bytes: Seq<u8>) {
        let b = bytes[0];
        assert((b as i8) as u8 == b) by (bit_vector);
    }

    fn from_little_endian(buffer: &[u8]) -> (v: i8) {
        proof {
            Self::lemma_encode_decode(buffer@.take(1));
        }
        buffer[0] as i8
    }

    fn to_little_endian(self, buffer: &mut [u8]) {
        buffer[0] = self as u8;
    }
}

impl LittleEndianConvert for u16 {
    open spec fn size() -> nat {
        2
    }

    open spec fn le_bytes(self) -> Seq<u8> {
        u16_le_bytes(self)
    }

    open spec fn of_le_bytes(bytes: Seq<u8>) -> u16 {
        u16_of_le_bytes(bytes)
    }

    proof fn lemma_decode_encode(self) {
        lemma_u16_round_trip(self);
    }

    proof fn lemma_encode_decode(bytes: Seq<u8>) {
        lemma_u16_bytes_round_trip(bytes);
    }

    fn from_little_endian(buffer: &[u8]) -> (v: u16) {
        proof {
            Self::lemma_encode_decode(buffer@.take(2));
        }
        read_u16(buffer)
    }

    fn to_little_endian(self, buffer: &mut [u8]) {
        write_u16(self, buffer);
    }
}

impl LittleEndianConvert for u32 {
    open spec fn size() -> nat {
        4
    }

    open spec fn le_bytes(self) -> Seq<u8> {
        u32_le_bytes(self)
    }

    open spec fn of_le_bytes(bytes: Seq<u8>) -> u32 {
        u32_of_le_bytes(bytes)
    }

    proof fn lemma_decode_encode(self) {
        lemma_u32_round_trip(self);
    }

    proof fn lemma_encode_decode(bytes: Seq<u8>) {
        lemma_u32_bytes_round_trip(bytes);
    }

    fn from_little_endian(buffer: &[u8]) -> (v: u32) {
        proof {
            Self::lemma_encode_decode(buffer@.take(4));
        }
        read_u32(buffer)
    }

    fn to_little_endian(self, buffer: &mut [u8]) {
        write_u32(self, buffer);
    }
}

impl LittleEndianConvert for u64 {
    open spec fn size() -> nat {
        8
    }

    open spec fn le_bytes(self) -> Seq<u8> {
        u64_le_bytes(self)
    }

    open spec fn of_le_bytes(bytes: Seq<u8>) -> u64 {
        u64_of_le_bytes(bytes)
    }

    proof fn lemma_decode_encode(self) {
        lemma_u64_round_trip(self);
    }

    proof fn lemma_encode_decode(bytes: Seq<u8>) {
        lemma_u64_bytes_round_trip(bytes);
    }

    fn from_little_endian(buffer: &[u8]) -> (v: u64) {
        proof {
            Self::lemma_encode_decode(buffer@.take(8));
        }
        read_u64(buffer)
    }

    fn to_little_endian(self, buffer: &mut [u8]) {
        write_u64(self, buffer);
    }
}

impl LittleEndianConvert for i16 {
    open spec fn size() -> nat {
        2
    }

    open spec fn le_bytes(self) -> Seq<u8> {
        u16_le_bytes(self as u16)
    }

    open spec fn of_le_bytes(bytes: Seq<u8>) -> i16 {
        u16_of_le_bytes(bytes) as i16
    }

    proof fn lemma_decode_encode(self) {
        lemma_u16_round_trip(self as u16);
        assert((self as u16) as i16 == self) by (bit_vector);
    }

    proof fn lemma_encode_decode(bytes: Seq<u8>) {
        lemma_u16_bytes_round_trip(bytes);
        let x = u16_of_le_bytes(bytes);
        assert((x as i16) as u16 == x) by (bit_vector);
    }

    fn from_little_endian(buffer: &[u8]) -> (v: i16) {
        proof {
            Self::lemma_encode_decode(buffer@.take(2));
        }
        read_u16(buffer) as i16
    }

    fn to_little_endian(self, buffer: &mut [u8]) {
        write_u16(self as u16, buffer);
    }
}

impl LittleEndianConvert for i32 {
    open spec fn size() -> nat {
        4
    }

    open spec fn le_bytes(self) -> Seq<u8> {
        u32_le_bytes(self as u32)
    }

    open spec fn of_le_bytes(bytes: Seq<u8>) -> i32 {
        u32_of_le_bytes(bytes) as i32
    }

    proof fn lemma_decode_encode(self) {
        lemma_u32_round_trip(self as u32);
        assert((self as u32) as i32 == self) by (bit_vector);
    }

    proof fn lemma_encode_decode(bytes: Seq<u8>) {
        lemma_u32_bytes_round_trip(bytes);
        let x = u32_of_le_bytes(bytes);
        assert((x as i32) as u32 == x) by (bit_vector);
    }

    fn from_little_endian(buffer: &[u8]) -> (v: i32) {
        proof {
            Self::lemma_encode_decode(buffer@.take(4));
        }
        read_u32(buffer) as i32
    }

    fn to_little_endian(self, buffer: &mut [u8]) {
        write_u32(self as u32, buffer);
    }
}

impl LittleEndianConvert for i64 {
    open spec fn size() -> nat {
        8
    }

    open spec fn le_bytes(self) -> Seq<u8> {
        u64_le_bytes(self as u64)
    }

    open spec fn of_le_bytes(bytes: Seq<u8>) -> i64 {
        u64_of_le_bytes(bytes) as i64
    }

    proof fn lemma_decode_encode(self) {
        lemma_u64_round_trip(self as u64);
        assert((self as u64) as i64 == self) by (bit_vector);
    }

    proof fn lemma_encode_decode(bytes: Seq<u8>) {
        lemma_u64_bytes_round_trip(bytes);
        let x = u64_of_le_bytes(bytes);
        assert((x as i64) as u64 == x) by (bit_vector);
    }

    fn from_little_endian(buffer: &[u8]) -> (v: i64) {
        proof {
            Self::lemma_encode_decode(buffer@.take(8));
        }
        read_u64(buffer) as i64
    }

    fn to_little_endian(self, buffer: &mut [u8]) {
        write_u64(self as u64, buffer);
    }
}

impl LittleEndianConvert for F32 {
    open spec fn size() -> nat {
        4
    }

    open spec fn le_bytes(self) -> Seq<u8> {
        u32_le_bytes(self.bits)
    }

    open spec fn of_le_bytes(bytes: Seq<u8>) -> F32 {
        F32 { bits: u32_of_le_bytes(bytes) }
    }

    proof fn lemma_decode_encode(self) {
        lemma_u32_round_trip(self.bits);
    }

    proof fn lemma_encode_decode(bytes: Seq<u8>) {
        lemma_u32_bytes_round_trip(bytes);
    }

    fn from_little_endian(buffer: &[u8]) -> (v: F32) {
        proof {
            Self::lemma_encode_decode(buffer@.take(4));
        }
        F32 { bits: read_u32(buffer) }
    }

    fn to_little_endian(self, buffer: &mut [u8]) {
        write_u32(self.bits, buffer);
    }
}

impl LittleEndianConvert for F64 {
    open spec fn size() -> nat {
        8
    }

    open spec fn le_bytes(self) -> Seq<u8> {
        u64_le_bytes(self.bits)
    }

    open spec fn of_le_bytes(bytes: Seq<u8>) -> F64 {
        F64 { bits: u64_of_le_bytes(bytes) }
    }

    proof fn lemma_decode_encode(self) {
        lemma_u64_round_trip(self.bits);
    }

    proof fn lemma_encode_decode(bytes: Seq<u8>) {
        lemma_u64_bytes_round_trip(bytes);
    }

    fn from_little_endian(buffer: &[u8]) -> (v: F64) {
        proof {
            Self::lemma_encode_decode(buffer@.take(8));
        }
        F64 { bits: read_u64(buffer) }
    }

    fn to_little_endian(self, buffer: &mut [u8]) {
        write_u64(self.bits, buffer);
    }
}

/// Decoding the bytes that encode a value gives the value back, bit for bit:
/// for integers of every width, and for floats, whose bits are kept whatever
/// they stand for.
pub proof fn lemma_little_endian_round_trip<T: LittleEndianConvert>(value: T)
    ensures
        value.le_bytes().len() == T::size(),
        T::of_le_bytes(value.le_bytes()) == value,
{
    value.lemma_decode_encode();
}

/// Widening to `T`: a signed source is sign-extended, an unsigned one
/// zero-extended, and the bits are then read as a `T`.
pub trait ExtendTo<T> {
    spec fn spec_extend_to(self) -> T;

    fn extend_to(self) -> (r: T)
        ensures
            r == self.spec_extend_to(),
    ;
}

impl ExtendTo<u32> for i8 {
    open spec fn spec_extend_to(self) -> u32 {
        self as u32
    }

    fn extend_to(self) -> (r: u32) {
        self as u32
    }
}

impl ExtendTo<u32> for u8 {
    open spec fn spec_extend_to(self) -> u32 {
        self as u32
    }

    fn extend_to(self) -> (r: u32) {
        self as u32
    }
}

impl ExtendTo<u32> for u16 {
    open spec fn spec_extend_to(self) -> u32 {
        self as u32
    }

    fn extend_to(self) -> (r: u32) {
        self as u32
    }
}

impl ExtendTo<u32> for i16 {
    open spec fn spec_extend_to(self) -> u32 {
        self as u32
    }

    fn extend_to(self) -> (r: u32) {
        self as u32
    }
}

impl ExtendTo<u64> for i8 {
    open spec fn spec_extend_to(self) -> u64 {
        self as u64
    }

    fn extend_to(self) -> (r: u64) {
        self as u64
    }
}

impl ExtendTo<u64> for u8 {
    open spec fn spec_extend_to(self) -> u64 {
        self as u64
    }

    fn extend_to(self) -> (r: u64) {
        self as u64
    }
}

impl ExtendTo<u64> for i16 {
    open spec fn spec_extend_to(self) -> u64 {
        self as u64
    }

    fn extend_to(self) -> (r: u64) {
        self as u64
    }
}

impl ExtendTo<u64> for u16 {
    open spec fn spec_extend_to(self) -> u64 {
        self as u64
    }

    fn extend_to(self) -> (r: u64) {
        self as u64
    }
}

impl ExtendTo<u64> for i32 {
    open spec fn spec_extend_to(self) -> u64 {
        self as u64
    }

    fn extend_to(self) -> (r: u64) {
        self as u64
    }
}

impl ExtendTo<u64> for u32 {
    open spec fn spec_extend_to(self) -> u64 {
        self as u64
    }

    fn extend_to(self) -> (r: u64) {
        self as u64
    }
}

/// Narrowing to `T`: the low bits of the source are kept.
pub trait WrapTo<T> {
    spec fn spec_wrap_to(self) -> T;

    fn wrap_to(self) -> (r: T)
        ensures
            r == self.spec_wrap_to(),
    ;
}

impl WrapTo<u8> for u8 {
    open spec fn spec_wrap_to(self) -> u8 {
        self as u8
    }

    fn wrap_to(self) -> (r: u8) {
        self as u8
    }
}

impl WrapTo<u8> for u16 {
    open spec fn spec_wrap_to(self) -> u8 {
        self as u8
    }

    fn wrap_to(self) -> (r: u8) {
        self as u8
    }
}

impl WrapTo<u8> for u32 {
    open spec fn spec_wrap_to(self) -> u8 {
        self as u8
    }

    fn wrap_to(self) -> (r: u8) {
        self as u8
    }
}

impl WrapTo<u16> for u32 {
    open spec fn spec_wrap_to(self) -> u16 {
        self as u16
    }

    fn wrap_to(self) -> (r: u16) {
        self as u16
    }
}

impl WrapTo<u8> for u64 {
    open spec fn spec_wrap_to(self) -> u8 {
        self as u8
    }

    fn wrap_to(self) -> (r: u8) {
        self as u8
    }
}

impl WrapTo<u16> for u64 {
    open spec fn spec_wrap_to(self) -> u16 {
        self as u16
    }

    fn wrap_to(self) -> (r: u16) {
        self as u16
    }
}

impl WrapTo<u32> for u64 {
    open spec fn spec_wrap_to(self) -> u32 {
        self as u32
    }

    fn wrap_to(self) -> (r: u32) {
        self as u32
    }
}

} // verus!

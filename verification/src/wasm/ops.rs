use vstd::prelude::*;

use crate::vm::{Trap, VMResult};
use crate::wasm::endian::{ExtendTo, WrapTo};
use crate::wasm::integer::{trunc_div, trunc_rem, Integer};
use crate::wasm::module::{ConvertOp, IntBinOp, IntRelOp, IntUnOp};
use crate::wasm::value::{Value, ValueType, F32, F64};

verus! {

/// The result of a one-operand operation on 32-bit integers.
pub open spec fn i32_unary(op: IntUnOp, a: i32) -> i32 {
    match op {
        IntUnOp::Clz => a.spec_leading_zeros(),
        IntUnOp::Ctz => a.spec_trailing_zeros(),
        IntUnOp::Popcnt => a.spec_count_ones(),
    }
}

pub fn eval_i32_unary(op: IntUnOp, a: i32) -> (r: i32)
    ensures
        r == i32_unary(op, a),
{
    match op {
        IntUnOp::Clz => Integer::leading_zeros(a),
        IntUnOp::Ctz => Integer::trailing_zeros(a),
        IntUnOp::Popcnt => Integer::count_ones(a),
    }
}

/// The result of a two-operand operation on 32-bit integers. Sums,
/// differences and products wrap; shifts and rotations take their count
/// modulo 32; quotients and remainders round towards zero and fail on a
/// zero divisor, and the signed quotient of the least number by -1 fails.
pub open spec fn i32_binary(op: IntBinOp, a: i32, b: i32) -> VMResult<i32> {
    match op {
        IntBinOp::Add => Ok(vstd::wrapping::i32_specs::wrapping_add(a, b)),
        IntBinOp::Sub => Ok(vstd::wrapping::i32_specs::wrapping_sub(a, b)),
        IntBinOp::Mul => Ok(vstd::wrapping::i32_specs::wrapping_mul(a, b)),
        IntBinOp::DivS => if b == 0 {
            Err(Trap::DivisionByZero)
        } else if a == -0x8000_0000 && b == -1 {
            Err(Trap::SignedIntegerOverflow)
        } else {
            Ok(trunc_div(a as int, b as int) as i32)
        },
        IntBinOp::DivU => if b == 0 {
            Err(Trap::DivisionByZero)
        } else {
            Ok(((a as u32) / (b as u32)) as i32)
        },
        IntBinOp::RemS => if b == 0 {
            Err(Trap::DivisionByZero)
        } else {
            Ok(trunc_rem(a as int, b as int) as i32)
        },
        IntBinOp::RemU => if b == 0 {
            Err(Trap::DivisionByZero)
        } else {
            Ok(((a as u32) % (b as u32)) as i32)
        },
        IntBinOp::And => Ok(a & b),
        IntBinOp::Or => Ok(a | b),
        IntBinOp::Xor => Ok(a ^ b),
        IntBinOp::Shl => Ok(a << (((b as u32) as u32) % 32)),
        IntBinOp::ShrS => Ok(a >> (((b as u32) as u32) % 32)),
        IntBinOp::ShrU => Ok(((a as u32) >> (((b as u32) as u32) % 32)) as i32),
        IntBinOp::Rotl => Ok(a.spec_rotl(b)),
        IntBinOp::Rotr => Ok(a.spec_rotr(b)),
    }
}

pub fn eval_i32_binary(op: IntBinOp, a: i32, b: i32) -> (r: VMResult<i32>)
    ensures
        r == i32_binary(op, a, b),
{
    match op {
        IntBinOp::Add => Ok(a.wrapping_add(b)),
        IntBinOp::Sub => Ok(a.wrapping_sub(b)),
        IntBinOp::Mul => Ok(a.wrapping_mul(b)),
        IntBinOp::DivS => {
            Integer::div(a, b)
        },
        IntBinOp::DivU => {
            assert((b as u32) == 0 <==> b == 0) by (bit_vector);
            match Integer::div(a as u32, b as u32) {
                Ok(q) => Ok(q as i32),
                Err(trap) => Err(trap),
            }
        },
        IntBinOp::RemS => Integer::rem(a, b),
        IntBinOp::RemU => {
            assert((b as u32) == 0 <==> b == 0) by (bit_vector);
            match Integer::rem(a as u32, b as u32) {
                Ok(q) => Ok(q as i32),
                Err(trap) => Err(trap),
            }
        },
        IntBinOp::And => Ok(a & b),
        IntBinOp::Or => Ok(a | b),
        IntBinOp::Xor => Ok(a ^ b),
        IntBinOp::Shl => Ok(a.wrapping_shl((b as u32) as u32)),
        IntBinOp::ShrS => Ok(a.wrapping_shr((b as u32) as u32)),
        IntBinOp::ShrU => Ok((a as u32).wrapping_shr((b as u32) as u32) as i32),
        IntBinOp::Rotl => Ok(Integer::rotl(a, b)),
        IntBinOp::Rotr => Ok(Integer::rotr(a, b)),
    }
}

/// Whether a comparison of two 32-bit integers holds. The unsigned
/// comparisons read both bit patterns as unsigned numbers.
pub open spec fn i32_compare(op: IntRelOp, a: i32, b: i32) -> bool {
    match op {
        IntRelOp::Eq => a == b,
        IntRelOp::Ne => a != b,
        IntRelOp::LtS => a < b,
        IntRelOp::LtU => (a as u32) < (b as u32),
        IntRelOp::GtS => a > b,
        IntRelOp::GtU => (a as u32) > (b as u32),
        IntRelOp::LeS => a <= b,
        IntRelOp::LeU => (a as u32) <= (b as u32),
        IntRelOp::GeS => a >= b,
        IntRelOp::GeU => (a as u32) >= (b as u32),
    }
}

pub fn eval_i32_compare(op: IntRelOp, a: i32, b: i32) -> (r: bool)
    ensures
        r == i32_compare(op, a, b),
{
    match op {
        IntRelOp::Eq => a == b,
        IntRelOp::Ne => a != b,
        IntRelOp::LtS => a < b,
        IntRelOp::LtU => (a as u32) < (b as u32),
        IntRelOp::GtS => a > b,
        IntRelOp::GtU => (a as u32) > (b as u32),
        IntRelOp::LeS => a <= b,
        IntRelOp::LeU => (a as u32) <= (b as u32),
        IntRelOp::GeS => a >= b,
        IntRelOp::GeU => (a as u32) >= (b as u32),
    }
}

/// The result of a one-operand operation on 64-bit integers.
pub open spec fn i64_unary(op: IntUnOp, a: i64) -> i64 {
    match op {
        IntUnOp::Clz => a.spec_leading_zeros(),
        IntUnOp::Ctz => a.spec_trailing_zeros(),
        IntUnOp::Popcnt => a.spec_count_ones(),
    }
}

pub fn eval_i64_unary(op: IntUnOp, a: i64) -> (r: i64)
    ensures
        r == i64_unary(op, a),
{
    match op {
        IntUnOp::Clz => Integer::leading_zeros(a),
        IntUnOp::Ctz => Integer::trailing_zeros(a),
        IntUnOp::Popcnt => Integer::count_ones(a),
    }
}

/// The result of a two-operand operation on 64-bit integers. Sums,
/// differences and products wrap; shifts and rotations take their count
/// modulo 64; quotients and remainders round towards zero and fail on a
/// zero divisor, and the signed quotient of the least number by -1 fails.
pub open spec fn i64_binary(op: IntBinOp, a: i64, b: i64) -> VMResult<i64> {
    match op {
        IntBinOp::Add => Ok(vstd::wrapping::i64_specs::wrapping_add(a, b)),
        IntBinOp::Sub => Ok(vstd::wrapping::i64_specs::wrapping_sub(a, b)),
        IntBinOp::Mul => Ok(vstd::wrapping::i64_specs::wrapping_mul(a, b)),
        IntBinOp::DivS => if b == 0 {
            Err(Trap::DivisionByZero)
        } else if a == -0x8000_0000_0000_0000 && b == -1 {
            Err(Trap::SignedIntegerOverflow)
        } else {
            Ok(trunc_div(a as int, b as int) as i64)
        },
        IntBinOp::DivU => if b == 0 {
            Err(Trap::DivisionByZero)
        } else {
            Ok(((a as u64) / (b as u64)) as i64)
        },
        IntBinOp::RemS => if b == 0 {
            Err(Trap::DivisionByZero)
        } else {
            Ok(trunc_rem(a as int, b as int) as i64)
        },
        IntBinOp::RemU => if b == 0 {
            Err(Trap::DivisionByZero)
        } else {
            Ok(((a as u64) % (b as u64)) as i64)
        },
        IntBinOp::And => Ok(a & b),
        IntBinOp::Or => Ok(a | b),
        IntBinOp::Xor => Ok(a ^ b),
        IntBinOp::Shl => Ok(a << (((b as u64) as u32) % 64)),
        IntBinOp::ShrS => Ok(a >> (((b as u64) as u32) % 64)),
        IntBinOp::ShrU => Ok(((a as u64) >> (((b as u64) as u32) % 64)) as i64),
        IntBinOp::Rotl => Ok(a.spec_rotl(b)),
        IntBinOp::Rotr => Ok(a.spec_rotr(b)),
    }
}

pub fn eval_i64_binary(op: IntBinOp, a: i64, b: i64) -> (r: VMResult<i64>)
    ensures
        r == i64_binary(op, a, b),
{
    match op {
        IntBinOp::Add => Ok(a.wrapping_add(b)),
        IntBinOp::Sub => Ok(a.wrapping_sub(b)),
        IntBinOp::Mul => Ok(a.wrapping_mul(b)),
        IntBinOp::DivS => {
            Integer::div(a, b)
        },
        IntBinOp::DivU => {
            assert((b as u64) == 0 <==> b == 0) by (bit_vector);
            match Integer::div(a as u64, b as u64) {
                Ok(q) => Ok(q as i64),
                Err(trap) => Err(trap),
            }
        },
        IntBinOp::RemS => Integer::rem(a, b),
        IntBinOp::RemU => {
            assert((b as u64) == 0 <==> b == 0) by (bit_vector);
            match Integer::rem(a as u64, b as u64) {
                Ok(q) => Ok(q as i64),
                Err(trap) => Err(trap),
            }
        },
        IntBinOp::And => Ok(a & b),
        IntBinOp::Or => Ok(a | b),
        IntBinOp::Xor => Ok(a ^ b),
        IntBinOp::Shl => Ok(a.wrapping_shl((b as u64) as u32)),
        IntBinOp::ShrS => Ok(a.wrapping_shr((b as u64) as u32)),
        IntBinOp::ShrU => Ok((a as u64).wrapping_shr((b as u64) as u32) as i64),
        IntBinOp::Rotl => Ok(Integer::rotl(a, b)),
        IntBinOp::Rotr => Ok(Integer::rotr(a, b)),
    }
}

/// Whether a comparison of two 64-bit integers holds. The unsigned
/// comparisons read both bit patterns as unsigned numbers.
pub open spec fn i64_compare(op: IntRelOp, a: i64, b: i64) -> bool {
    match op {
        IntRelOp::Eq => a == b,
        IntRelOp::Ne => a != b,
        IntRelOp::LtS => a < b,
        IntRelOp::LtU => (a as u64) < (b as u64),
        IntRelOp::GtS => a > b,
        IntRelOp::GtU => (a as u64) > (b as u64),
        IntRelOp::LeS => a <= b,
        IntRelOp::LeU => (a as u64) <= (b as u64),
        IntRelOp::GeS => a >= b,
        IntRelOp::GeU => (a as u64) >= (b as u64),
    }
}

pub fn eval_i64_compare(op: IntRelOp, a: i64, b: i64) -> (r: bool)
    ensures
        r == i64_compare(op, a, b),
{
    match op {
        IntRelOp::Eq => a == b,
        IntRelOp::Ne => a != b,
        IntRelOp::LtS => a < b,
        IntRelOp::LtU => (a as u64) < (b as u64),
        IntRelOp::GtS => a > b,
        IntRelOp::GtU => (a as u64) > (b as u64),
        IntRelOp::LeS => a <= b,
        IntRelOp::LeU => (a as u64) <= (b as u64),
        IntRelOp::GeS => a >= b,
        IntRelOp::GeU => (a as u64) >= (b as u64),
    }
}

/// The value a comparison leaves on the stack: 1 if it holds, else 0.
pub open spec fn spec_bool_value(b: bool) -> Value {
    Value::I32(if b { 1 } else { 0 })
}

pub fn bool_value(b: bool) -> (v: Value)
    ensures
        v == spec_bool_value(b),
{
    Value::I32(if b { 1 } else { 0 })
}

/// The type of the operand of a conversion.
pub open spec fn convert_source(op: ConvertOp) -> ValueType {
    match op {
        ConvertOp::I32WrapI64 => ValueType::I64,
        ConvertOp::I64ExtendSI32 => ValueType::I32,
        ConvertOp::I64ExtendUI32 => ValueType::I32,
        ConvertOp::I32ReinterpretF32 => ValueType::F32,
        ConvertOp::I64ReinterpretF64 => ValueType::F64,
        ConvertOp::F32ReinterpretI32 => ValueType::I32,
        ConvertOp::F64ReinterpretI64 => ValueType::I64,
    }
}

/// The result of a conversion: wrapping keeps the low 32 bits, extending
/// repeats the sign bit or fills with zeros, reinterpreting keeps the bits.
/// An operand of another type than the conversion's source is a type error.
pub open spec fn convert(op: ConvertOp, v: Value) -> VMResult<Value> {
    match (op, v) {
        (ConvertOp::I32WrapI64, Value::I64(x)) => Ok(Value::I32(((x as u64) as u32) as i32)),
        (ConvertOp::I64ExtendSI32, Value::I32(x)) => Ok(Value::I64((x as u64) as i64)),
        (ConvertOp::I64ExtendUI32, Value::I32(x)) => Ok(Value::I64(((x as u32) as u64) as i64)),
        (ConvertOp::I32ReinterpretF32, Value::F32(f)) => Ok(Value::I32(f.bits as i32)),
        (ConvertOp::I64ReinterpretF64, Value::F64(f)) => Ok(Value::I64(f.bits as i64)),
        (ConvertOp::F32ReinterpretI32, Value::I32(x)) => Ok(Value::F32(F32 { bits: x as u32 })),
        (ConvertOp::F64ReinterpretI64, Value::I64(x)) => Ok(Value::F64(F64 { bits: x as u64 })),
        _ => Err(Trap::TypeError { expected: convert_source(op), found: v.spec_value_type() }),
    }
}

pub fn eval_convert(op: ConvertOp, v: Value) -> (r: VMResult<Value>)
    ensures
        r == convert(op, v),
{
    match (op, v) {
        (ConvertOp::I32WrapI64, Value::I64(x)) => {
            let low: u32 = (x as u64).wrap_to();
            Ok(Value::I32(low as i32))
        },
        (ConvertOp::I64ExtendSI32, Value::I32(x)) => {
            let wide: u64 = x.extend_to();
            Ok(Value::I64(wide as i64))
        },
        (ConvertOp::I64ExtendUI32, Value::I32(x)) => {
            let wide: u64 = (x as u32).extend_to();
            Ok(Value::I64(wide as i64))
        },
        (ConvertOp::I32ReinterpretF32, Value::F32(f)) => Ok(Value::I32(f.to_bits() as i32)),
        (ConvertOp::I64ReinterpretF64, Value::F64(f)) => Ok(Value::I64(f.to_bits() as i64)),
        (ConvertOp::F32ReinterpretI32, Value::I32(x)) => Ok(Value::F32(F32::from_bits(x as u32))),
        (ConvertOp::F64ReinterpretI64, Value::I64(x)) => Ok(Value::F64(F64::from_bits(x as u64))),
        (op, v) => {
            let expected = match op {
                ConvertOp::I32WrapI64 => ValueType::I64,
                ConvertOp::I64ExtendSI32 => ValueType::I32,
                ConvertOp::I64ExtendUI32 => ValueType::I32,
                ConvertOp::I32ReinterpretF32 => ValueType::F32,
                ConvertOp::I64ReinterpretF64 => ValueType::F64,
                ConvertOp::F32ReinterpretI32 => ValueType::I32,
                ConvertOp::F64ReinterpretI64 => ValueType::I64,
            };
            Err(Trap::TypeError { expected, found: v.value_type() })
        },
    }
}

} // verus!

use vstd::prelude::*;

use crate::wasm::parse::{parse_i128, parse_i64, parsed_i128, parsed_i64};

verus! {

/// The four kinds of value a machine computes with.
#[derive(Clone, Copy, Debug, PartialEq, Eq, Structural)]
pub enum ValueType {
    I32,
    I64,
    F32,
    F64,
}

/// A 32-bit float, held as its bit pattern. Two of them are equal when their
/// bits are, so every NaN payload is kept and told apart.
#[derive(Clone, Copy, Debug, PartialEq, Eq, Structural)]
pub struct F32 {
    pub bits: u32,
}

/// A 64-bit float, held as its bit pattern.
#[derive(Clone, Copy, Debug, PartialEq, Eq, Structural)]
pub struct F64 {
    pub bits: u64,
}

impl F32 {
    pub fn from_bits(bits: u32) -> (f: F32)
        ensures
            f.bits == bits,
    {
        F32 { bits }
    }

    pub fn to_bits(self) -> (bits: u32)
        ensures
            bits == self.bits,
    {
        self.bits
    }
}

impl F64 {
    pub fn from_bits(bits: u64) -> (f: F64)
        ensures
            f.bits == bits,
    {
        F64 { bits }
    }

    pub fn to_bits(self) -> (bits: u64)
        ensures
            bits == self.bits,
    {
        self.bits
    }
}

impl Default for F32 {
    fn default() -> (f: F32)
        ensures
            f.bits == 0,
    {
        F32 { bits: 0 }
    }
}

impl Default for F64 {
    fn default() -> (f: F64)
        ensures
            f.bits == 0,
    {
        F64 { bits: 0 }
    }
}

/// A value on the stack, in a local, or in a global.
#[derive(Clone, Copy, Debug, PartialEq, Eq, Structural)]
pub enum Value {
    I32(i32),
    I64(i64),
    F32(F32),
    F64(F64),
}

impl Value {
    /// The zero of a value type.
    pub open spec fn spec_default(value_type: ValueType) -> Value {
        match value_type {
            ValueType::I32 => Value::I32(0),
            ValueType::I64 => Value::I64(0),
            ValueType::F32 => Value::F32(F32 { bits: 0 }),
            ValueType::F64 => Value::F64(F64 { bits: 0 }),
        }
    }

    /// The type of a value: the one its variant stands for.
    pub open spec fn spec_value_type(&self) -> ValueType {
        match self {
            Value::I32(_) => ValueType::I32,
            Value::I64(_) => ValueType::I64,
            Value::F32(_) => ValueType::F32,
            Value::F64(_) => ValueType::F64,
        }
    }

    /// The zero of a value type.
    pub fn default(value_type: ValueType) -> (v: Value)
        ensures
            v == Value::spec_default(value_type),
            v.spec_value_type() == value_type,
    {
        match value_type {
            ValueType::I32 => Value::I32(0),
            ValueType::I64 => Value::I64(0),
            ValueType::F32 => Value::F32(F32 { bits: 0 }),
            ValueType::F64 => Value::F64(F64 { bits: 0 }),
        }
    }

    #[verifier::when_used_as_spec(spec_value_type)]
    pub fn value_type(&self) -> (t: ValueType)
        ensures
            t == self.spec_value_type(),
    {
        match self {
            Value::I32(_) => ValueType::I32,
            Value::I64(_) => ValueType::I64,
            Value::F32(_) => ValueType::F32,
            Value::F64(_) => ValueType::F64,
        }
    }

    /// The integer value that a decimal number stands for: the number is
    /// read with more bits than the type has, and its low bits are kept, so
    /// that an unsigned number of the type's width is taken too. Nothing for
    /// a text that is no such number, and for the float types.
    pub open spec fn spec_integer_from_str(s: Seq<char>, value_type: ValueType) -> Option<Value> {
        match value_type {
            ValueType::I32 => match parsed_i64(s, 10) {
                Some(number) => Some(Value::I32(number as i32)),
                None => None,
            },
            ValueType::I64 => match parsed_i128(s, 10) {
                Some(number) => Some(Value::I64(number as i64)),
                None => None,
            },
            _ => None,
        }
    }

    /// The integer value that a decimal number stands for.
    pub fn integer_from_str(s: &str, value_type: ValueType) -> (r: Option<Value>)
        ensures
            r == Value::spec_integer_from_str(s@, value_type),
    {
        match value_type {
            ValueType::I32 => match parse_i64(s, 10) {
                Ok(number) => Some(Value::I32(number as i32)),
                Err(_) => None,
            },
            ValueType::I64 => match parse_i128(s, 10) {
                Ok(number) => Some(Value::I64(number as i64)),
                Err(_) => None,
            },
            _ => None,
        }
    }

    /// The value as a number of kind `T`, if that is the kind it holds.
    pub fn to<T: Number>(&self) -> (r: Option<T>)
        ensures
            r == T::spec_from_value(*self),
            r is Some <==> self.spec_value_type() == T::spec_value_type(),
    {
        T::from_value(*self)
    }
}

/// A native number that a `Value` can hold. A conversion from a `Value`
/// succeeds exactly when the value's type is the number's: nothing is coerced.
pub trait Number: Copy + Sized {
    spec fn spec_value_type() -> ValueType;

    spec fn spec_into_value(self) -> Value;

    spec fn spec_from_value(val: Value) -> Option<Self>;

    fn value_type() -> (t: ValueType)
        ensures
            t == Self::spec_value_type(),
    ;

    fn into_value(self) -> (v: Value)
        ensures
            v == self.spec_into_value(),
            v.spec_value_type() == Self::spec_value_type(),
    ;

    fn from_value(val: Value) -> (r: Option<Self>)
        ensures
            r == Self::spec_from_value(val),
            r is Some <==> val.spec_value_type() == Self::spec_value_type(),
            r matches Some(n) ==> n.spec_into_value() == val,
    ;
}

impl Number for i32 {
    open spec fn spec_value_type() -> ValueType {
        ValueType::I32
    }

    open spec fn spec_into_value(self) -> Value {
        Value::I32(self)
    }

    open spec fn spec_from_value(val: Value) -> Option<i32> {
        match val {
            Value::I32(v) => Some(v),
            _ => None,
        }
    }

    fn value_type() -> (t: ValueType) {
        ValueType::I32
    }

    fn into_value(self) -> (v: Value) {
        Value::I32(self)
    }

    fn from_value(val: Value) -> (r: Option<i32>) {
        match val {
            Value::I32(v) => Some(v),
            _ => None,
        }
    }
}

impl Number for u32 {
    open spec fn spec_value_type() -> ValueType {
        ValueType::I32
    }

    open spec fn spec_into_value(self) -> Value {
        Value::I32(self as i32)
    }

    open spec fn spec_from_value(val: Value) -> Option<u32> {
        match val {
            Value::I32(v) => Some(v as u32),
            _ => None,
        }
    }

    fn value_type() -> (t: ValueType) {
        ValueType::I32
    }

    fn into_value(self) -> (v: Value) {
        Value::I32(self as i32)
    }

    fn from_value(val: Value) -> (r: Option<u32>) {
        match val {
            Value::I32(v) => {
                assert((v as u32) as i32 == v) by (bit_vector);
                Some(v as u32)
            },
            _ => None,
        }
    }
}

impl Number for i64 {
    open spec fn spec_value_type() -> ValueType {
        ValueType::I64
    }

    open spec fn spec_into_value(self) -> Value {
        Value::I64(self)
    }

    open spec fn spec_from_value(val: Value) -> Option<i64> {
        match val {
            Value::I64(v) => Some(v),
            _ => None,
        }
    }

    fn value_type() -> (t: ValueType) {
        ValueType::I64
    }

    fn into_value(self) -> (v: Value) {
        Value::I64(self)
    }

    fn from_value(val: Value) -> (r: Option<i64>) {
        match val {
            Value::I64(v) => Some(v),
            _ => None,
        }
    }
}

impl Number for u64 {
    open spec fn spec_value_type() -> ValueType {
        ValueType::I64
    }

    open spec fn spec_into_value(self) -> Value {
        Value::I64(self as i64)
    }

    open spec fn spec_from_value(val: Value) -> Option<u64> {
        match val {
            Value::I64(v) => Some(v as u64),
            _ => None,
        }
    }

    fn value_type() -> (t: ValueType) {
        ValueType::I64
    }

    fn into_value(self) -> (v: Value) {
        Value::I64(self as i64)
    }

    fn from_value(val: Value) -> (r: Option<u64>) {
        match val {
            Value::I64(v) => {
                assert((v as u64) as i64 == v) by (bit_vector);
                Some(v as u64)
            },
            _ => None,
        }
    }
}

impl Number for F32 {
    open spec fn spec_value_type() -> ValueType {
        ValueType::F32
    }

    open spec fn spec_into_value(self) -> Value {
        Value::F32(self)
    }

    open spec fn spec_from_value(val: Value) -> Option<F32> {
        match val {
            Value::F32(v) => Some(v),
            _ => None,
        }
    }

    fn value_type() -> (t: ValueType) {
        ValueType::F32
    }

    fn into_value(self) -> (v: Value) {
        Value::F32(self)
    }

    fn from_value(val: Value) -> (r: Option<F32>) {
        match val {
            Value::F32(v) => Some(v),
            _ => None,
        }
    }
}

impl Number for F64 {
    open spec fn spec_value_type() -> ValueType {
        ValueType::F64
    }

    open spec fn spec_into_value(self) -> Value {
        Value::F64(self)
    }

    open spec fn spec_from_value(val: Value) -> Option<F64> {
        match val {
            Value::F64(v) => Some(v),
            _ => None,
        }
    }

    fn value_type() -> (t: ValueType) {
        ValueType::F64
    }

    fn into_value(self) -> (v: Value) {
        Value::F64(self)
    }

    fn from_value(val: Value) -> (r: Option<F64>) {
        match val {
            Value::F64(v) => Some(v),
            _ => None,
        }
    }
}

/// A 32-bit integer as a value.
impl From<i32> for Value {
    fn from(val: i32) -> (v: Value) {
        Value::I32(val)
    }
}

impl vstd::std_specs::convert::FromSpecImpl<i32> for Value {
    open spec fn obeys_from_spec() -> bool {
        true
    }

    open spec fn from_spec(val: i32) -> Value {
        Value::I32(val)
    }
}

/// An unsigned 32-bit integer as a value: the bits are kept.
impl From<u32> for Value {
    fn from(val: u32) -> (v: Value) {
        Value::I32(val as i32)
    }
}

impl vstd::std_specs::convert::FromSpecImpl<u32> for Value {
    open spec fn obeys_from_spec() -> bool {
        true
    }

    open spec fn from_spec(val: u32) -> Value {
        Value::I32(val as i32)
    }
}

/// A 64-bit integer as a value.
impl From<i64> for Value {
    fn from(val: i64) -> (v: Value) {
        Value::I64(val)
    }
}

impl vstd::std_specs::convert::FromSpecImpl<i64> for Value {
    open spec fn obeys_from_spec() -> bool {
        true
    }

    open spec fn from_spec(val: i64) -> Value {
        Value::I64(val)
    }
}

/// An unsigned 64-bit integer as a value: the bits are kept.
impl From<u64> for Value {
    fn from(val: u64) -> (v: Value) {
        Value::I64(val as i64)
    }
}

impl vstd::std_specs::convert::FromSpecImpl<u64> for Value {
    open spec fn obeys_from_spec() -> bool {
        true
    }

    open spec fn from_spec(val: u64) -> Value {
        Value::I64(val as i64)
    }
}

/// A 32-bit float as a value.
impl From<F32> for Value {
    fn from(val: F32) -> (v: Value) {
        Value::F32(val)
    }
}

impl vstd::std_specs::convert::FromSpecImpl<F32> for Value {
    open spec fn obeys_from_spec() -> bool {
        true
    }

    open spec fn from_spec(val: F32) -> Value {
        Value::F32(val)
    }
}

/// A 64-bit float as a value.
impl From<F64> for Value {
    fn from(val: F64) -> (v: Value) {
        Value::F64(val)
    }
}

impl vstd::std_specs::convert::FromSpecImpl<F64> for Value {
    open spec fn obeys_from_spec() -> bool {
        true
    }

    open spec fn from_spec(val: F64) -> Value {
        Value::F64(val)
    }
}

} // verus!

use wasmdbg::vm::Trap;
use wasmdbg::wire;
use wasmdbg::wire::{delete_status, run_status, Status};
use wasmdbg::{DebuggerError, Number, Value, ValueType, F32, F64};

#[test]
fn default_value_is_zero_of_its_type() {
    assert_eq!(Value::default(ValueType::I32), Value::I32(0));
    assert_eq!(Value::default(ValueType::I64), Value::I64(0));
    assert_eq!(Value::default(ValueType::F32), Value::F32(F32::from_bits(0)));
    assert_eq!(Value::default(ValueType::F64), Value::F64(F64::from_bits(0)));
}

#[test]
fn value_type_follows_the_variant() {
    assert_eq!(Value::I32(7).value_type(), ValueType::I32);
    assert_eq!(Value::I64(7).value_type(), ValueType::I64);
    assert_eq!(Value::F32(F32::from_bits(7)).value_type(), ValueType::F32);
    assert_eq!(Value::F64(F64::from_bits(7)).value_type(), ValueType::F64);
}

#[test]
fn conversion_gives_the_number_of_the_matching_kind() {
    assert_eq!(Value::I32(-5).to::<i32>(), Some(-5));
    assert_eq!(Value::I32(-1).to::<u32>(), Some(u32::MAX));
    assert_eq!(Value::I64(-5).to::<i64>(), Some(-5));
    assert_eq!(Value::I64(-1).to::<u64>(), Some(u64::MAX));
    assert_eq!(Value::F32(F32::from_bits(0x7fc0_0001)).to::<F32>(), Some(F32::from_bits(0x7fc0_0001)));
    assert_eq!(Value::F64(F64::from_bits(1)).to::<F64>(), Some(F64::from_bits(1)));
}

#[test]
fn conversion_fails_for_another_kind() {
    assert_eq!(Value::I32(1).to::<i64>(), None);
    assert_eq!(Value::I32(1).to::<u64>(), None);
    assert_eq!(Value::I64(1).to::<i32>(), None);
    assert_eq!(Value::I64(1).to::<u32>(), None);
    assert_eq!(Value::I32(1).to::<F32>(), None);
    assert_eq!(Value::F32(F32::from_bits(1)).to::<i32>(), None);
    assert_eq!(Value::F64(F64::from_bits(1)).to::<F32>(), None);
    assert_eq!(Value::F32(F32::from_bits(1)).to::<F64>(), None);
}

#[test]
fn number_into_value_and_back() {
    assert_eq!(5i32.into_value(), Value::I32(5));
    assert_eq!(u32::MAX.into_value(), Value::I32(-1));
    assert_eq!(0x8000_0000u32.into_value(), Value::I32(i32::MIN));
    assert_eq!(u64::MAX.into_value(), Value::I64(-1));
    assert_eq!(<u32 as Number>::from_value(u32::MAX.into_value()), Some(u32::MAX));
    assert_eq!(<u64 as Number>::from_value(u64::MAX.into_value()), Some(u64::MAX));
    assert_eq!(<u32 as Number>::value_type(), ValueType::I32);
    assert_eq!(<i64 as Number>::value_type(), ValueType::I64);
    assert_eq!(<F32 as Number>::value_type(), ValueType::F32);
    assert_eq!(<F64 as Number>::value_type(), ValueType::F64);
}

#[test]
fn floats_are_equal_when_their_bits_are() {
    let quiet = F32::from_bits(0x7fc0_0000);
    let payload = F32::from_bits(0x7fc0_0001);
    assert_eq!(quiet, F32::from_bits(0x7fc0_0000));
    assert_ne!(quiet, payload);
    assert_ne!(F64::from_bits(0), F64::from_bits(0x8000_0000_0000_0000));
    assert_eq!(payload.to_bits(), 0x7fc0_0001);
    assert_eq!(F32::default().to_bits(), 0);
    assert_eq!(F64::default().to_bits(), 0);
}

#[test]
fn message_value_round_trip() {
    let values = [
        Value::I32(-3),
        Value::I64(i64::MIN),
        Value::F32(F32::from_bits(0x7fc0_1234)),
        Value::F64(F64::from_bits(0x7ff8_0000_0000_0001)),
    ];
    for value in values.iter() {
        let message = wire::Value::from_value(value);
        assert!(message.value.is_some());
        assert_eq!(message.to_value(), *value);
    }
    assert_eq!(
        wire::Value::from_value(&Value::F32(F32::from_bits(9))),
        wire::Value { value: Some(wire::ValueKind::F32(9)) }
    );
    assert_eq!(
        wire::Value { value: Some(wire::ValueKind::I64(4)) }.to_value(),
        Value::I64(4)
    );
}

#[test]
fn values_from_numbers() {
    assert_eq!(Value::from(5i32), Value::I32(5));
    assert_eq!(Value::from(u32::MAX), Value::I32(-1));
    assert_eq!(Value::from(-5i64), Value::I64(-5));
    assert_eq!(Value::from(u64::MAX), Value::I64(-1));
    assert_eq!(Value::from(F32::from_bits(3)), Value::F32(F32::from_bits(3)));
    assert_eq!(Value::from(F64::from_bits(3)), Value::F64(F64::from_bits(3)));
    let into: Value = 7u32.into();
    assert_eq!(into, Value::I32(7));
}

#[test]
fn integer_values_from_text() {
    assert_eq!(Value::integer_from_str("42", ValueType::I32), Some(Value::I32(42)));
    assert_eq!(Value::integer_from_str("-42", ValueType::I32), Some(Value::I32(-42)));
    assert_eq!(Value::integer_from_str("4294967295", ValueType::I32), Some(Value::I32(-1)));
    assert_eq!(Value::integer_from_str("4294967296", ValueType::I32), Some(Value::I32(0)));
    assert_eq!(Value::integer_from_str("42", ValueType::I64), Some(Value::I64(42)));
    assert_eq!(
        Value::integer_from_str("18446744073709551615", ValueType::I64),
        Some(Value::I64(-1))
    );
    assert_eq!(
        Value::integer_from_str("-9223372036854775808", ValueType::I64),
        Some(Value::I64(i64::MIN))
    );
    assert_eq!(Value::integer_from_str("0x10", ValueType::I32), None);
    assert_eq!(Value::integer_from_str("", ValueType::I32), None);
    assert_eq!(Value::integer_from_str("1.5", ValueType::I64), None);
    assert_eq!(Value::integer_from_str("99999999999999999999", ValueType::I32), None);
    assert_eq!(Value::integer_from_str("1", ValueType::F32), None);
    assert_eq!(Value::integer_from_str("1", ValueType::F64), None);
}

#[test]
fn status_of_operations() {
    assert_eq!(run_status(&Ok(Some(Trap::ExecutionFinished))), Status::Finish);
    assert_eq!(run_status(&Ok(Some(Trap::BreakpointReached(3)))), Status::Okay);
    assert_eq!(run_status(&Ok(Some(Trap::WatchpointReached(0)))), Status::Okay);
    assert_eq!(run_status(&Ok(None)), Status::Okay);
    assert_eq!(run_status(&Ok(Some(Trap::DivisionByZero))), Status::Nok);
    assert_eq!(run_status(&Ok(Some(Trap::StepLimitReached))), Status::Nok);
    assert_eq!(run_status(&Ok(Some(Trap::UnsupportedCallToImportedFunction(1)))), Status::Nok);
    assert_eq!(run_status(&Err(DebuggerError::NoFileLoaded)), Status::Nok);
    assert_eq!(delete_status(&Ok(true)), Status::Okay);
    assert_eq!(delete_status(&Ok(false)), Status::Nok);
    assert_eq!(delete_status(&Err(DebuggerError::NoFileLoaded)), Status::Nok);
}

//! The wire-value codec: round trips, coercions, and type mismatches.

use sap_scripting::{ComValue, ConversionError, ObjectHandle};

#[test]
fn roundtrip_bool() {
    assert_eq!(ComValue::from_bool(true).to_bool(), Ok(true));
    assert_eq!(ComValue::from_bool(false).to_bool(), Ok(false));
}

#[test]
fn roundtrip_i32() {
    for x in [0i32, 1, -1, 42, -7, i32::MIN, i32::MAX] {
        assert_eq!(ComValue::from_i32(x).to_i32(), Ok(x));
    }
}

#[test]
fn roundtrip_i64() {
    for x in [0i64, 123, -123, i64::MIN, i64::MAX] {
        assert_eq!(ComValue::from_i64(x).to_i64(), Ok(x));
    }
}

#[test]
fn roundtrip_string() {
    for s in ["", "hello", "wnd[0]", "Grüße", "line\nbreak"] {
        assert_eq!(ComValue::from_str(s).to_string(), Ok(s.to_owned()));
    }
}

#[test]
fn roundtrip_object() {
    let h = ObjectHandle { id: 7 };
    assert_eq!(ComValue::from_object(h).to_object(), Ok(h));
}

#[test]
fn widening_i32_to_i64() {
    assert_eq!(ComValue::from_i32(-5).to_i64(), Ok(-5i64));
    assert_eq!(ComValue::from_i32(i32::MAX).to_i64(), Ok(i32::MAX as i64));
}

#[test]
fn narrowing_i64_to_i32() {
    assert_eq!(ComValue::from_i64(5).to_i32(), Ok(5));
    assert_eq!(ComValue::from_i64(i32::MIN as i64).to_i32(), Ok(i32::MIN));
    assert_eq!(
        ComValue::from_i64(i32::MAX as i64 + 1).to_i32(),
        Err(ConversionError::RuntimeCoercionFailed)
    );
    assert_eq!(
        ComValue::from_i64(i64::MIN).to_i32(),
        Err(ConversionError::RuntimeCoercionFailed)
    );
}

#[test]
fn int_stringifies() {
    assert_eq!(ComValue::from_i32(42).to_string(), Ok("42".to_owned()));
    assert_eq!(ComValue::from_i32(0).to_string(), Ok("0".to_owned()));
    assert_eq!(ComValue::from_i32(-17).to_string(), Ok("-17".to_owned()));
    assert_eq!(
        ComValue::from_i64(i64::MAX).to_string(),
        Ok("9223372036854775807".to_owned())
    );
    assert_eq!(
        ComValue::from_i64(i64::MIN).to_string(),
        Ok("-9223372036854775808".to_owned())
    );
}

#[test]
fn string_parses_to_int() {
    assert_eq!(ComValue::from_str("42").to_i32(), Ok(42));
    assert_eq!(ComValue::from_str("-42").to_i32(), Ok(-42));
    assert_eq!(ComValue::from_str("0").to_i32(), Ok(0));
    assert_eq!(ComValue::from_str("-0").to_i32(), Ok(0));
    assert_eq!(ComValue::from_str("007").to_i32(), Ok(7));
    assert_eq!(ComValue::from_str("0000000000000000000000042").to_i64(), Ok(42));
    assert_eq!(
        ComValue::from_str("9223372036854775807").to_i64(),
        Ok(i64::MAX)
    );
    assert_eq!(
        ComValue::from_str("-9223372036854775808").to_i64(),
        Ok(i64::MIN)
    );
}

#[test]
fn bad_strings_fail_coercion() {
    for s in ["abc", "", "-", "1.5", "4 2", "42x", "+42", " 42"] {
        assert_eq!(
            ComValue::from_str(s).to_i32(),
            Err(ConversionError::RuntimeCoercionFailed),
            "input {:?}",
            s
        );
        assert_eq!(
            ComValue::from_str(s).to_i64(),
            Err(ConversionError::RuntimeCoercionFailed),
            "input {:?}",
            s
        );
    }
}

#[test]
fn out_of_range_strings_fail_coercion() {
    assert_eq!(
        ComValue::from_str("9223372036854775808").to_i64(),
        Err(ConversionError::RuntimeCoercionFailed)
    );
    assert_eq!(
        ComValue::from_str("-9223372036854775809").to_i64(),
        Err(ConversionError::RuntimeCoercionFailed)
    );
    assert_eq!(
        ComValue::from_str("99999999999999999999999999999999").to_i64(),
        Err(ConversionError::RuntimeCoercionFailed)
    );
    assert_eq!(
        ComValue::from_str("2147483648").to_i32(),
        Err(ConversionError::RuntimeCoercionFailed)
    );
    assert_eq!(ComValue::from_str("2147483648").to_i64(), Ok(2147483648));
}

#[test]
fn bool_coercions() {
    assert_eq!(ComValue::from_bool(true).to_string(), Ok("True".to_owned()));
    assert_eq!(ComValue::from_bool(false).to_string(), Ok("False".to_owned()));
    assert_eq!(ComValue::from_str("True").to_bool(), Ok(true));
    assert_eq!(ComValue::from_str("False").to_bool(), Ok(false));
    assert_eq!(
        ComValue::from_str("yes").to_bool(),
        Err(ConversionError::RuntimeCoercionFailed)
    );
    assert_eq!(
        ComValue::from_str("true").to_bool(),
        Err(ConversionError::RuntimeCoercionFailed)
    );
    assert_eq!(ComValue::from_i32(0).to_bool(), Ok(false));
    assert_eq!(ComValue::from_i32(3).to_bool(), Ok(true));
    assert_eq!(ComValue::from_i64(-1).to_bool(), Ok(true));
    assert_eq!(ComValue::from_bool(true).to_i32(), Ok(-1));
    assert_eq!(ComValue::from_bool(false).to_i32(), Ok(0));
    assert_eq!(ComValue::from_bool(true).to_i64(), Ok(-1));
}

#[test]
fn object_ref_never_decodes_to_primitive() {
    let v = ComValue::from_object(ObjectHandle { id: 3 });
    assert_eq!(v.to_i32(), Err(ConversionError::TypeMismatch));
    assert_eq!(v.to_i64(), Err(ConversionError::TypeMismatch));
    assert_eq!(v.to_string(), Err(ConversionError::TypeMismatch));
    assert_eq!(v.to_bool(), Err(ConversionError::TypeMismatch));
}

#[test]
fn null_never_decodes_to_primitive() {
    let v = ComValue::null();
    assert_eq!(v.to_i32(), Err(ConversionError::TypeMismatch));
    assert_eq!(v.to_i64(), Err(ConversionError::TypeMismatch));
    assert_eq!(v.to_string(), Err(ConversionError::TypeMismatch));
    assert_eq!(v.to_bool(), Err(ConversionError::TypeMismatch));
}

#[test]
fn primitives_never_decode_to_handle() {
    assert_eq!(ComValue::null().to_object(), Err(ConversionError::TypeMismatch));
    assert_eq!(ComValue::from_bool(true).to_object(), Err(ConversionError::TypeMismatch));
    assert_eq!(ComValue::from_i32(1).to_object(), Err(ConversionError::TypeMismatch));
    assert_eq!(ComValue::from_i64(1).to_object(), Err(ConversionError::TypeMismatch));
    assert_eq!(
        ComValue::from_str("GuiButton").to_object(),
        Err(ConversionError::TypeMismatch)
    );
}

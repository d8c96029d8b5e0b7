//! The wire-value codec.
//!
//! Conversion between native values and the wire union is explicit and
//! fallible, and mirrors the remote runtime's own coercion rules: numbers
//! convert to their decimal strings, numeric strings convert back to
//! numbers, booleans exchange with their canonical spellings, and an object
//! reference never converts to a primitive (nor a primitive to an object
//! reference).  A failed coercion is always reported, never defaulted.

use vstd::prelude::*;

use crate::numeric::{format_i64, int_numeral_val, int_str, is_int_numeral, parse_i64};
use crate::value::{ComValue, ConversionError, ObjectHandle, ValueView};

verus! {

/// The canonical spelling of `true` in the remote type system.
pub open spec fn true_str() -> Seq<char> {
    "True"@
}

/// The canonical spelling of `false` in the remote type system.
pub open spec fn false_str() -> Seq<char> {
    "False"@
}

/// What decoding a wire value to an integer in `lo..=hi` yields.
///
/// Booleans coerce to the remote runtime's integer encoding (-1 for true,
/// 0 for false); integers and well-formed numeric strings succeed exactly
/// when the value lies in range; everything else is a type mismatch or a
/// failed coercion.
pub open spec fn spec_decode_int(v: ValueView, lo: int, hi: int) -> Result<int, ConversionError> {
    match v {
        ValueView::Null => Err(ConversionError::TypeMismatch),
        ValueView::Bool(b) => Ok(if b { -1int } else { 0int }),
        ValueView::Int32(n) => if lo <= n <= hi {
            Ok(n)
        } else {
            Err(ConversionError::RuntimeCoercionFailed)
        },
        ValueView::Int64(n) => if lo <= n <= hi {
            Ok(n)
        } else {
            Err(ConversionError::RuntimeCoercionFailed)
        },
        ValueView::Str(s) => if is_int_numeral(s) && lo <= int_numeral_val(s) <= hi {
            Ok(int_numeral_val(s))
        } else {
            Err(ConversionError::RuntimeCoercionFailed)
        },
        ValueView::Object(_) => Err(ConversionError::TypeMismatch),
    }
}

/// What decoding a wire value to a string yields: strings pass through,
/// numbers are stringified in decimal, booleans take their canonical
/// spelling, and null and object references do not convert.
pub open spec fn spec_decode_string(v: ValueView) -> Result<Seq<char>, ConversionError> {
    match v {
        ValueView::Null => Err(ConversionError::TypeMismatch),
        ValueView::Bool(b) => Ok(if b { true_str() } else { false_str() }),
        ValueView::Int32(n) => Ok(int_str(n)),
        ValueView::Int64(n) => Ok(int_str(n)),
        ValueView::Str(s) => Ok(s),
        ValueView::Object(_) => Err(ConversionError::TypeMismatch),
    }
}

/// What decoding a wire value to a boolean yields: booleans pass through,
/// integers coerce by the nonzero rule, and only the canonical spellings
/// coerce from strings.
pub open spec fn spec_decode_bool(v: ValueView) -> Result<bool, ConversionError> {
    match v {
        ValueView::Null => Err(ConversionError::TypeMismatch),
        ValueView::Bool(b) => Ok(b),
        ValueView::Int32(n) => Ok(n != 0),
        ValueView::Int64(n) => Ok(n != 0),
        ValueView::Str(s) => if s == true_str() {
            Ok(true)
        } else if s == false_str() {
            Ok(false)
        } else {
            Err(ConversionError::RuntimeCoercionFailed)
        },
        ValueView::Object(_) => Err(ConversionError::TypeMismatch),
    }
}

/// Are two strings equal?
pub(crate) fn str_eq(a: &str, b: &str) -> (r: bool)
    ensures
        r == (a@ == b@),
{
    let sa = a.to_owned();
    let sb = b.to_owned();
    sa == sb
}

impl ComValue {
    /// Encode the absence of a value.
    pub fn null() -> (r: ComValue)
        ensures
            r@ == ValueView::Null,
    {
        ComValue::Null
    }

    /// Encode a 32-bit integer.
    pub fn from_i32(n: i32) -> (r: ComValue)
        ensures
            r@ == ValueView::Int32(n as int),
    {
        ComValue::Int32(n)
    }

    /// Encode a 64-bit integer.
    pub fn from_i64(n: i64) -> (r: ComValue)
        ensures
            r@ == ValueView::Int64(n as int),
    {
        ComValue::Int64(n)
    }

    /// Encode a string.
    pub fn from_str(s: &str) -> (r: ComValue)
        ensures
            r@ == ValueView::Str(s@),
    {
        ComValue::Str(s.to_owned())
    }

    /// Encode a boolean.
    pub fn from_bool(b: bool) -> (r: ComValue)
        ensures
            r@ == ValueView::Bool(b),
    {
        ComValue::Bool(b)
    }

    /// Encode an object reference.
    pub fn from_object(h: ObjectHandle) -> (r: ComValue)
        ensures
            r@ == ValueView::Object(h.id as int),
    {
        ComValue::Object(h)
    }

    /// Decode this value as a 32-bit integer, applying the remote coercion
    /// rules.
    pub fn to_i32(&self) -> (r: Result<i32, ConversionError>)
        ensures
            ({
                let m = spec_decode_int(self@, i32::MIN as int, i32::MAX as int);
                match r {
                    Ok(x) => m == Ok::<int, ConversionError>(x as int),
                    Err(e) => m == Err::<int, ConversionError>(e),
                }
            }),
    {
        match self {
            ComValue::Null => Err(ConversionError::TypeMismatch),
            ComValue::Bool(b) => Ok(if *b { -1 } else { 0 }),
            ComValue::Int32(n) => Ok(*n),
            ComValue::Int64(n) => {
                if i32::MIN as i64 <= *n && *n <= i32::MAX as i64 {
                    Ok(*n as i32)
                } else {
                    Err(ConversionError::RuntimeCoercionFailed)
                }
            },
            ComValue::Str(s) => {
                match parse_i64(s.as_str()) {
                    Some(x) => {
                        if i32::MIN as i64 <= x && x <= i32::MAX as i64 {
                            Ok(x as i32)
                        } else {
                            Err(ConversionError::RuntimeCoercionFailed)
                        }
                    },
                    None => Err(ConversionError::RuntimeCoercionFailed),
                }
            },
            ComValue::Object(_) => Err(ConversionError::TypeMismatch),
        }
    }

    /// Decode this value as a 64-bit integer, applying the remote coercion
    /// rules.
    pub fn to_i64(&self) -> (r: Result<i64, ConversionError>)
        ensures
            ({
                let m = spec_decode_int(self@, i64::MIN as int, i64::MAX as int);
                match r {
                    Ok(x) => m == Ok::<int, ConversionError>(x as int),
                    Err(e) => m == Err::<int, ConversionError>(e),
                }
            }),
    {
        match self {
            ComValue::Null => Err(ConversionError::TypeMismatch),
            ComValue::Bool(b) => Ok(if *b { -1 } else { 0 }),
            ComValue::Int32(n) => Ok(*n as i64),
            ComValue::Int64(n) => Ok(*n),
            ComValue::Str(s) => {
                match parse_i64(s.as_str()) {
                    Some(x) => Ok(x),
                    None => Err(ConversionError::RuntimeCoercionFailed),
                }
            },
            ComValue::Object(_) => Err(ConversionError::TypeMismatch),
        }
    }

    /// Decode this value as a string, applying the remote coercion rules.
    pub fn to_string(&self) -> (r: Result<String, ConversionError>)
        ensures
            ({
                let m = spec_decode_string(self@);
                match r {
                    Ok(s) => m == Ok::<Seq<char>, ConversionError>(s@),
                    Err(e) => m == Err::<Seq<char>, ConversionError>(e),
                }
            }),
    {
        match self {
            ComValue::Null => Err(ConversionError::TypeMismatch),
            ComValue::Bool(b) => {
                if *b {
                    Ok(String::from_str("True"))
                } else {
                    Ok(String::from_str("False"))
                }
            },
            ComValue::Int32(n) => Ok(format_i64(*n as i64)),
            ComValue::Int64(n) => Ok(format_i64(*n)),
            ComValue::Str(s) => Ok(s.clone()),
            ComValue::Object(_) => Err(ConversionError::TypeMismatch),
        }
    }

    /// Decode this value as a boolean, applying the remote coercion rules.
    pub fn to_bool(&self) -> (r: Result<bool, ConversionError>)
        ensures
            r == spec_decode_bool(self@),
    {
        match self {
            ComValue::Null => Err(ConversionError::TypeMismatch),
            ComValue::Bool(b) => Ok(*b),
            ComValue::Int32(n) => Ok(*n != 0),
            ComValue::Int64(n) => Ok(*n != 0),
            ComValue::Str(s) => {
                if str_eq(s.as_str(), "True") {
                    Ok(true)
                } else if str_eq(s.as_str(), "False") {
                    Ok(false)
                } else {
                    Err(ConversionError::RuntimeCoercionFailed)
                }
            },
            ComValue::Object(_) => Err(ConversionError::TypeMismatch),
        }
    }

    /// Decode this value as an object reference.  Only the object-reference
    /// variant converts; every primitive is a type mismatch.
    pub fn to_object(&self) -> (r: Result<ObjectHandle, ConversionError>)
        ensures
            r == (match self@ {
                ValueView::Object(_) => Ok::<ObjectHandle, ConversionError>(
                    self.spec_object_handle(),
                ),
                _ => Err::<ObjectHandle, ConversionError>(ConversionError::TypeMismatch),
            }),
    {
        match self {
            ComValue::Object(h) => Ok(*h),
            _ => Err(ConversionError::TypeMismatch),
        }
    }

    /// The handle carried by an object-reference value.
    pub open spec fn spec_object_handle(&self) -> ObjectHandle {
        match self {
            ComValue::Object(h) => *h,
            _ => ObjectHandle { id: 0 },
        }
    }
}

/// Law: decoding an encoded value gives the value back, for every supported
/// native type.  Together with the contracts of the encoders (whose results
/// are the matched views) and decoders, this is the codec round trip.
pub proof fn lemma_roundtrip(b: bool, x: i32, y: i64, s: Seq<char>, h: int)
    ensures
        spec_decode_bool(ValueView::Bool(b)) == Ok::<bool, ConversionError>(b),
        spec_decode_int(ValueView::Int32(x as int), i32::MIN as int, i32::MAX as int)
            == Ok::<int, ConversionError>(x as int),
        spec_decode_int(ValueView::Int64(y as int), i64::MIN as int, i64::MAX as int)
            == Ok::<int, ConversionError>(y as int),
        spec_decode_string(ValueView::Str(s)) == Ok::<Seq<char>, ConversionError>(s),
{
}

/// Law: a numeric wire value decodes to its decimal string, and the decimal
/// string of an in-range integer decodes back to that integer; a string
/// that is not a well-formed numeral fails with a coercion error.
pub proof fn lemma_numeric_string_coercion(n: int, s: Seq<char>)
    requires
        i64::MIN <= n <= i64::MAX,
    ensures
        spec_decode_string(ValueView::Int32(n)) == Ok::<Seq<char>, ConversionError>(int_str(n)),
        spec_decode_string(ValueView::Int64(n)) == Ok::<Seq<char>, ConversionError>(int_str(n)),
        spec_decode_int(ValueView::Str(int_str(n)), i64::MIN as int, i64::MAX as int)
            == Ok::<int, ConversionError>(n),
        !is_int_numeral(s) ==> spec_decode_int(ValueView::Str(s), i64::MIN as int, i64::MAX as int)
            == Err::<int, ConversionError>(ConversionError::RuntimeCoercionFailed),
{
    crate::numeric::lemma_int_str_roundtrip(n);
}

/// Law: an object reference decodes to no primitive; the failure is always
/// a type mismatch, never a panic.  (The converse — nothing but an object
/// reference decodes to a handle — is the contract of `to_object`.)
pub proof fn lemma_object_mismatch(h: int)
    ensures
        spec_decode_bool(ValueView::Object(h)) == Err::<bool, ConversionError>(
            ConversionError::TypeMismatch,
        ),
        spec_decode_string(ValueView::Object(h)) == Err::<Seq<char>, ConversionError>(
            ConversionError::TypeMismatch,
        ),
        forall|lo: int, hi: int|
            spec_decode_int(ValueView::Object(h), lo, hi) == Err::<int, ConversionError>(
                ConversionError::TypeMismatch,
            ),
{
}

} // verus!

//! The value codec: lossless marshalling between the caller's dynamic
//! value format and the engine's native value types.
//!
//! Floating-point data is carried as IEEE 754 binary64 bit patterns
//! (`u64`), so the codec's arithmetic-free logic can be verified;
//! the trusted boundary turns bits into `f64` and back.

use vstd::prelude::*;

use crate::error::Error;

verus! {

/// A caller-side dynamic value: the tagged union used at the system
/// boundary for statement parameters and query results.
///
/// `Real` holds the bit pattern of an IEEE 754 binary64 number.
/// `Array` and `Object` stand for the composite shapes, which the
/// gateway rejects as parameters and never produces as results.
#[derive(Debug, Clone)]
pub enum DynamicValue {
    Null,
    Bool(bool),
    Int(i64),
    Real(u64),
    Text(String),
    Array,
    Object,
}

/// An engine-side native value: what the database stores in a column.
///
/// `Real` holds an IEEE 754 binary64 bit pattern.
#[derive(Debug)]
pub enum EngineValue {
    Null,
    Integer(i64),
    Real(u64),
    Text(String),
    Blob(Vec<u8>),
}

/// What the base64 encoding of a byte string reads as; the trusted
/// encoder's contract ties it to the outside encoder.
pub uninterp spec fn base64_of(b: Seq<u8>) -> Seq<char>;

/// An IEEE 754 binary64 bit pattern denotes a finite number exactly
/// when its exponent field is not all ones.
pub open spec fn real_bits_finite(bits: u64) -> bool {
    (bits >> 52) & 0x7ff != 0x7ff
}

/// The 64-bit signed integer an IEEE 754 binary64 bit pattern denotes,
/// when it denotes one exactly: the number is finite, has no
/// fractional part, and is in range. Reading the fields: a finite
/// nonzero number is (-1)^sign * 1.mantissa * 2^(exponent-1023), so it
/// is fraction-free exactly when the mantissa bits below the binary
/// point are zero, and it fits exactly when its magnitude stays below
/// 2^63 (or equals 2^63 with a negative sign).
pub open spec fn real_bits_integer(bits: u64) -> Option<i64> {
    let sign = bits >> 63;
    let e = (bits >> 52) & 0x7ff;
    let m = bits & 0xf_ffff_ffff_ffff;
    if e == 0x7ff {
        None
    } else if e == 0 {
        if m == 0 {
            Some(0)
        } else {
            None
        }
    } else if e < 1023 {
        None
    } else if e <= 1074 {
        let frac_bits = (1075 - e) as u64;
        if m % (1u64 << frac_bits) != 0 {
            None
        } else {
            let mag = (0x10_0000_0000_0000u64 | m) >> frac_bits;
            if sign == 1 {
                Some((0 - mag) as i64)
            } else {
                Some(mag as i64)
            }
        }
    } else if e <= 1085 {
        let mag = (0x10_0000_0000_0000u64 | m) << ((e - 1075) as u64);
        if sign == 1 {
            Some((0 - mag) as i64)
        } else {
            Some(mag as i64)
        }
    } else if e == 1086 && sign == 1 && m == 0 {
        Some(i64::MIN)
    } else {
        None
    }
}

/// The parameter direction of the codec: which native value a dynamic
/// value is bound as, or `None` for the rejected composite shapes.
/// Booleans are stored as the integers zero and one, the engine's own
/// convention; a number prefers the 64-bit integer representation
/// whenever it has no fractional part and fits, else it binds as a
/// real.
pub open spec fn spec_encode(v: DynamicValue) -> Option<EngineValue> {
    match v {
        DynamicValue::Null => Some(EngineValue::Null),
        DynamicValue::Bool(b) => Some(EngineValue::Integer(if b { 1 } else { 0 })),
        DynamicValue::Int(i) => Some(EngineValue::Integer(i)),
        DynamicValue::Real(bits) => match real_bits_integer(bits) {
            Some(i) => Some(EngineValue::Integer(i)),
            None => Some(EngineValue::Real(bits)),
        },
        DynamicValue::Text(s) => Some(EngineValue::Text(s)),
        DynamicValue::Array => None,
        DynamicValue::Object => None,
    }
}

/// The result direction of the codec: `d` is the dynamic value that
/// the native column value `v` surfaces as. Blobs surface as their
/// base64 text; a non-finite real has no result representation.
pub open spec fn spec_decodes_to(v: EngineValue, d: DynamicValue) -> bool {
    match v {
        EngineValue::Null => d matches DynamicValue::Null,
        EngineValue::Integer(i) => (d matches DynamicValue::Int(j) && j == i),
        EngineValue::Real(bits) => real_bits_finite(bits) && (d matches DynamicValue::Real(c)
            && c == bits),
        EngineValue::Text(s) => (d matches DynamicValue::Text(t) && t == s),
        EngineValue::Blob(b) => (d matches DynamicValue::Text(t) && t@ == base64_of(b@)),
    }
}

/// The one native value without a result representation: a real whose
/// bits denote a NaN or an infinity.
pub open spec fn spec_decode_fails(v: EngineValue) -> bool {
    v matches EngineValue::Real(bits) && !real_bits_finite(bits)
}

/// Converts one dynamic value into the engine's native parameter
/// representation; composite shapes are rejected, never coerced.
pub fn value_to_param(value: DynamicValue) -> (r: Result<EngineValue, Error>)
    ensures
        r matches Ok(e) ==> spec_encode(value) == Some(e),
        r is Err <==> spec_encode(value) is None,
        r matches Err(e) ==> e matches Error::ValueConversionError(_),
{
    match value {
        DynamicValue::Null => Ok(EngineValue::Null),
        DynamicValue::Bool(b) => Ok(EngineValue::Integer(if b { 1 } else { 0 })),
        DynamicValue::Int(i) => Ok(EngineValue::Integer(i)),
        DynamicValue::Real(bits) => match bits_to_integer(bits) {
            Some(i) => Ok(EngineValue::Integer(i)),
            None => Ok(EngineValue::Real(bits)),
        },
        DynamicValue::Text(s) => Ok(EngineValue::Text(s)),
        DynamicValue::Array => Err(Error::ValueConversionError(String::from_str(
            "arrays are not supported as parameters",
        ))),
        DynamicValue::Object => Err(Error::ValueConversionError(String::from_str(
            "objects are not supported as parameters",
        ))),
    }
}

/// Whether every entry of a parameter list has a supported shape.
pub open spec fn params_ok(vs: Seq<DynamicValue>) -> bool {
    forall|i: int| 0 <= i < vs.len() ==> (#[trigger] spec_encode(vs[i])) is Some
}

/// Whether a dynamic value can appear as a query result: the decode
/// direction never produces booleans or composite shapes, and any
/// real it produces is finite.
pub open spec fn is_result_value(d: DynamicValue) -> bool {
    match d {
        DynamicValue::Null => true,
        DynamicValue::Bool(_) => false,
        DynamicValue::Int(_) => true,
        DynamicValue::Real(bits) => real_bits_finite(bits),
        DynamicValue::Text(_) => true,
        DynamicValue::Array => false,
        DynamicValue::Object => false,
    }
}

/// Converts a parameter list; fails exactly when some entry has a
/// rejected shape.
pub fn values_to_params(values: Vec<DynamicValue>) -> (r: Result<Vec<EngineValue>, Error>)
    ensures
        r matches Ok(ps) ==> {
            &&& ps@.len() == values@.len()
            &&& forall|i: int| 0 <= i < values@.len() ==> spec_encode(values@[i]) == Some(
                #[trigger] ps@[i],
            )
        },
        r is Err <==> !params_ok(values@),
        r matches Err(e) ==> e matches Error::ValueConversionError(_),
{
    let mut out: Vec<EngineValue> = Vec::new();
    let mut idx: usize = 0;
    while idx < values.len()
        invariant
            0 <= idx <= values@.len(),
            out@.len() == idx,
            forall|i: int| 0 <= i < idx ==> spec_encode(values@[i]) == Some(#[trigger] out@[i]),
            forall|i: int| 0 <= i < idx ==> (#[trigger] spec_encode(values@[i])) is Some,
        decreases values@.len() - idx,
    {
        let v = clone_dynamic(&values[idx]);
        match value_to_param(v) {
            Ok(e) => out.push(e),
            Err(e) => {
                return Err(e);
            },
        }
        idx += 1;
    }
    Ok(out)
}

impl PartialEq for DynamicValue {
    fn eq(&self, other: &Self) -> (r: bool) {
        match (self, other) {
            (DynamicValue::Null, DynamicValue::Null) => true,
            (DynamicValue::Bool(a), DynamicValue::Bool(b)) => a == b,
            (DynamicValue::Int(a), DynamicValue::Int(b)) => a == b,
            (DynamicValue::Real(a), DynamicValue::Real(b)) => a == b,
            (DynamicValue::Text(a), DynamicValue::Text(b)) => crate::strings::str_eq(
                a.as_str(),
                b.as_str(),
            ),
            (DynamicValue::Array, DynamicValue::Array) => true,
            (DynamicValue::Object, DynamicValue::Object) => true,
            _ => false,
        }
    }
}

impl vstd::std_specs::cmp::PartialEqSpecImpl for DynamicValue {
    open spec fn obeys_eq_spec() -> bool {
        true
    }

    open spec fn eq_spec(&self, other: &Self) -> bool {
        match (self, other) {
            (DynamicValue::Null, DynamicValue::Null) => true,
            (DynamicValue::Bool(a), DynamicValue::Bool(b)) => a == b,
            (DynamicValue::Int(a), DynamicValue::Int(b)) => a == b,
            (DynamicValue::Real(a), DynamicValue::Real(b)) => a == b,
            (DynamicValue::Text(a), DynamicValue::Text(b)) => a@ == b@,
            (DynamicValue::Array, DynamicValue::Array) => true,
            (DynamicValue::Object, DynamicValue::Object) => true,
            _ => false,
        }
    }
}

/// A structural copy of a dynamic value.
fn clone_dynamic(v: &DynamicValue) -> (r: DynamicValue)
    ensures
        r == *v,
{
    match v {
        DynamicValue::Null => DynamicValue::Null,
        DynamicValue::Bool(b) => DynamicValue::Bool(*b),
        DynamicValue::Int(i) => DynamicValue::Int(*i),
        DynamicValue::Real(bits) => DynamicValue::Real(*bits),
        DynamicValue::Text(s) => DynamicValue::Text(s.clone()),
        DynamicValue::Array => DynamicValue::Array,
        DynamicValue::Object => DynamicValue::Object,
    }
}

/// Tests whether an IEEE 754 binary64 bit pattern denotes a finite
/// number.
pub fn bits_are_finite(bits: u64) -> (r: bool)
    ensures
        r == real_bits_finite(bits),
{
    (bits >> 52) & 0x7ff != 0x7ff
}

/// The exact 64-bit integer a binary64 bit pattern denotes, if any.
pub fn bits_to_integer(bits: u64) -> (r: Option<i64>)
    ensures
        r == real_bits_integer(bits),
{
    let sign = bits >> 63;
    let e = (bits >> 52) & 0x7ff;
    let m = bits & 0xf_ffff_ffff_ffff;
    proof {
        assert(m <= 0xf_ffff_ffff_ffffu64) by (bit_vector)
            requires
                m == bits & 0xf_ffff_ffff_ffff,
        ;
    }
    if e == 0x7ff {
        None
    } else if e == 0 {
        if m == 0 {
            Some(0)
        } else {
            None
        }
    } else if e < 1023 {
        None
    } else if e <= 1074 {
        let frac_bits: u64 = 1075 - e;
        proof {
            assert((1u64 << frac_bits) != 0) by (bit_vector)
                requires
                    1 <= frac_bits <= 52,
            ;
        }
        if m % (1u64 << frac_bits) != 0 {
            None
        } else {
            let mag = (0x10_0000_0000_0000u64 | m) >> frac_bits;
            proof {
                assert(((0x10_0000_0000_0000u64 | m) >> frac_bits) <= 0x1f_ffff_ffff_ffffu64)
                    by (bit_vector)
                    requires
                        m <= 0xf_ffff_ffff_ffffu64,
                        1 <= frac_bits <= 52,
                ;
            }
            if sign == 1 {
                Some(0 - (mag as i64))
            } else {
                Some(mag as i64)
            }
        }
    } else if e <= 1085 {
        let shift: u64 = e - 1075;
        let mag = (0x10_0000_0000_0000u64 | m) << shift;
        proof {
            assert(((0x10_0000_0000_0000u64 | m) << shift) <= 0x7fff_ffff_ffff_ffffu64)
                by (bit_vector)
                requires
                    m <= 0xf_ffff_ffff_ffffu64,
                    shift <= 10,
            ;
        }
        if sign == 1 {
            Some(0 - (mag as i64))
        } else {
            Some(mag as i64)
        }
    } else if e == 1086 && sign == 1 && m == 0 {
        Some(i64::MIN)
    } else {
        None
    }
}

/// Converts one native column value into the caller's dynamic format.
/// Blobs are surfaced as base64 text; a NaN or infinite real cannot be
/// represented and is rejected.
pub fn column_to_dynamic(value: EngineValue) -> (r: Result<DynamicValue, Error>)
    ensures
        r matches Ok(d) ==> spec_decodes_to(value, d) && is_result_value(d),
        r is Err <==> spec_decode_fails(value),
        r matches Err(e) ==> e matches Error::ValueConversionError(_),
{
    match value {
        EngineValue::Null => Ok(DynamicValue::Null),
        EngineValue::Integer(i) => Ok(DynamicValue::Int(i)),
        EngineValue::Real(bits) => {
            if bits_are_finite(bits) {
                Ok(DynamicValue::Real(bits))
            } else {
                Err(Error::ValueConversionError(String::from_str(
                    "a NaN or infinite real has no result representation",
                )))
            }
        },
        EngineValue::Text(s) => Ok(DynamicValue::Text(s)),
        EngineValue::Blob(b) => Ok(DynamicValue::Text(crate::sql::base64_encode(&b))),
    }
}

/// Round trip: every supported dynamic value shape other than the
/// composite ones converts to a parameter and decodes back to itself,
/// with exceptions inherent in the engine's storage model: a boolean
/// is stored as an integer, a fraction-free in-range real binds as an
/// integer, and a non-finite real has no result representation.
/// Binary data round-trips only through its base64 text form, which
/// `spec_decodes_to` states for blobs.
pub proof fn lemma_codec_round_trip(v: DynamicValue)
    requires
        v matches DynamicValue::Real(bits) ==> real_bits_finite(bits) && real_bits_integer(
            bits,
        ) is None,
        !(v matches DynamicValue::Bool(_)),
        !(v matches DynamicValue::Array),
        !(v matches DynamicValue::Object),
    ensures
        spec_encode(v) matches Some(e) && spec_decodes_to(e, v),
{
}

} // verus!

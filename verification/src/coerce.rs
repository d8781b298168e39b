use vstd::prelude::*;

use crate::digits::lemma_dec_digits_val;
use crate::digits::spec_dec_digits;
use crate::digits::spec_parse_i32;
use crate::digits::spec_parse_u64;
use crate::digits::parse_i32;
use crate::digits::parse_u64;
use crate::digits::u64_to_dec_string;
use crate::error::Error;
use crate::json::{Json, JsonNum};

verus! {

// Strict decoders: the readings a field gets when the upstream schema
// declares it as a plain typed value. `null` and any other shape mismatch is
// a decode failure.

/// Strict signed 32-bit reading of a JSON value: an integer number within
/// the signed 32-bit range, nothing else.
pub open spec fn spec_decode_i32(j: Json) -> Result<i32, Error> {
    match j {
        Json::Num(JsonNum::UInt(u)) => if u <= i32::MAX as u64 {
            Ok(u as i32)
        } else {
            Err(Error::Decode)
        },
        Json::Num(JsonNum::NegInt(i)) => if i >= i32::MIN as i64 {
            Ok(i as i32)
        } else {
            Err(Error::Decode)
        },
        _ => Err(Error::Decode),
    }
}

/// Reads a field that the upstream schema types as a plain 32-bit integer.
pub fn decode_i32(j: &Json) -> (r: Result<i32, Error>)
    ensures
        r == spec_decode_i32(*j),
{
    match j {
        Json::Num(JsonNum::UInt(u)) => {
            if *u <= i32::MAX as u64 {
                Ok(*u as i32)
            } else {
                Err(Error::Decode)
            }
        },
        Json::Num(JsonNum::NegInt(i)) => {
            if *i >= i32::MIN as i64 {
                Ok(*i as i32)
            } else {
                Err(Error::Decode)
            }
        },
        _ => Err(Error::Decode),
    }
}

/// Strict unsigned 64-bit reading of a JSON value.
pub open spec fn spec_decode_u64(j: Json) -> Result<u64, Error> {
    match j {
        Json::Num(JsonNum::UInt(u)) => Ok(u),
        _ => Err(Error::Decode),
    }
}

/// Reads a field that the upstream schema types as a plain unsigned integer.
pub fn decode_u64(j: &Json) -> (r: Result<u64, Error>)
    ensures
        r == spec_decode_u64(*j),
{
    match j {
        Json::Num(JsonNum::UInt(u)) => Ok(*u),
        _ => Err(Error::Decode),
    }
}

/// Strict string reading of a JSON value.
pub open spec fn spec_decode_string(j: Json) -> Result<Seq<char>, Error> {
    match j {
        Json::Str(s) => Ok(s@),
        _ => Err(Error::Decode),
    }
}

/// Reads a field that the upstream schema types as a plain string.
pub fn decode_string(j: &Json) -> (r: Result<String, Error>)
    ensures
        match r {
            Ok(s) => spec_decode_string(*j) == Ok::<Seq<char>, Error>(s@),
            Err(e) => spec_decode_string(*j) == Err::<Seq<char>, Error>(e),
        },
{
    match j {
        Json::Str(s) => Ok(s.clone()),
        _ => Err(Error::Decode),
    }
}

/// Strict reading of a JSON value as an array of strings.
pub open spec fn spec_decode_string_list(j: Json) -> Result<Seq<Seq<char>>, Error> {
    match j {
        Json::Arr(elems) => if forall|i: int| 0 <= i < elems@.len() ==> (#[trigger] elems@[i]) is Str {
            Ok(Seq::new(elems@.len(), |i: int| elems@[i]->Str_0@))
        } else {
            Err(Error::Decode)
        },
        _ => Err(Error::Decode),
    }
}

/// Reads a field that the upstream schema types as an array of strings.
#[verifier::loop_isolation(false)]
pub fn decode_string_list(j: &Json) -> (r: Result<Vec<String>, Error>)
    ensures
        match r {
            Ok(v) => spec_decode_string_list(*j) == Ok::<Seq<Seq<char>>, Error>(v.deep_view()),
            Err(e) => spec_decode_string_list(*j) == Err::<Seq<Seq<char>>, Error>(e),
        },
{
    match j {
        Json::Arr(elems) => {
            let mut out: Vec<String> = Vec::new();
            let mut i: usize = 0;
            while i < elems.len()
                invariant
                    0 <= i <= elems@.len(),
                    out@.len() == i,
                    forall|k: int| 0 <= k < i ==> elems@[k] is Str,
                    forall|k: int| 0 <= k < i ==> out@[k]@ == #[trigger] elems@[k]->Str_0@,
                decreases elems@.len() - i,
            {
                match &elems[i] {
                    Json::Str(s) => {
                        out.push(s.clone());
                    },
                    _ => {
                        proof {
                            assert(!(elems@[i as int] is Str));
                        }
                        return Err(Error::Decode);
                    },
                }
                i = i + 1;
            }
            proof {
                assert(out.deep_view() =~= Seq::new(
                    elems@.len(),
                    |k: int| elems@[k]->Str_0@,
                ));
            }
            Ok(out)
        },
        _ => Err(Error::Decode),
    }
}

// The tolerant coercion utilities shared by every adapter that parses
// loosely typed upstream JSON.

/// Tolerant signed 32-bit coercion: accepts a JSON number or a numeric
/// string; an integer number outside the signed 32-bit range clamps to `0`
/// (upstream occasionally sends out-of-range sentinel values); anything else
/// is a decode failure.
pub open spec fn spec_coerce_int32(j: Json) -> Result<i32, Error> {
    match j {
        Json::Str(s) => match spec_parse_i32(s@) {
            Some(v) => Ok(v),
            None => Err(Error::Decode),
        },
        Json::Num(JsonNum::UInt(u)) => if u <= i32::MAX as u64 {
            Ok(u as i32)
        } else {
            Ok(0i32)
        },
        Json::Num(JsonNum::NegInt(i)) => if i >= i32::MIN as i64 {
            Ok(i as i32)
        } else {
            Ok(0i32)
        },
        _ => Err(Error::Decode),
    }
}

/// Coerces a number-or-numeric-string field to a signed 32-bit value.
pub fn coerce_int32(j: &Json) -> (r: Result<i32, Error>)
    ensures
        r == spec_coerce_int32(*j),
{
    match j {
        Json::Str(s) => match parse_i32(s.as_str()) {
            Some(v) => Ok(v),
            None => Err(Error::Decode),
        },
        Json::Num(JsonNum::UInt(u)) => {
            if *u <= i32::MAX as u64 {
                Ok(*u as i32)
            } else {
                Ok(0i32)
            }
        },
        Json::Num(JsonNum::NegInt(i)) => {
            if *i >= i32::MIN as i64 {
                Ok(*i as i32)
            } else {
                Ok(0i32)
            }
        },
        _ => Err(Error::Decode),
    }
}

/// Tolerant unsigned 64-bit coercion: accepts a JSON number or a numeric
/// string; negative or non-integral values are a decode failure.
pub open spec fn spec_coerce_uint64(j: Json) -> Result<u64, Error> {
    match j {
        Json::Str(s) => match spec_parse_u64(s@) {
            Some(v) => Ok(v),
            None => Err(Error::Decode),
        },
        Json::Num(JsonNum::UInt(u)) => Ok(u),
        _ => Err(Error::Decode),
    }
}

/// Coerces a number-or-numeric-string field to an unsigned 64-bit value.
pub fn coerce_uint64(j: &Json) -> (r: Result<u64, Error>)
    ensures
        r == spec_coerce_uint64(*j),
{
    match j {
        Json::Str(s) => match parse_u64(s.as_str()) {
            Some(v) => Ok(v),
            None => Err(Error::Decode),
        },
        Json::Num(JsonNum::UInt(u)) => Ok(*u),
        _ => Err(Error::Decode),
    }
}

/// Rendering of a JSON unsigned integer as its decimal numeral; any other
/// shape is a decode failure. Used where upstream sends a numeric timestamp
/// that the canonical model stores as text.
pub open spec fn spec_uint_to_string(j: Json) -> Result<Seq<char>, Error> {
    match j {
        Json::Num(JsonNum::UInt(u)) => Ok(spec_dec_digits(u as nat)),
        _ => Err(Error::Decode),
    }
}

/// Renders a JSON integer field as its decimal numeral.
pub fn uint_to_string(j: &Json) -> (r: Result<String, Error>)
    ensures
        match r {
            Ok(s) => spec_uint_to_string(*j) == Ok::<Seq<char>, Error>(s@),
            Err(e) => spec_uint_to_string(*j) == Err::<Seq<char>, Error>(e),
        },
{
    match j {
        Json::Num(JsonNum::UInt(u)) => Ok(u64_to_dec_string(*u)),
        _ => Err(Error::Decode),
    }
}

// Null-tolerant variants: `null` becomes the target type's zero value, any
// other value must decode strictly.

/// `null` reads as `0`; any other value must be a strict 32-bit integer.
pub open spec fn spec_coerce_or_default_i32(j: Json) -> Result<i32, Error> {
    if j is Null {
        Ok(0i32)
    } else {
        spec_decode_i32(j)
    }
}

/// Null-tolerant 32-bit integer field reading.
pub fn coerce_or_default_i32(j: &Json) -> (r: Result<i32, Error>)
    ensures
        r == spec_coerce_or_default_i32(*j),
{
    match j {
        Json::Null => Ok(0i32),
        _ => decode_i32(j),
    }
}

/// `null` reads as the empty string; any other value must be a string.
pub open spec fn spec_coerce_or_default_string(j: Json) -> Result<Seq<char>, Error> {
    if j is Null {
        Ok(Seq::empty())
    } else {
        spec_decode_string(j)
    }
}

/// Null-tolerant string field reading.
pub fn coerce_or_default_string(j: &Json) -> (r: Result<String, Error>)
    ensures
        match r {
            Ok(s) => spec_coerce_or_default_string(*j) == Ok::<Seq<char>, Error>(s@),
            Err(e) => spec_coerce_or_default_string(*j) == Err::<Seq<char>, Error>(e),
        },
{
    match j {
        Json::Null => Ok(String::new()),
        _ => decode_string(j),
    }
}

/// `null` reads as the empty sequence; any other value must be an array of
/// strings.
pub open spec fn spec_coerce_or_default_string_list(j: Json) -> Result<Seq<Seq<char>>, Error> {
    if j is Null {
        Ok(Seq::empty())
    } else {
        spec_decode_string_list(j)
    }
}

/// Null-tolerant string-array field reading.
pub fn coerce_or_default_string_list(j: &Json) -> (r: Result<Vec<String>, Error>)
    ensures
        match r {
            Ok(v) => spec_coerce_or_default_string_list(*j) == Ok::<Seq<Seq<char>>, Error>(
                v.deep_view(),
            ),
            Err(e) => spec_coerce_or_default_string_list(*j) == Err::<Seq<Seq<char>>, Error>(e),
        },
{
    match j {
        Json::Null => {
            let out: Vec<String> = Vec::new();
            proof {
                assert(out.deep_view() =~= Seq::<Seq<char>>::empty());
            }
            Ok(out)
        },
        _ => decode_string_list(j),
    }
}

// Laws.

/// The JSON number carrying the integer `n`, the way a decoded document
/// holds it.
pub open spec fn spec_json_int(n: int) -> JsonNum {
    if n >= 0 {
        JsonNum::UInt(n as u64)
    } else {
        JsonNum::NegInt(n as i64)
    }
}

/// Decimal numeral of a possibly negative integer.
pub open spec fn spec_dec_str_int(n: int) -> Seq<char> {
    if n >= 0 {
        spec_dec_digits(n as nat)
    } else {
        seq!['-'] + spec_dec_digits((-n) as nat)
    }
}

/// Law: for every integer in the signed 32-bit range, `coerce_int32` returns
/// the same value whether it is given the JSON number or the equivalent
/// decimal string.
pub proof fn lemma_coerce_int32_number_string_agree(n: int, s: String)
    requires
        i32::MIN <= n <= i32::MAX,
        s@ == spec_dec_str_int(n),
    ensures
        spec_coerce_int32(Json::Num(spec_json_int(n))) == Ok::<i32, Error>(n as i32),
        spec_coerce_int32(Json::Str(s)) == Ok::<i32, Error>(n as i32),
{
    if n >= 0 {
        lemma_dec_digits_val(n as nat);
        assert(s@[0] != '-' && s@[0] != '+');
    } else {
        lemma_dec_digits_val((-n) as nat);
        let body = spec_dec_digits((-n) as nat);
        assert(s@[0] == '-');
        assert(s@.skip(1) =~= body);
    }
}

/// Law: for every value in the unsigned 64-bit range, `coerce_uint64`
/// returns the same value whether it is given the JSON number or the
/// equivalent decimal string.
pub proof fn lemma_coerce_uint64_number_string_agree(n: int, s: String)
    requires
        0 <= n <= u64::MAX,
        s@ == spec_dec_digits(n as nat),
    ensures
        spec_coerce_uint64(Json::Num(JsonNum::UInt(n as u64))) == Ok::<u64, Error>(n as u64),
        spec_coerce_uint64(Json::Str(s)) == Ok::<u64, Error>(n as u64),
{
    lemma_dec_digits_val(n as nat);
    assert(s@[0] != '+');
}

/// Law: an integer number outside the signed 32-bit range coerces to `0`,
/// not to an error.
pub proof fn lemma_coerce_int32_clamps_out_of_range(n: JsonNum)
    requires
        match n {
            JsonNum::UInt(u) => u > i32::MAX as u64,
            JsonNum::NegInt(i) => i < i32::MIN as i64,
            JsonNum::Float(_) => false,
        },
    ensures
        spec_coerce_int32(Json::Num(n)) == Ok::<i32, Error>(0i32),
{
}

/// Law: JSON `null` coerces to the zero value of every supported target
/// type, and never fails.
pub proof fn lemma_coerce_or_default_null()
    ensures
        spec_coerce_or_default_i32(Json::Null) == Ok::<i32, Error>(0i32),
        spec_coerce_or_default_string(Json::Null) == Ok::<Seq<char>, Error>(Seq::empty()),
        spec_coerce_or_default_string_list(Json::Null) == Ok::<Seq<Seq<char>>, Error>(
            Seq::empty(),
        ),
{
}

}

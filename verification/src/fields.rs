use vstd::prelude::*;

use crate::coerce::spec_coerce_int32;
use crate::coerce::spec_coerce_uint64;
use crate::coerce::spec_decode_i32;
use crate::coerce::spec_decode_string;
use crate::coerce::spec_decode_string_list;
use crate::coerce::spec_decode_u64;
use crate::coerce::spec_uint_to_string;
use crate::coerce::coerce_int32;
use crate::coerce::coerce_uint64;
use crate::coerce::decode_i32;
use crate::coerce::decode_string;
use crate::coerce::decode_string_list;
use crate::coerce::decode_u64;
use crate::coerce::uint_to_string;
use crate::error::Error;
use crate::json::Json;
use crate::model::Flavor;
use crate::model::spec_flavor_from_tag;
use crate::model::flavor_from_tag;

verus! {

// Readings of one named member of a JSON object. A missing member is a
// decode failure (the upstream schemas declare every field the adapters
// read, so absence means the response does not match the schema); how an
// ill-typed or null member fares depends on the reading.
//
// The `*_or_default` readings implement the adapters' tolerance contract:
// `null` stands for the target type's zero value. They guard every field an
// adapter reads through the coercion utilities; fields the schema types
// strictly use the strict readings.

/// Strict string member.
pub open spec fn spec_field_string(j: Json, key: Seq<char>) -> Result<Seq<char>, Error> {
    match j.spec_field(key) {
        Some(v) => spec_decode_string(v),
        None => Err(Error::Decode),
    }
}

/// Reads a string member of `j`.
pub fn field_string(j: &Json, key: &str) -> (r: Result<String, Error>)
    ensures
        match r {
            Ok(s) => spec_field_string(*j, key@) == Ok::<Seq<char>, Error>(s@),
            Err(e) => spec_field_string(*j, key@) == Err::<Seq<char>, Error>(e),
        },
{
    match j.field(key) {
        Some(v) => decode_string(v),
        None => Err(Error::Decode),
    }
}

/// Strict signed 32-bit member.
pub open spec fn spec_field_i32(j: Json, key: Seq<char>) -> Result<i32, Error> {
    match j.spec_field(key) {
        Some(v) => spec_decode_i32(v),
        None => Err(Error::Decode),
    }
}

/// Reads a signed 32-bit integer member of `j`.
pub fn field_i32(j: &Json, key: &str) -> (r: Result<i32, Error>)
    ensures
        r == spec_field_i32(*j, key@),
{
    match j.field(key) {
        Some(v) => decode_i32(v),
        None => Err(Error::Decode),
    }
}

/// Strict unsigned 64-bit member.
pub open spec fn spec_field_u64(j: Json, key: Seq<char>) -> Result<u64, Error> {
    match j.spec_field(key) {
        Some(v) => spec_decode_u64(v),
        None => Err(Error::Decode),
    }
}

/// Reads an unsigned 64-bit integer member of `j`.
pub fn field_u64(j: &Json, key: &str) -> (r: Result<u64, Error>)
    ensures
        r == spec_field_u64(*j, key@),
{
    match j.field(key) {
        Some(v) => decode_u64(v),
        None => Err(Error::Decode),
    }
}

/// Numeric member read as an unsigned count: integers clamp below at zero,
/// a non-integral number contributes its rounded value; a non-number is a
/// decode failure.
pub open spec fn spec_field_rounded_u64(j: Json, key: Seq<char>) -> Result<u64, Error> {
    match j.spec_field(key) {
        Some(Json::Num(n)) => Ok(n.spec_rounded_u64()),
        _ => Err(Error::Decode),
    }
}

/// Reads a numeric member of `j` as an unsigned count.
pub fn field_rounded_u64(j: &Json, key: &str) -> (r: Result<u64, Error>)
    ensures
        r == spec_field_rounded_u64(*j, key@),
{
    match j.field(key) {
        Some(Json::Num(n)) => Ok(n.rounded_u64()),
        _ => Err(Error::Decode),
    }
}

/// Strict array-of-strings member.
pub open spec fn spec_field_string_list(j: Json, key: Seq<char>) -> Result<Seq<Seq<char>>, Error> {
    match j.spec_field(key) {
        Some(v) => spec_decode_string_list(v),
        None => Err(Error::Decode),
    }
}

/// Reads an array-of-strings member of `j`.
pub fn field_string_list(j: &Json, key: &str) -> (r: Result<Vec<String>, Error>)
    ensures
        match r {
            Ok(v) => spec_field_string_list(*j, key@) == Ok::<Seq<Seq<char>>, Error>(v.deep_view()),
            Err(e) => spec_field_string_list(*j, key@) == Err::<Seq<Seq<char>>, Error>(e),
        },
{
    match j.field(key) {
        Some(v) => decode_string_list(v),
        None => Err(Error::Decode),
    }
}

/// Flavor member: a string bearing one of the accepted flavor spellings.
pub open spec fn spec_field_flavor(j: Json, key: Seq<char>) -> Result<Flavor, Error> {
    match j.spec_field(key) {
        Some(Json::Str(s)) => match spec_flavor_from_tag(s@) {
            Some(f) => Ok(f),
            None => Err(Error::Decode),
        },
        _ => Err(Error::Decode),
    }
}

/// Reads a flavor member of `j` by its tag spelling.
pub fn field_flavor(j: &Json, key: &str) -> (r: Result<Flavor, Error>)
    ensures
        r == spec_field_flavor(*j, key@),
{
    match j.field(key) {
        Some(Json::Str(s)) => match flavor_from_tag(s.as_str()) {
            Some(f) => Ok(f),
            None => Err(Error::Decode),
        },
        _ => Err(Error::Decode),
    }
}

/// Null-tolerant signed 32-bit member: `null` reads as `0`.
pub open spec fn spec_field_i32_or_default(j: Json, key: Seq<char>) -> Result<i32, Error> {
    match j.spec_field(key) {
        Some(Json::Null) => Ok(0i32),
        Some(v) => spec_decode_i32(v),
        None => Err(Error::Decode),
    }
}

/// Reads a signed 32-bit integer member, with `null` standing for `0`.
pub fn field_i32_or_default(j: &Json, key: &str) -> (r: Result<i32, Error>)
    ensures
        r == spec_field_i32_or_default(*j, key@),
{
    match j.field(key) {
        Some(Json::Null) => Ok(0i32),
        Some(v) => decode_i32(v),
        None => Err(Error::Decode),
    }
}

/// Null-tolerant string member: `null` reads as the empty string.
pub open spec fn spec_field_string_or_default(j: Json, key: Seq<char>) -> Result<Seq<char>, Error> {
    match j.spec_field(key) {
        Some(Json::Null) => Ok(Seq::empty()),
        Some(v) => spec_decode_string(v),
        None => Err(Error::Decode),
    }
}

/// Reads a string member, with `null` standing for the empty string.
pub fn field_string_or_default(j: &Json, key: &str) -> (r: Result<String, Error>)
    ensures
        match r {
            Ok(s) => spec_field_string_or_default(*j, key@) == Ok::<Seq<char>, Error>(s@),
            Err(e) => spec_field_string_or_default(*j, key@) == Err::<Seq<char>, Error>(e),
        },
{
    match j.field(key) {
        Some(Json::Null) => Ok(String::new()),
        Some(v) => decode_string(v),
        None => Err(Error::Decode),
    }
}

/// Null-tolerant string-array member: `null` reads as the empty sequence.
pub open spec fn spec_field_string_list_or_default(j: Json, key: Seq<char>) -> Result<
    Seq<Seq<char>>,
    Error,
> {
    match j.spec_field(key) {
        Some(Json::Null) => Ok(Seq::empty()),
        Some(v) => spec_decode_string_list(v),
        None => Err(Error::Decode),
    }
}

/// Reads an array-of-strings member, with `null` standing for no entries.
pub fn field_string_list_or_default(j: &Json, key: &str) -> (r: Result<Vec<String>, Error>)
    ensures
        match r {
            Ok(v) => spec_field_string_list_or_default(*j, key@) == Ok::<Seq<Seq<char>>, Error>(
                v.deep_view(),
            ),
            Err(e) => spec_field_string_list_or_default(*j, key@) == Err::<Seq<Seq<char>>, Error>(
                e,
            ),
        },
{
    match j.field(key) {
        Some(Json::Null) => {
            let out: Vec<String> = Vec::new();
            proof {
                assert(out.deep_view() =~= Seq::<Seq<char>>::empty());
            }
            Ok(out)
        },
        Some(v) => decode_string_list(v),
        None => Err(Error::Decode),
    }
}

/// Null-tolerant number-or-numeric-string member read as a signed 32-bit
/// value: `null` reads as `0`, everything else goes through `coerce_int32`.
pub open spec fn spec_field_coerce_int32_or_default(j: Json, key: Seq<char>) -> Result<i32, Error> {
    match j.spec_field(key) {
        Some(Json::Null) => Ok(0i32),
        Some(v) => spec_coerce_int32(v),
        None => Err(Error::Decode),
    }
}

/// Reads a loosely typed 32-bit integer member through `coerce_int32`, with
/// `null` standing for `0`.
pub fn field_coerce_int32_or_default(j: &Json, key: &str) -> (r: Result<i32, Error>)
    ensures
        r == spec_field_coerce_int32_or_default(*j, key@),
{
    match j.field(key) {
        Some(Json::Null) => Ok(0i32),
        Some(v) => coerce_int32(v),
        None => Err(Error::Decode),
    }
}

/// Null-tolerant number-or-numeric-string member read as an unsigned 64-bit
/// value: `null` reads as `0`, everything else goes through `coerce_uint64`.
pub open spec fn spec_field_coerce_uint64_or_default(j: Json, key: Seq<char>) -> Result<u64, Error> {
    match j.spec_field(key) {
        Some(Json::Null) => Ok(0u64),
        Some(v) => spec_coerce_uint64(v),
        None => Err(Error::Decode),
    }
}

/// Reads a loosely typed unsigned member through `coerce_uint64`, with
/// `null` standing for `0`.
pub fn field_coerce_uint64_or_default(j: &Json, key: &str) -> (r: Result<u64, Error>)
    ensures
        r == spec_field_coerce_uint64_or_default(*j, key@),
{
    match j.field(key) {
        Some(Json::Null) => Ok(0u64),
        Some(v) => coerce_uint64(v),
        None => Err(Error::Decode),
    }
}

/// Null-tolerant numeric timestamp member rendered as text: `null` reads as
/// the empty string, everything else goes through `uint_to_string`.
pub open spec fn spec_field_uint_string_or_default(j: Json, key: Seq<char>) -> Result<
    Seq<char>,
    Error,
> {
    match j.spec_field(key) {
        Some(Json::Null) => Ok(Seq::empty()),
        Some(v) => spec_uint_to_string(v),
        None => Err(Error::Decode),
    }
}

/// Reads a numeric timestamp member as its decimal numeral, with `null`
/// standing for the empty string.
pub fn field_uint_string_or_default(j: &Json, key: &str) -> (r: Result<String, Error>)
    ensures
        match r {
            Ok(s) => spec_field_uint_string_or_default(*j, key@) == Ok::<Seq<char>, Error>(s@),
            Err(e) => spec_field_uint_string_or_default(*j, key@) == Err::<Seq<char>, Error>(e),
        },
{
    match j.field(key) {
        Some(Json::Null) => Ok(String::new()),
        Some(v) => uint_to_string(v),
        None => Err(Error::Decode),
    }
}

}

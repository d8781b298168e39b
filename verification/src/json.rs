use vstd::prelude::*;

use crate::text::str_eq;

verus! {

/// A JSON number as the response decoder reports it.
///
/// The library never computes with floating point, so a non-integral number
/// carries only the one reading the mapping rules take from it: its value
/// rounded to the nearest integer and clamped to the unsigned 64-bit range,
/// computed by whoever decoded the response body.
#[derive(Clone, Copy, Debug, PartialEq, Eq, Structural)]
pub enum JsonNum {
    /// A non-negative integer.
    UInt(u64),
    /// A negative integer.
    NegInt(i64),
    /// A non-integral number, carried as its rounded and clamped value.
    Float(u64),
}

impl JsonNum {
    /// The number read as an unsigned count, the way the download totals are
    /// read: integers clamp below at zero, a non-integral number contributes
    /// its rounded value.
    pub open spec fn spec_rounded_u64(self) -> u64 {
        match self {
            JsonNum::UInt(u) => u,
            JsonNum::NegInt(_) => 0u64,
            JsonNum::Float(r) => r,
        }
    }

    /// Reads the number as an unsigned count, clamping negatives to zero.
    pub fn rounded_u64(self) -> (r: u64)
        ensures
            r == self.spec_rounded_u64(),
    {
        match self {
            JsonNum::UInt(u) => u,
            JsonNum::NegInt(_) => 0u64,
            JsonNum::Float(r) => r,
        }
    }
}

/// An untyped JSON value, handed to the library by the response decoder.
///
/// Object members keep the order the document gave them; lookups take the
/// first binding of a key.
#[derive(Debug, PartialEq)]
pub enum Json {
    Null,
    Bool(bool),
    Num(JsonNum),
    Str(String),
    Arr(Vec<Json>),
    Obj(Vec<(String, Json)>),
}

/// First binding of `key` among `members`, or `None` when the key is absent.
pub open spec fn spec_obj_get(members: Seq<(String, Json)>, key: Seq<char>) -> Option<Json>
    decreases members.len(),
{
    if members.len() == 0 {
        None
    } else if members[0].0@ == key {
        Some(members[0].1)
    } else {
        spec_obj_get(members.skip(1), key)
    }
}

/// A lookup lands on position `i` when `i` is the first binding of the key.
pub proof fn lemma_obj_get_at(members: Seq<(String, Json)>, key: Seq<char>, i: int)
    requires
        0 <= i < members.len(),
        members[i].0@ == key,
        forall|k: int| 0 <= k < i ==> (#[trigger] members[k]).0@ != key,
    ensures
        spec_obj_get(members, key) == Some(members[i].1),
    decreases i,
{
    if i > 0 {
        assert(members.skip(1)[i - 1] == members[i]);
        assert(forall|k: int| 0 <= k < i - 1 ==> (#[trigger] members.skip(1)[k]).0@ != key);
        lemma_obj_get_at(members.skip(1), key, i - 1);
    }
}

/// Looks `key` up among the members of a JSON object, first binding wins.
pub fn obj_get<'a>(members: &'a Vec<(String, Json)>, key: &str) -> (r: Option<&'a Json>)
    ensures
        match r {
            Some(v) => spec_obj_get(members@, key@) == Some(*v),
            None => spec_obj_get(members@, key@) is None,
        },
{
    proof {
        assert(members@.skip(0) =~= members@);
    }
    let mut i: usize = 0;
    while i < members.len()
        invariant
            0 <= i <= members@.len(),
            spec_obj_get(members@.skip(i as int), key@) == spec_obj_get(members@, key@),
        decreases members@.len() - i,
    {
        proof {
            assert(members@.skip(i as int)[0] == members@[i as int]);
            assert(members@.skip(i as int).skip(1) =~= members@.skip(i as int + 1));
        }
        let pair = &members[i];
        if str_eq(pair.0.as_str(), key) {
            return Some(&pair.1);
        }
        i = i + 1;
    }
    proof {
        assert(members@.skip(i as int) =~= Seq::<(String, Json)>::empty());
    }
    None
}

impl Json {
    /// First binding of `key` when the value is an object with such a
    /// member.
    pub open spec fn spec_field(self, key: Seq<char>) -> Option<Json> {
        match self {
            Json::Obj(m) => spec_obj_get(m@, key),
            _ => None,
        }
    }

    /// Looks a field up on an object value; `None` on any other shape.
    pub fn field<'a>(&'a self, key: &str) -> (r: Option<&'a Json>)
        ensures
            match r {
                Some(v) => self.spec_field(key@) == Some(*v),
                None => self.spec_field(key@) is None,
            },
    {
        match self {
            Json::Obj(m) => obj_get(m, key),
            _ => None,
        }
    }
}

}

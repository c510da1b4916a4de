//! The service's reply modeled as a plain, dynamically shaped tree of JSON
//! values, with member lookup along fixed paths.

use vstd::prelude::*;

verus! {

/// A JSON-like value. Numbers that fit a signed 64-bit integer keep their
/// value; any other number (too large, or fractional) is carried as
/// `OtherNumber`, since the interpretation below only ever asks whether a
/// number equals the integer one.
#[derive(Debug, PartialEq, Eq)]
pub enum Json {
    Null,
    Bool(bool),
    Int(i64),
    OtherNumber,
    Str(String),
    Array(Vec<Json>),
    Object(Vec<(String, Json)>),
}

/// The value of the first pair of `pairs` at or after `i` whose key reads
/// `key`.
pub open spec fn lookup_from(pairs: Seq<(String, Json)>, key: Seq<char>, i: int) -> Option<Json>
    decreases pairs.len() - i,
{
    if i < 0 || i >= pairs.len() {
        None
    } else if pairs[i].0@ == key {
        Some(pairs[i].1)
    } else {
        lookup_from(pairs, key, i + 1)
    }
}

/// The value of the first pair of `pairs` whose key reads `key`.
pub open spec fn obj_lookup(pairs: Seq<(String, Json)>, key: Seq<char>) -> Option<Json> {
    lookup_from(pairs, key, 0)
}

/// The member `key` of `value`: `None` when `value` is not an object or has
/// no such member.
pub open spec fn get_member(value: Json, key: Seq<char>) -> Option<Json> {
    match value {
        Json::Object(pairs) => obj_lookup(pairs@, key),
        _ => None,
    }
}

/// The member at the two-step path `k1.k2` of `value`.
pub open spec fn get_member2(value: Json, k1: Seq<char>, k2: Seq<char>) -> Option<Json> {
    match get_member(value, k1) {
        Some(v) => get_member(v, k2),
        None => None,
    }
}

/// The member at the three-step path `k1.k2.k3` of `value`.
pub open spec fn get_member3(value: Json, k1: Seq<char>, k2: Seq<char>, k3: Seq<char>) -> Option<
    Json,
> {
    match get_member2(value, k1, k2) {
        Some(v) => get_member(v, k3),
        None => None,
    }
}

/// The referenced values of `member`.
pub open spec fn deref_opt(member: Option<&Json>) -> Option<Json> {
    match member {
        Some(v) => Some(*v),
        None => None,
    }
}

impl Json {
    /// The member `key` of this value, when this value is an object holding
    /// one.
    pub fn get<'a>(&'a self, key: &str) -> (r: Option<&'a Json>)
        ensures
            deref_opt(r) == get_member(*self, key@),
    {
        match self {
            Json::Object(pairs) => {
                let key_string = key.to_owned();
                let n = pairs.len();
                let mut i: usize = 0;
                while i < n
                    invariant
                        *self == Json::Object(*pairs),
                        n == pairs@.len(),
                        i <= n,
                        key_string@ == key@,
                        lookup_from(pairs@, key@, 0) == lookup_from(pairs@, key@, i as int),
                    decreases n - i,
                {
                    let pair = &pairs[i];
                    if pair.0 == key_string {
                        return Some(&pair.1);
                    }
                    i += 1;
                }
                None
            },
            _ => None,
        }
    }

    /// The member at the two-step path `k1.k2` of this value.
    pub fn get2<'a>(&'a self, k1: &str, k2: &str) -> (r: Option<&'a Json>)
        ensures
            deref_opt(r) == get_member2(*self, k1@, k2@),
    {
        match self.get(k1) {
            Some(v) => v.get(k2),
            None => None,
        }
    }

    /// The member at the three-step path `k1.k2.k3` of this value.
    pub fn get3<'a>(&'a self, k1: &str, k2: &str, k3: &str) -> (r: Option<&'a Json>)
        ensures
            deref_opt(r) == get_member3(*self, k1@, k2@, k3@),
    {
        match self.get2(k1, k2) {
            Some(v) => v.get(k3),
            None => None,
        }
    }
}

/// The characters of `member` when it holds a string; the empty sequence when
/// it is missing or not a string. This is the defaulting rule of the record
/// fields.
pub open spec fn string_or_empty(member: Option<Json>) -> Seq<char> {
    match member {
        Some(Json::Str(s)) => s@,
        _ => Seq::empty(),
    }
}

/// True exactly when `member` holds the integer one. This is the rule for the
/// visibility flags: any other value, a missing member included, reads false.
pub open spec fn is_int_one(member: Option<Json>) -> bool {
    member == Some(Json::Int(1))
}

/// The string held by `member`, or the empty string when it is missing or not
/// a string.
pub fn string_field(member: Option<&Json>) -> (r: String)
    ensures
        r@ == string_or_empty(deref_opt(member)),
{
    match member {
        Some(Json::Str(s)) => s.clone(),
        _ => String::new(),
    }
}

/// Whether `member` holds the integer one.
pub fn int_one_field(member: Option<&Json>) -> (r: bool)
    ensures
        r == is_int_one(deref_opt(member)),
{
    match member {
        Some(Json::Int(i)) => *i == 1,
        _ => false,
    }
}

} // verus!

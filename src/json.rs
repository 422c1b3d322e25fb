//! A JSON value tree as the feed delivers it, with the lookups that decoding needs.

use vstd::prelude::*;
use vstd::string::*;

verus! {

/// A JSON number. A number that is not an integer is kept as the IEEE-754 bits
/// of its 64-bit floating-point value.
#[derive(Clone, Copy, Debug, PartialEq, Eq, Structural)]
pub enum Number {
    PosInt(u64),
    NegInt(i64),
    Float(u64),
}

/// A JSON value. The members of an object keep their order and have distinct keys.
#[derive(Debug)]
pub enum Json {
    Null,
    Bool(bool),
    Number(Number),
    Str(String),
    Array(Vec<Json>),
    Object(Vec<(String, Json)>),
}

/// The value of the first member named `key` at index `i` or later.
pub open spec fn lookup_from(m: Seq<(String, Json)>, key: Seq<char>, i: int) -> Option<Json>
    decreases m.len() - i,
{
    if i < 0 || i >= m.len() {
        None
    } else if m[i].0@ == key {
        Some(m[i].1)
    } else {
        lookup_from(m, key, i + 1)
    }
}

/// The value of the member named `key`.
pub open spec fn lookup(m: Seq<(String, Json)>, key: Seq<char>) -> Option<Json> {
    lookup_from(m, key, 0)
}

/// The members of an object; nothing for any other value.
pub open spec fn members_of(j: Json) -> Seq<(String, Json)> {
    match j {
        Json::Object(m) => m@,
        _ => Seq::empty(),
    }
}

pub open spec fn as_text(j: Json) -> Option<Seq<char>> {
    match j {
        Json::Str(s) => Some(s@),
        _ => None,
    }
}

pub open spec fn as_number(j: Json) -> Option<Number> {
    match j {
        Json::Number(n) => Some(n),
        _ => None,
    }
}

/// An integer that fits in `i64`.
pub open spec fn as_i64(j: Json) -> Option<i64> {
    match j {
        Json::Number(Number::PosInt(u)) => if u <= i64::MAX as u64 {
            Some(u as i64)
        } else {
            None
        },
        Json::Number(Number::NegInt(i)) => Some(i),
        _ => None,
    }
}

/// A non-negative integer that fits in `u64`.
pub open spec fn as_u64(j: Json) -> Option<u64> {
    match j {
        Json::Number(Number::PosInt(u)) => Some(u),
        _ => None,
    }
}

/// An integer that fits in `i32`.
pub open spec fn as_i32(j: Json) -> Option<i32> {
    match as_i64(j) {
        Some(i) => if i32::MIN <= i <= i32::MAX {
            Some(i as i32)
        } else {
            None
        },
        None => None,
    }
}

/// An array whose elements are all integers that fit in `i32`.
pub open spec fn as_i32_list(j: Json) -> Option<Seq<i32>> {
    match j {
        Json::Array(items) => if forall|i: int| 0 <= i < items@.len() ==> (#[trigger] as_i32(items@[i])) is Some {
            Some(items@.map_values(|x: Json| as_i32(x)->Some_0))
        } else {
            None
        },
        _ => None,
    }
}

pub open spec fn text_field(m: Seq<(String, Json)>, key: Seq<char>) -> Option<Seq<char>> {
    match lookup(m, key) {
        Some(j) => as_text(j),
        None => None,
    }
}

pub open spec fn number_field(m: Seq<(String, Json)>, key: Seq<char>) -> Option<Number> {
    match lookup(m, key) {
        Some(j) => as_number(j),
        None => None,
    }
}

pub open spec fn i64_field(m: Seq<(String, Json)>, key: Seq<char>) -> Option<i64> {
    match lookup(m, key) {
        Some(j) => as_i64(j),
        None => None,
    }
}

pub open spec fn u64_field(m: Seq<(String, Json)>, key: Seq<char>) -> Option<u64> {
    match lookup(m, key) {
        Some(j) => as_u64(j),
        None => None,
    }
}

pub open spec fn i32_list_field(m: Seq<(String, Json)>, key: Seq<char>) -> Option<Seq<i32>> {
    match lookup(m, key) {
        Some(j) => as_i32_list(j),
        None => None,
    }
}

/// An optional member: absent and `null` both give `Some(None)`; a value of
/// another kind than an `i64` gives `None`.
pub open spec fn optional_i64_field(m: Seq<(String, Json)>, key: Seq<char>) -> Option<Option<i64>> {
    match lookup(m, key) {
        None => Some(None),
        Some(Json::Null) => Some(None),
        Some(j) => match as_i64(j) {
            Some(i) => Some(Some(i)),
            None => None,
        },
    }
}

/// Like `optional_i64_field`, for a `u64`.
pub open spec fn optional_u64_field(m: Seq<(String, Json)>, key: Seq<char>) -> Option<Option<u64>> {
    match lookup(m, key) {
        None => Some(None),
        Some(Json::Null) => Some(None),
        Some(j) => match as_u64(j) {
            Some(u) => Some(Some(u)),
            None => None,
        },
    }
}

/// Whether two strings hold the same characters.
pub fn text_eq(a: &str, b: &str) -> (r: bool)
    ensures
        r == (a@ == b@),
{
    let n = a.unicode_len();
    if n != b.unicode_len() {
        return false;
    }
    let mut i: usize = 0;
    while i < n
        invariant
            n == a@.len(),
            n == b@.len(),
            i <= n,
            a@.subrange(0, i as int) == b@.subrange(0, i as int),
        decreases n - i,
    {
        if a.get_char(i) != b.get_char(i) {
            return false;
        }
        assert(a@.subrange(0, i + 1) == a@.subrange(0, i as int).push(a@[i as int]));
        assert(b@.subrange(0, i + 1) == b@.subrange(0, i as int).push(b@[i as int]));
        i = i + 1;
    }
    assert(a@ == a@.subrange(0, n as int));
    assert(b@ == b@.subrange(0, n as int));
    true
}

/// The index of the first member named `key`.
pub fn find_member(m: &Vec<(String, Json)>, key: &str) -> (r: Option<usize>)
    ensures
        match r {
            Some(i) => i < m@.len() && lookup(m@, key@) == Some(m@[i as int].1),
            None => lookup(m@, key@) is None,
        },
{
    let mut i: usize = 0;
    while i < m.len()
        invariant
            i <= m@.len(),
            lookup(m@, key@) == lookup_from(m@, key@, i as int),
        decreases m@.len() - i,
    {
        if text_eq(m[i].0.as_str(), key) {
            return Some(i);
        }
        i = i + 1;
    }
    None
}

pub fn text_field_of(m: &Vec<(String, Json)>, key: &str) -> (r: Option<String>)
    ensures
        match r {
            Some(s) => text_field(m@, key@) == Some(s@),
            None => text_field(m@, key@) is None,
        },
{
    match find_member(m, key) {
        Some(i) => match &m[i].1 {
            Json::Str(s) => Some(s.clone()),
            _ => None,
        },
        None => None,
    }
}

pub fn number_field_of(m: &Vec<(String, Json)>, key: &str) -> (r: Option<Number>)
    ensures
        r == number_field(m@, key@),
{
    match find_member(m, key) {
        Some(i) => match &m[i].1 {
            Json::Number(n) => Some(*n),
            _ => None,
        },
        None => None,
    }
}

pub fn json_i64(j: &Json) -> (r: Option<i64>)
    ensures
        r == as_i64(*j),
{
    match j {
        Json::Number(Number::PosInt(u)) => if *u <= i64::MAX as u64 {
            Some(*u as i64)
        } else {
            None
        },
        Json::Number(Number::NegInt(i)) => Some(*i),
        _ => None,
    }
}

pub fn json_u64(j: &Json) -> (r: Option<u64>)
    ensures
        r == as_u64(*j),
{
    match j {
        Json::Number(Number::PosInt(u)) => Some(*u),
        _ => None,
    }
}

pub fn i64_field_of(m: &Vec<(String, Json)>, key: &str) -> (r: Option<i64>)
    ensures
        r == i64_field(m@, key@),
{
    match find_member(m, key) {
        Some(i) => json_i64(&m[i].1),
        None => None,
    }
}

pub fn u64_field_of(m: &Vec<(String, Json)>, key: &str) -> (r: Option<u64>)
    ensures
        r == u64_field(m@, key@),
{
    match find_member(m, key) {
        Some(i) => json_u64(&m[i].1),
        None => None,
    }
}

pub fn optional_i64_field_of(m: &Vec<(String, Json)>, key: &str) -> (r: Option<Option<i64>>)
    ensures
        r == optional_i64_field(m@, key@),
{
    match find_member(m, key) {
        None => Some(None),
        Some(i) => match &m[i].1 {
            Json::Null => Some(None),
            j => match json_i64(j) {
                Some(v) => Some(Some(v)),
                None => None,
            },
        },
    }
}

pub fn optional_u64_field_of(m: &Vec<(String, Json)>, key: &str) -> (r: Option<Option<u64>>)
    ensures
        r == optional_u64_field(m@, key@),
{
    match find_member(m, key) {
        None => Some(None),
        Some(i) => match &m[i].1 {
            Json::Null => Some(None),
            j => match json_u64(j) {
                Some(v) => Some(Some(v)),
                None => None,
            },
        },
    }
}

pub fn i32_list_field_of(m: &Vec<(String, Json)>, key: &str) -> (r: Option<Vec<i32>>)
    ensures
        match r {
            Some(v) => i32_list_field(m@, key@) == Some(v@),
            None => i32_list_field(m@, key@) is None,
        },
{
    let i = match find_member(m, key) {
        Some(i) => i,
        None => return None,
    };
    let items = match &m[i].1 {
        Json::Array(items) => items,
        _ => return None,
    };
    assert(lookup(m@, key@) == Some(Json::Array(*items)));
    let mut out: Vec<i32> = Vec::new();
    let mut k: usize = 0;
    while k < items.len()
        invariant
            k <= items@.len(),
            lookup(m@, key@) == Some(Json::Array(*items)),
            out@.len() == k,
            forall|x: int| 0 <= x < k ==> (#[trigger] as_i32(items@[x])) == Some(out@[x]),
        decreases items@.len() - k,
    {
        match json_i64(&items[k]) {
            Some(v) => {
                if v < i32::MIN as i64 || v > i32::MAX as i64 {
                    assert(as_i32(items@[k as int]) is None);
                    return None;
                }
                out.push(v as i32);
            },
            None => {
                assert(as_i32(items@[k as int]) is None);
                return None;
            },
        }
        k = k + 1;
    }
    assert(out@ == items@.map_values(|x: Json| as_i32(x)->Some_0));
    Some(out)
}

} // verus!

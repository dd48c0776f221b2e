//! The JSON documents the catalog API answers with, and the helpers the
//! record decoders read them through.
//!
//! A document is held as a plain tree. Numbers are carried losslessly:
//! unsigned and signed integers as themselves, and any other number by the
//! bit pattern of its binary64 (IEEE 754) value, so the library itself
//! computes only with integers.

use vstd::prelude::*;

verus! {

/// A JSON number. `U` and `I` carry integer literals; `Bits` carries the
/// binary64 bit pattern of a number that is not an integer (or does not fit
/// one), so no wire value is lost.
#[derive(Clone, Copy, PartialEq, Eq, Structural, Debug)]
pub enum Num {
    U(u64),
    I(i64),
    Bits(u64),
}

/// A parsed JSON document. An object keeps its members in document order;
/// a lookup takes the first member whose key matches.
#[derive(Debug)]
pub enum Json {
    Null,
    Bool(bool),
    Num(Num),
    Str(String),
    Arr(Vec<Json>),
    Obj(Vec<(String, Json)>),
}

/// Why a JSON document failed to decode into a record.
#[derive(Debug)]
pub enum DecodeError {
    /// The response body was not JSON at all.
    Syntax,
    /// The document (or a sub-document) was not the expected JSON object.
    NotAnObject,
    /// The document was not the expected JSON array.
    NotAnArray,
    /// A required member was absent; carries the wire name of the member.
    MissingField(String),
    /// A member had the wrong JSON type or was out of range; carries the
    /// wire name of the member.
    WrongType(String),
}

/// The first member of `m` whose key reads `k`, if any.
pub open spec fn obj_get(m: Seq<(String, Json)>, k: Seq<char>) -> Option<Json>
    decreases m.len(),
{
    if m.len() == 0 {
        None
    } else if m[0].0@ == k {
        Some(m[0].1)
    } else {
        obj_get(m.drop_first(), k)
    }
}

/// A member that `obj_get` finds is one of the sequence's elements.
pub proof fn lemma_obj_get_is_member(m: Seq<(String, Json)>, k: Seq<char>)
    requires
        obj_get(m, k) is Some,
    ensures
        exists|i: int| 0 <= i < m.len() && #[trigger] m[i].1 == obj_get(m, k)->0,
    decreases m.len(),
{
    if m[0].0@ == k {
        assert(m[0].1 == obj_get(m, k)->0);
    } else {
        lemma_obj_get_is_member(m.drop_first(), k);
        let i = choose|i: int|
            0 <= i < m.drop_first().len() && #[trigger] m.drop_first()[i].1 == obj_get(
                m.drop_first(),
                k,
            )->0;
        assert(m[i + 1].1 == obj_get(m, k)->0);
    }
}

/// A member of an object stands strictly below the object itself, so a
/// decoder may recurse into it.
pub proof fn lemma_obj_member_smaller(j: Json, k: Seq<char>)
    requires
        j is Obj,
        obj_get(j->Obj_0@, k) is Some,
    ensures
        decreases_to!(j => obj_get(j->Obj_0@, k)->0),
{
    lemma_obj_get_is_member(j->Obj_0@, k);
    let i = choose|i: int|
        0 <= i < j->Obj_0@.len() && #[trigger] j->Obj_0@[i].1 == obj_get(j->Obj_0@, k)->0;
    assert(decreases_to!(j => j->Obj_0));
    assert(decreases_to!(j->Obj_0 => j->Obj_0@));
    assert(decreases_to!(j->Obj_0@ => j->Obj_0@[i]));
    assert(decreases_to!(j->Obj_0@[i] => j->Obj_0@[i].1));
}

/// The first member of `m` with key `k`, as the decoders read it.
pub fn obj_get_exec<'a>(m: &'a Vec<(String, Json)>, k: &str) -> (r: Option<&'a Json>)
    ensures
        match r {
            Some(j) => obj_get(m@, k@) == Some(*j),
            None => obj_get(m@, k@) is None,
        },
{
    let key: String = k.to_owned();
    let mut i: usize = 0;
    proof {
        assert(m@.skip(0) =~= m@);
    }
    while i < m.len()
        invariant
            0 <= i <= m@.len(),
            key@ == k@,
            obj_get(m@, k@) == obj_get(m@.skip(i as int), k@),
        decreases m@.len() - i,
    {
        proof {
            assert(m@.skip(i as int)[0] == m@[i as int]);
        }
        if m[i].0 == key {
            return Some(&m[i].1);
        }
        proof {
            assert(m@.skip(i as int).drop_first() =~= m@.skip(i as int + 1));
        }
        i = i + 1;
    }
    None
}

// ---------------------------------------------------------------------------
// Required scalar members.
// ---------------------------------------------------------------------------
/// Member `k` read as a string.
pub open spec fn str_field(m: Seq<(String, Json)>, k: Seq<char>) -> Option<Seq<char>> {
    match obj_get(m, k) {
        Some(Json::Str(s)) => Some(s@),
        _ => None,
    }
}

/// Member `k` read as a number.
pub open spec fn num_field(m: Seq<(String, Json)>, k: Seq<char>) -> Option<Num> {
    match obj_get(m, k) {
        Some(Json::Num(n)) => Some(n),
        _ => None,
    }
}

/// Member `k` read as a boolean.
pub open spec fn bool_field(m: Seq<(String, Json)>, k: Seq<char>) -> Option<bool> {
    match obj_get(m, k) {
        Some(Json::Bool(b)) => Some(b),
        _ => None,
    }
}

/// Member `k` read as an unsigned integer that fits a `u32`.
pub open spec fn u32_field(m: Seq<(String, Json)>, k: Seq<char>) -> Option<u32> {
    match obj_get(m, k) {
        Some(Json::Num(Num::U(n))) => if n <= u32::MAX {
            Some(n as u32)
        } else {
            None
        },
        _ => None,
    }
}

/// Member `k` read as an unsigned integer that fits a `u16`.
pub open spec fn u16_field(m: Seq<(String, Json)>, k: Seq<char>) -> Option<u16> {
    match obj_get(m, k) {
        Some(Json::Num(Num::U(n))) => if n <= u16::MAX {
            Some(n as u16)
        } else {
            None
        },
        _ => None,
    }
}

/// Member `k` read as an array; yields the elements.
pub open spec fn arr_field(m: Seq<(String, Json)>, k: Seq<char>) -> Option<Seq<Json>> {
    match obj_get(m, k) {
        Some(Json::Arr(v)) => Some(v@),
        _ => None,
    }
}

pub fn get_str(m: &Vec<(String, Json)>, k: &str) -> (r: Result<String, DecodeError>)
    ensures
        r is Ok <==> str_field(m@, k@) is Some,
        r matches Ok(s) ==> s@ == str_field(m@, k@)->0,
{
    match obj_get_exec(m, k) {
        None => Err(DecodeError::MissingField(k.to_owned())),
        Some(Json::Str(s)) => Ok(s.clone()),
        Some(_) => Err(DecodeError::WrongType(k.to_owned())),
    }
}

pub fn get_num(m: &Vec<(String, Json)>, k: &str) -> (r: Result<Num, DecodeError>)
    ensures
        r is Ok <==> num_field(m@, k@) is Some,
        r matches Ok(n) ==> n == num_field(m@, k@)->0,
{
    match obj_get_exec(m, k) {
        None => Err(DecodeError::MissingField(k.to_owned())),
        Some(Json::Num(n)) => Ok(*n),
        Some(_) => Err(DecodeError::WrongType(k.to_owned())),
    }
}

pub fn get_bool(m: &Vec<(String, Json)>, k: &str) -> (r: Result<bool, DecodeError>)
    ensures
        r is Ok <==> bool_field(m@, k@) is Some,
        r matches Ok(b) ==> b == bool_field(m@, k@)->0,
{
    match obj_get_exec(m, k) {
        None => Err(DecodeError::MissingField(k.to_owned())),
        Some(Json::Bool(b)) => Ok(*b),
        Some(_) => Err(DecodeError::WrongType(k.to_owned())),
    }
}

pub fn get_u32(m: &Vec<(String, Json)>, k: &str) -> (r: Result<u32, DecodeError>)
    ensures
        r is Ok <==> u32_field(m@, k@) is Some,
        r matches Ok(n) ==> n == u32_field(m@, k@)->0,
{
    match obj_get_exec(m, k) {
        None => Err(DecodeError::MissingField(k.to_owned())),
        Some(Json::Num(Num::U(n))) => if *n <= u32::MAX as u64 {
            Ok(*n as u32)
        } else {
            Err(DecodeError::WrongType(k.to_owned()))
        },
        Some(_) => Err(DecodeError::WrongType(k.to_owned())),
    }
}

pub fn get_u16(m: &Vec<(String, Json)>, k: &str) -> (r: Result<u16, DecodeError>)
    ensures
        r is Ok <==> u16_field(m@, k@) is Some,
        r matches Ok(n) ==> n == u16_field(m@, k@)->0,
{
    match obj_get_exec(m, k) {
        None => Err(DecodeError::MissingField(k.to_owned())),
        Some(Json::Num(Num::U(n))) => if *n <= u16::MAX as u64 {
            Ok(*n as u16)
        } else {
            Err(DecodeError::WrongType(k.to_owned()))
        },
        Some(_) => Err(DecodeError::WrongType(k.to_owned())),
    }
}

// ---------------------------------------------------------------------------
// Optional scalar members: an absent member and an explicit `null` both read
// as `None`; a member of the wrong type is still a decode failure.
// ---------------------------------------------------------------------------
/// Optional member `k` read as a string.
pub open spec fn opt_str_field(m: Seq<(String, Json)>, k: Seq<char>) -> Option<
    Option<Seq<char>>,
> {
    match obj_get(m, k) {
        None => Some(None),
        Some(Json::Null) => Some(None),
        Some(Json::Str(s)) => Some(Some(s@)),
        Some(_) => None,
    }
}

/// Optional member `k` read as a number.
pub open spec fn opt_num_field(m: Seq<(String, Json)>, k: Seq<char>) -> Option<Option<Num>> {
    match obj_get(m, k) {
        None => Some(None),
        Some(Json::Null) => Some(None),
        Some(Json::Num(n)) => Some(Some(n)),
        Some(_) => None,
    }
}

/// Optional member `k` read as an unsigned integer that fits a `u32`.
pub open spec fn opt_u32_field(m: Seq<(String, Json)>, k: Seq<char>) -> Option<Option<u32>> {
    match obj_get(m, k) {
        None => Some(None),
        Some(Json::Null) => Some(None),
        Some(Json::Num(Num::U(n))) => if n <= u32::MAX {
            Some(Some(n as u32))
        } else {
            None
        },
        Some(_) => None,
    }
}

pub fn get_opt_str(m: &Vec<(String, Json)>, k: &str) -> (r: Result<Option<String>, DecodeError>)
    ensures
        r is Ok <==> opt_str_field(m@, k@) is Some,
        r matches Ok(o) ==> o.deep_view() == opt_str_field(m@, k@)->0,
{
    match obj_get_exec(m, k) {
        None => Ok(None),
        Some(Json::Null) => Ok(None),
        Some(Json::Str(s)) => Ok(Some(s.clone())),
        Some(_) => Err(DecodeError::WrongType(k.to_owned())),
    }
}

pub fn get_opt_num(m: &Vec<(String, Json)>, k: &str) -> (r: Result<Option<Num>, DecodeError>)
    ensures
        r is Ok <==> opt_num_field(m@, k@) is Some,
        r matches Ok(o) ==> o == opt_num_field(m@, k@)->0,
{
    match obj_get_exec(m, k) {
        None => Ok(None),
        Some(Json::Null) => Ok(None),
        Some(Json::Num(n)) => Ok(Some(*n)),
        Some(_) => Err(DecodeError::WrongType(k.to_owned())),
    }
}

pub fn get_opt_u32(m: &Vec<(String, Json)>, k: &str) -> (r: Result<Option<u32>, DecodeError>)
    ensures
        r is Ok <==> opt_u32_field(m@, k@) is Some,
        r matches Ok(o) ==> o == opt_u32_field(m@, k@)->0,
{
    match obj_get_exec(m, k) {
        None => Ok(None),
        Some(Json::Null) => Ok(None),
        Some(Json::Num(Num::U(n))) => if *n <= u32::MAX as u64 {
            Ok(Some(*n as u32))
        } else {
            Err(DecodeError::WrongType(k.to_owned()))
        },
        Some(_) => Err(DecodeError::WrongType(k.to_owned())),
    }
}

// ---------------------------------------------------------------------------
// Arrays of strings.
// ---------------------------------------------------------------------------
/// Every element of `s` is a JSON string.
pub open spec fn str_arr_shape(s: Seq<Json>) -> bool {
    forall|t: int| 0 <= t < s.len() ==> (#[trigger] s[t]) is Str
}

/// `v` holds exactly the strings of `s`, in order.
pub open spec fn str_arr_match(v: Seq<String>, s: Seq<Json>) -> bool {
    v.len() == s.len() && forall|t: int| 0 <= t < s.len() ==> (#[trigger] v[t])@ == s[t]->Str_0@
}

pub fn strings_from_arr(a: &Vec<Json>, k: &str) -> (r: Result<Vec<String>, DecodeError>)
    ensures
        r is Ok <==> str_arr_shape(a@),
        r matches Ok(v) ==> str_arr_match(v@, a@),
{
    let mut out: Vec<String> = Vec::new();
    let mut i: usize = 0;
    while i < a.len()
        invariant
            0 <= i <= a@.len(),
            out@.len() == i,
            forall|t: int| 0 <= t < i ==> (#[trigger] a@[t]) is Str,
            forall|t: int| 0 <= t < i ==> (#[trigger] out@[t])@ == a@[t]->Str_0@,
        decreases a@.len() - i,
    {
        match &a[i] {
            Json::Str(s) => out.push(s.clone()),
            _ => {
                return Err(DecodeError::WrongType(k.to_owned()));
            },
        }
        i = i + 1;
    }
    Ok(out)
}

pub fn get_str_arr(m: &Vec<(String, Json)>, k: &str) -> (r: Result<Vec<String>, DecodeError>)
    ensures
        r is Ok <==> (arr_field(m@, k@) is Some && str_arr_shape(arr_field(m@, k@)->0)),
        r matches Ok(v) ==> str_arr_match(v@, arr_field(m@, k@)->0),
{
    match obj_get_exec(m, k) {
        None => Err(DecodeError::MissingField(k.to_owned())),
        Some(Json::Arr(a)) => strings_from_arr(a, k),
        Some(_) => Err(DecodeError::WrongType(k.to_owned())),
    }
}

} // verus!

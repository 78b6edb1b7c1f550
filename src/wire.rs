//! Reading and writing the members of a JSON object, field by field.
//! A lookup takes the last member with the key; an absent optional member
//! and a `null` one both mean "unset".
use vstd::prelude::*;

use crate::error::DecodeError;
use crate::json::{Json, JsonValue, members_view};

verus! {

broadcast use vstd::std_specs::vec::group_vec_axioms;

/// The value of the last member with key `k`.
#[verifier::opaque]
pub open spec fn lookup(ms: Seq<(Seq<char>, Json)>, k: Seq<char>) -> Option<Json>
    decreases ms.len(),
{
    if ms.len() == 0 {
        None
    } else if ms.last().0 == k {
        Some(ms.last().1)
    } else {
        lookup(ms.drop_last(), k)
    }
}

/// Looking up a key after a member is appended.
pub proof fn lemma_lookup_push(ms: Seq<(Seq<char>, Json)>, e: (Seq<char>, Json), k: Seq<char>)
    ensures
        lookup(ms.push(e), k) == if e.0 == k {
            Some(e.1)
        } else {
            lookup(ms, k)
        },
{
    reveal(lookup);
    assert(ms.push(e).drop_last() =~= ms);
}

/// The member of an object with key `key`, the last one if several.
#[verifier::rlimit(20)]
pub fn get<'a>(members: &'a Vec<(String, JsonValue)>, key: &str) -> (r: Option<&'a JsonValue>)
    ensures
        r matches Some(v) ==> lookup(members_view(members@), key@) == Some(v@),
        r is None ==> lookup(members_view(members@), key@) is None,
{
    let mut i: usize = members.len();
    assert(members@.take(i as int) =~= members@);
    while i > 0
        invariant
            i <= members.len(),
            lookup(members_view(members@), key@) == lookup(members_view(members@.take(i as int)), key@),
        decreases i,
    {
        proof {
            reveal(lookup);
        }
        let ghost ms = members_view(members@.take(i as int));
        assert(ms.drop_last() =~= members_view(members@.take(i - 1)));
        if crate::text::same_text(members[i - 1].0.as_str(), key) {
            return Some(&members[i - 1].1);
        }
        i -= 1;
    }
    proof {
        reveal(lookup);
    }
    assert(members_view(members@.take(0)) =~= Seq::<(Seq<char>, Json)>::empty());
    None
}

/// A required string member.
pub open spec fn dec_string(o: Option<Json>, key: &'static str) -> Result<Seq<char>, DecodeError> {
    match o {
        Some(Json::Str(s)) => Ok(s),
        Some(_) => Err(DecodeError::WrongShape(key)),
        None => Err(DecodeError::MissingField(key)),
    }
}

pub fn decode_string(o: Option<&JsonValue>, key: &'static str) -> (r: Result<String, DecodeError>)
    ensures
        r matches Ok(s) ==> dec_string(opt_view(o), key) == Ok::<_, DecodeError>(s@),
        r matches Err(e) ==> dec_string(opt_view(o), key) == Err::<Seq<char>, _>(e),
{
    match o {
        Some(JsonValue::Str(s)) => Ok(s.clone()),
        Some(_) => Err(DecodeError::WrongShape(key)),
        None => Err(DecodeError::MissingField(key)),
    }
}

/// An optional string member.
pub open spec fn dec_opt_string(o: Option<Json>, key: &'static str) -> Result<
    Option<Seq<char>>,
    DecodeError,
> {
    match o {
        Some(Json::Str(s)) => Ok(Some(s)),
        Some(Json::Null) => Ok(None),
        Some(_) => Err(DecodeError::WrongShape(key)),
        None => Ok(None),
    }
}

pub fn decode_opt_string(o: Option<&JsonValue>, key: &'static str) -> (r: Result<
    Option<String>,
    DecodeError,
>)
    ensures
        r matches Ok(s) ==> dec_opt_string(opt_view(o), key) == Ok::<_, DecodeError>(opt_string_view(s)),
        r matches Err(e) ==> dec_opt_string(opt_view(o), key) == Err::<Option<Seq<char>>, _>(e),
{
    match o {
        Some(JsonValue::Str(s)) => Ok(Some(s.clone())),
        Some(JsonValue::Null) => Ok(None),
        Some(_) => Err(DecodeError::WrongShape(key)),
        None => Ok(None),
    }
}

/// A required boolean member.
pub open spec fn dec_bool(o: Option<Json>, key: &'static str) -> Result<bool, DecodeError> {
    match o {
        Some(Json::Bool(b)) => Ok(b),
        Some(_) => Err(DecodeError::WrongShape(key)),
        None => Err(DecodeError::MissingField(key)),
    }
}

pub fn decode_bool(o: Option<&JsonValue>, key: &'static str) -> (r: Result<bool, DecodeError>)
    ensures
        r == dec_bool(opt_view(o), key),
{
    match o {
        Some(JsonValue::Bool(b)) => Ok(*b),
        Some(_) => Err(DecodeError::WrongShape(key)),
        None => Err(DecodeError::MissingField(key)),
    }
}

/// An optional boolean member.
pub open spec fn dec_opt_bool(o: Option<Json>, key: &'static str) -> Result<Option<bool>, DecodeError> {
    match o {
        Some(Json::Bool(b)) => Ok(Some(b)),
        Some(Json::Null) => Ok(None),
        Some(_) => Err(DecodeError::WrongShape(key)),
        None => Ok(None),
    }
}

pub fn decode_opt_bool(o: Option<&JsonValue>, key: &'static str) -> (r: Result<Option<bool>, DecodeError>)
    ensures
        r == dec_opt_bool(opt_view(o), key),
{
    match o {
        Some(JsonValue::Bool(b)) => Ok(Some(*b)),
        Some(JsonValue::Null) => Ok(None),
        Some(_) => Err(DecodeError::WrongShape(key)),
        None => Ok(None),
    }
}

/// A required integer member in `lo..=hi`.
pub open spec fn dec_int(o: Option<Json>, key: &'static str, lo: int, hi: int) -> Result<int, DecodeError> {
    match o {
        Some(Json::Number(n)) => if lo <= n <= hi {
            Ok(n)
        } else {
            Err(DecodeError::OutOfRange(key))
        },
        Some(_) => Err(DecodeError::WrongShape(key)),
        None => Err(DecodeError::MissingField(key)),
    }
}

/// An optional integer member in `lo..=hi`.
pub open spec fn dec_opt_int(o: Option<Json>, key: &'static str, lo: int, hi: int) -> Result<
    Option<int>,
    DecodeError,
> {
    match o {
        Some(Json::Null) => Ok(None),
        None => Ok(None),
        _ => match dec_int(o, key, lo, hi) {
            Ok(n) => Ok(Some(n)),
            Err(e) => Err(e),
        },
    }
}

pub fn decode_i32(o: Option<&JsonValue>, key: &'static str) -> (r: Result<i32, DecodeError>)
    ensures
        r matches Ok(n) ==> dec_int(opt_view(o), key, i32::MIN as int, i32::MAX as int) == Ok::<_, DecodeError>(n as int),
        r matches Err(e) ==> dec_int(opt_view(o), key, i32::MIN as int, i32::MAX as int) == Err::<int, _>(e),
{
    match o {
        Some(JsonValue::Number(n)) => if i32::MIN as i128 <= *n && *n <= i32::MAX as i128 {
            Ok(*n as i32)
        } else {
            Err(DecodeError::OutOfRange(key))
        },
        Some(_) => Err(DecodeError::WrongShape(key)),
        None => Err(DecodeError::MissingField(key)),
    }
}

pub fn decode_u64(o: Option<&JsonValue>, key: &'static str) -> (r: Result<u64, DecodeError>)
    ensures
        r matches Ok(n) ==> dec_int(opt_view(o), key, 0, u64::MAX as int) == Ok::<_, DecodeError>(n as int),
        r matches Err(e) ==> dec_int(opt_view(o), key, 0, u64::MAX as int) == Err::<int, _>(e),
{
    match o {
        Some(JsonValue::Number(n)) => if 0 <= *n && *n <= u64::MAX as i128 {
            Ok(*n as u64)
        } else {
            Err(DecodeError::OutOfRange(key))
        },
        Some(_) => Err(DecodeError::WrongShape(key)),
        None => Err(DecodeError::MissingField(key)),
    }
}

pub fn decode_opt_i64(o: Option<&JsonValue>, key: &'static str) -> (r: Result<Option<i64>, DecodeError>)
    ensures
        r matches Ok(n) ==> dec_opt_int(opt_view(o), key, i64::MIN as int, i64::MAX as int) == Ok::<_, DecodeError>(
            opt_int_view(n),
        ),
        r matches Err(e) ==> dec_opt_int(opt_view(o), key, i64::MIN as int, i64::MAX as int) == Err::<Option<int>, _>(e),
{
    match o {
        Some(JsonValue::Number(n)) => if i64::MIN as i128 <= *n && *n <= i64::MAX as i128 {
            Ok(Some(*n as i64))
        } else {
            Err(DecodeError::OutOfRange(key))
        },
        Some(JsonValue::Null) => Ok(None),
        Some(_) => Err(DecodeError::WrongShape(key)),
        None => Ok(None),
    }
}

/// The model of a member that may be absent.
pub open spec fn opt_view(o: Option<&JsonValue>) -> Option<Json> {
    match o {
        Some(v) => Some(v@),
        None => None,
    }
}

pub open spec fn opt_string_view(o: Option<String>) -> Option<Seq<char>> {
    match o {
        Some(s) => Some(s@),
        None => None,
    }
}

pub open spec fn opt_int_view(o: Option<i64>) -> Option<int> {
    match o {
        Some(n) => Some(n as int),
        None => None,
    }
}

} // verus!

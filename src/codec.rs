//! Decoding the values of manifest members, and encoding them so that they
//! decode back.
use vstd::prelude::*;

use indexmap::IndexMap;

use crate::enums::{DiskDrivers, ImageOs, ImageRequirementBootRom, ImageState, ImageType, NetDrivers};
use crate::error::DecodeError;
use crate::ids::{Timestamp, Uuid, WebUrl, rfc3339_instant, url_accepts, uuid_of_text};
use crate::json::{Json, JsonValue, duplicate_members, items_view, members_view};
use crate::maps::{entries_insert, entries_of, key_index, keys_distinct, map_entry, map_insert, map_len, map_new};
use crate::values::{ImageUsers, RequirementNetworks};
use crate::wire::{dec_string, decode_string, get, lemma_lookup_push, lookup};

verus! {

broadcast use vstd::std_specs::vec::group_vec_axioms;

/// An identifier written as text.
pub open spec fn dec_uuid(j: Json, key: &'static str) -> Result<u128, DecodeError> {
    match j {
        Json::Str(s) => match uuid_of_text(s) {
            Some(u) => Ok(u),
            None => Err(DecodeError::Malformed(key)),
        },
        _ => Err(DecodeError::WrongShape(key)),
    }
}

pub fn decode_uuid(j: &JsonValue, key: &'static str) -> (r: Result<Uuid, DecodeError>)
    ensures
        r matches Ok(u) ==> dec_uuid(j@, key) == Ok::<_, DecodeError>(u.value),
        r matches Err(e) ==> dec_uuid(j@, key) == Err::<u128, _>(e),
{
    match j {
        JsonValue::Str(s) => match Uuid::parse(s.as_str()) {
            Some(u) => Ok(u),
            None => Err(DecodeError::Malformed(key)),
        },
        _ => Err(DecodeError::WrongShape(key)),
    }
}

pub fn encode_uuid(u: &Uuid) -> (r: JsonValue)
    ensures
        forall|key: &'static str| dec_uuid(r@, key) == Ok::<_, DecodeError>(u.value),
{
    JsonValue::Str(u.to_string())
}

/// A URL written as text.
pub open spec fn dec_url(j: Json, key: &'static str) -> Result<Seq<char>, DecodeError> {
    match j {
        Json::Str(s) => if url_accepts(s) {
            Ok(s)
        } else {
            Err(DecodeError::Malformed(key))
        },
        _ => Err(DecodeError::WrongShape(key)),
    }
}

pub fn decode_url(j: &JsonValue, key: &'static str) -> (r: Result<WebUrl, DecodeError>)
    ensures
        r matches Ok(u) ==> dec_url(j@, key) == Ok::<_, DecodeError>(u@),
        r matches Err(e) ==> dec_url(j@, key) == Err::<Seq<char>, _>(e),
{
    match j {
        JsonValue::Str(s) => match WebUrl::parse(s.as_str()) {
            Some(u) => Ok(u),
            None => Err(DecodeError::Malformed(key)),
        },
        _ => Err(DecodeError::WrongShape(key)),
    }
}

pub fn encode_url(u: &WebUrl) -> (r: JsonValue)
    ensures
        forall|key: &'static str| dec_url(r@, key) == Ok::<_, DecodeError>(u@),
{
    JsonValue::Str(u.to_string())
}

/// A timestamp written as RFC 3339 text.
pub open spec fn dec_timestamp(j: Json, key: &'static str) -> Result<Seq<char>, DecodeError> {
    match j {
        Json::Str(s) => if rfc3339_instant(s) is Some {
            Ok(s)
        } else {
            Err(DecodeError::Malformed(key))
        },
        _ => Err(DecodeError::WrongShape(key)),
    }
}

pub fn decode_timestamp(j: &JsonValue, key: &'static str) -> (r: Result<Timestamp, DecodeError>)
    ensures
        r matches Ok(t) ==> dec_timestamp(j@, key) == Ok::<_, DecodeError>(t@),
        r matches Err(e) ==> dec_timestamp(j@, key) == Err::<Seq<char>, _>(e),
{
    match j {
        JsonValue::Str(s) => match Timestamp::parse(s.as_str()) {
            Some(t) => Ok(t),
            None => Err(DecodeError::Malformed(key)),
        },
        _ => Err(DecodeError::WrongShape(key)),
    }
}

pub fn encode_timestamp(t: &Timestamp) -> (r: JsonValue)
    ensures
        forall|key: &'static str| dec_timestamp(r@, key) == Ok::<_, DecodeError>(t@),
{
    JsonValue::Str(t.to_string())
}

/// A string item of an array.
pub open spec fn dec_text(j: Json, key: &'static str) -> Result<Seq<char>, DecodeError> {
    match j {
        Json::Str(s) => Ok(s),
        _ => Err(DecodeError::WrongShape(key)),
    }
}

/// An object whose members are kept as they are.
pub open spec fn dec_object(j: Json, key: &'static str) -> Result<Seq<(Seq<char>, Json)>, DecodeError> {
    match j {
        Json::Object(ms) => Ok(ms),
        _ => Err(DecodeError::WrongShape(key)),
    }
}

/// The items of an array decoded one by one; the first that fails decides
/// the error.
pub open spec fn dec_items<M>(items: Seq<Json>, f: spec_fn(Json) -> Result<M, DecodeError>) -> Result<
    Seq<M>,
    DecodeError,
>
    decreases items.len(),
{
    if items.len() == 0 {
        Ok(Seq::empty())
    } else {
        match dec_items(items.drop_last(), f) {
            Ok(ms) => match f(items.last()) {
                Ok(m) => Ok(ms.push(m)),
                Err(e) => Err(e),
            },
            Err(e) => Err(e),
        }
    }
}

/// Decoding one more item.
pub proof fn lemma_dec_items_step<M>(items: Seq<Json>, i: int, f: spec_fn(Json) -> Result<M, DecodeError>)
    requires
        0 <= i < items.len(),
    ensures
        dec_items(items.take(i + 1), f) == match dec_items(items.take(i), f) {
            Ok(ms) => match f(items[i]) {
                Ok(m) => Ok(ms.push(m)),
                Err(e) => Err(e),
            },
            Err(e) => Err(e),
        },
{
    assert(items.take(i + 1).drop_last() =~= items.take(i));
}

/// Once a prefix fails, the whole array fails the same way.
pub proof fn lemma_dec_items_prefix_err<M>(items: Seq<Json>, i: int, f: spec_fn(Json) -> Result<M, DecodeError>)
    requires
        0 <= i <= items.len(),
        dec_items(items.take(i), f) is Err,
    ensures
        dec_items(items, f) == dec_items(items.take(i), f),
    decreases items.len() - i,
{
    if i == items.len() {
        assert(items.take(i) =~= items);
    } else {
        lemma_dec_items_step(items, i, f);
        lemma_dec_items_prefix_err(items, i + 1, f);
    }
}

/// A `ImageState` written as its wire string.
pub open spec fn dec_state(j: Json, key: &'static str) -> Result<ImageState, DecodeError> {
    match j {
        Json::Str(s) => match ImageState::spec_parse(s) {
            Some(t) => Ok(t),
            None => Err(DecodeError::UnknownVariant(key)),
        },
        _ => Err(DecodeError::WrongShape(key)),
    }
}

pub fn decode_state(j: &JsonValue, key: &'static str) -> (r: Result<ImageState, DecodeError>)
    ensures
        r == dec_state(j@, key),
{
    match j {
        JsonValue::Str(s) => match ImageState::parse(s.as_str()) {
            Some(t) => Ok(t),
            None => Err(DecodeError::UnknownVariant(key)),
        },
        _ => Err(DecodeError::WrongShape(key)),
    }
}

pub fn encode_state(t: ImageState) -> (r: JsonValue)
    ensures
        forall|key: &'static str| dec_state(r@, key) == Ok::<_, DecodeError>(t),
{
    proof {
        t.lemma_parse_wire();
    }
    JsonValue::Str(t.to_string())
}

/// A `ImageType` written as its wire string.
pub open spec fn dec_image_type(j: Json, key: &'static str) -> Result<ImageType, DecodeError> {
    match j {
        Json::Str(s) => match ImageType::spec_parse(s) {
            Some(t) => Ok(t),
            None => Err(DecodeError::UnknownVariant(key)),
        },
        _ => Err(DecodeError::WrongShape(key)),
    }
}

pub fn decode_image_type(j: &JsonValue, key: &'static str) -> (r: Result<ImageType, DecodeError>)
    ensures
        r == dec_image_type(j@, key),
{
    match j {
        JsonValue::Str(s) => match ImageType::parse(s.as_str()) {
            Some(t) => Ok(t),
            None => Err(DecodeError::UnknownVariant(key)),
        },
        _ => Err(DecodeError::WrongShape(key)),
    }
}

pub fn encode_image_type(t: ImageType) -> (r: JsonValue)
    ensures
        forall|key: &'static str| dec_image_type(r@, key) == Ok::<_, DecodeError>(t),
{
    proof {
        t.lemma_parse_wire();
    }
    JsonValue::Str(t.to_string())
}

/// A `ImageOs` written as its wire string.
pub open spec fn dec_os(j: Json, key: &'static str) -> Result<ImageOs, DecodeError> {
    match j {
        Json::Str(s) => match ImageOs::spec_parse(s) {
            Some(t) => Ok(t),
            None => Err(DecodeError::UnknownVariant(key)),
        },
        _ => Err(DecodeError::WrongShape(key)),
    }
}

pub fn decode_os(j: &JsonValue, key: &'static str) -> (r: Result<ImageOs, DecodeError>)
    ensures
        r == dec_os(j@, key),
{
    match j {
        JsonValue::Str(s) => match ImageOs::parse(s.as_str()) {
            Some(t) => Ok(t),
            None => Err(DecodeError::UnknownVariant(key)),
        },
        _ => Err(DecodeError::WrongShape(key)),
    }
}

pub fn encode_os(t: ImageOs) -> (r: JsonValue)
    ensures
        forall|key: &'static str| dec_os(r@, key) == Ok::<_, DecodeError>(t),
{
    proof {
        t.lemma_parse_wire();
    }
    JsonValue::Str(t.to_string())
}

/// A `ImageRequirementBootRom` written as its wire string.
pub open spec fn dec_bootrom(j: Json, key: &'static str) -> Result<ImageRequirementBootRom, DecodeError> {
    match j {
        Json::Str(s) => match ImageRequirementBootRom::spec_parse(s) {
            Some(t) => Ok(t),
            None => Err(DecodeError::UnknownVariant(key)),
        },
        _ => Err(DecodeError::WrongShape(key)),
    }
}

pub fn decode_bootrom(j: &JsonValue, key: &'static str) -> (r: Result<ImageRequirementBootRom, DecodeError>)
    ensures
        r == dec_bootrom(j@, key),
{
    match j {
        JsonValue::Str(s) => match ImageRequirementBootRom::parse(s.as_str()) {
            Some(t) => Ok(t),
            None => Err(DecodeError::UnknownVariant(key)),
        },
        _ => Err(DecodeError::WrongShape(key)),
    }
}

pub fn encode_bootrom(t: ImageRequirementBootRom) -> (r: JsonValue)
    ensures
        forall|key: &'static str| dec_bootrom(r@, key) == Ok::<_, DecodeError>(t),
{
    proof {
        t.lemma_parse_wire();
    }
    JsonValue::Str(t.to_string())
}

/// A `NetDrivers` written as its wire string.
pub open spec fn dec_nic_driver(j: Json, key: &'static str) -> Result<NetDrivers, DecodeError> {
    match j {
        Json::Str(s) => match NetDrivers::spec_parse(s) {
            Some(t) => Ok(t),
            None => Err(DecodeError::UnknownVariant(key)),
        },
        _ => Err(DecodeError::WrongShape(key)),
    }
}

pub fn decode_nic_driver(j: &JsonValue, key: &'static str) -> (r: Result<NetDrivers, DecodeError>)
    ensures
        r == dec_nic_driver(j@, key),
{
    match j {
        JsonValue::Str(s) => match NetDrivers::parse(s.as_str()) {
            Some(t) => Ok(t),
            None => Err(DecodeError::UnknownVariant(key)),
        },
        _ => Err(DecodeError::WrongShape(key)),
    }
}

pub fn encode_nic_driver(t: NetDrivers) -> (r: JsonValue)
    ensures
        forall|key: &'static str| dec_nic_driver(r@, key) == Ok::<_, DecodeError>(t),
{
    proof {
        t.lemma_parse_wire();
    }
    JsonValue::Str(t.to_string())
}

/// A `DiskDrivers` written as its wire string.
pub open spec fn dec_disk_driver(j: Json, key: &'static str) -> Result<DiskDrivers, DecodeError> {
    match j {
        Json::Str(s) => match DiskDrivers::spec_parse(s) {
            Some(t) => Ok(t),
            None => Err(DecodeError::UnknownVariant(key)),
        },
        _ => Err(DecodeError::WrongShape(key)),
    }
}

pub fn decode_disk_driver(j: &JsonValue, key: &'static str) -> (r: Result<DiskDrivers, DecodeError>)
    ensures
        r == dec_disk_driver(j@, key),
{
    match j {
        JsonValue::Str(s) => match DiskDrivers::parse(s.as_str()) {
            Some(t) => Ok(t),
            None => Err(DecodeError::UnknownVariant(key)),
        },
        _ => Err(DecodeError::WrongShape(key)),
    }
}

pub fn encode_disk_driver(t: DiskDrivers) -> (r: JsonValue)
    ensures
        forall|key: &'static str| dec_disk_driver(r@, key) == Ok::<_, DecodeError>(t),
{
    proof {
        t.lemma_parse_wire();
    }
    JsonValue::Str(t.to_string())
}

/// An array of strings.
pub open spec fn dec_strings(j: Json, key: &'static str) -> Result<Seq<Seq<char>>, DecodeError> {
    match j {
        Json::Array(items) => dec_items(items, |x: Json| dec_text(x, key)),
        _ => Err(DecodeError::WrongShape(key)),
    }
}

pub open spec fn model_strings(v: Seq<String>) -> Seq<Seq<char>> {
    v.map_values(|s: String| s@)
}

pub fn decode_strings(j: &JsonValue, key: &'static str) -> (r: Result<Vec<String>, DecodeError>)
    ensures
        r matches Ok(v) ==> dec_strings(j@, key) == Ok::<_, DecodeError>(model_strings(v@)),
        r matches Err(e) ==> dec_strings(j@, key) == Err::<Seq<Seq<char>>, _>(e),
{
    match j {
        JsonValue::Array(items) => {
            let ghost js = items_view(items@);
            let ghost f = |x: Json| dec_text(x, key);
            proof {
                if let Json::Array(a) = j@ {
                    assert(a =~= js);
                }
                assert(j@ == Json::Array(js));
                assert(js.take(0) =~= Seq::<Json>::empty());
                assert(model_strings(Seq::<String>::empty()) =~= Seq::<Seq<char>>::empty());
            }
            let mut out: Vec<String> = Vec::new();
            let mut i: usize = 0;
            while i < items.len()
                invariant
                    i <= items.len(),
                    out.len() == i,
                    js == items_view(items@),
                    j@ == Json::Array(js),
                    f == (|x: Json| dec_text(x, key)),
                    dec_items(js.take(i as int), f) == Ok::<_, DecodeError>(model_strings(out@)),
                decreases items.len() - i,
            {
                proof {
                    lemma_dec_items_step(js, i as int, f);
                }
                match decode_text(&items[i], key) {
                    Ok(t) => {
                        let ghost before = out@;
                        out.push(t);
                        proof {
                            assert(model_strings(out@) =~= model_strings(before).push(model_strings(out@)[i as int]));
                        }
                    },
                    Err(e) => {
                        proof {
                            assert(js[i as int] == items[i as int]@);
                            assert(dec_items(js.take(i + 1), f) == Err::<Seq<Seq<char>>, DecodeError>(e));
                            lemma_dec_items_prefix_err(js, i + 1, f);
                            assert(dec_items(js, f) == Err::<Seq<Seq<char>>, DecodeError>(e));
                        }
                        return Err(e);
                    },
                }
                i += 1;
            }
            proof {
                assert(js.take(items.len() as int) =~= js);
            }
            Ok(out)
        },
        _ => Err(DecodeError::WrongShape(key)),
    }
}

pub fn encode_strings(v: &Vec<String>, Ghost(key): Ghost<&'static str>) -> (r: JsonValue)
    ensures
        dec_strings(r@, key) == Ok::<_, DecodeError>(model_strings(v@)),
{
    let ghost f = |x: Json| dec_text(x, key);
    let mut items: Vec<JsonValue> = Vec::new();
    let mut i: usize = 0;
    proof {
        assert(items_view(items@) =~= Seq::<Json>::empty());
        assert(model_strings(v@.take(0)) =~= Seq::<Seq<char>>::empty());
    }
    while i < v.len()
        invariant
            i <= v.len(),
            items.len() == i,
            f == (|x: Json| dec_text(x, key)),
            dec_items(items_view(items@), f) == Ok::<_, DecodeError>(model_strings(v@.take(i as int))),
        decreases v.len() - i,
    {
        let item = encode_text(&v[i]);
        let ghost before = items@;
        items.push(item);
        proof {
            assert(items_view(items@).drop_last() =~= items_view(before));
            assert(model_strings(v@.take(i + 1)) =~= model_strings(v@.take(i as int)).push(model_strings(v@)[i as int]));
        }
        i += 1;
    }
    let ghost iv = items_view(items@);
    let r = JsonValue::Array(items);
    proof {
        if let Json::Array(a) = r@ {
            assert(a =~= iv);
        }
        assert(v@.take(v.len() as int) =~= v@);
    }
    r
}

/// An array of uuids.
pub open spec fn dec_uuids(j: Json, key: &'static str) -> Result<Seq<u128>, DecodeError> {
    match j {
        Json::Array(items) => dec_items(items, |x: Json| dec_uuid(x, key)),
        _ => Err(DecodeError::WrongShape(key)),
    }
}

pub open spec fn model_uuids(v: Seq<Uuid>) -> Seq<u128> {
    v.map_values(|u: Uuid| u.value)
}

pub fn decode_uuids(j: &JsonValue, key: &'static str) -> (r: Result<Vec<Uuid>, DecodeError>)
    ensures
        r matches Ok(v) ==> dec_uuids(j@, key) == Ok::<_, DecodeError>(model_uuids(v@)),
        r matches Err(e) ==> dec_uuids(j@, key) == Err::<Seq<u128>, _>(e),
{
    match j {
        JsonValue::Array(items) => {
            let ghost js = items_view(items@);
            let ghost f = |x: Json| dec_uuid(x, key);
            proof {
                if let Json::Array(a) = j@ {
                    assert(a =~= js);
                }
                assert(j@ == Json::Array(js));
                assert(js.take(0) =~= Seq::<Json>::empty());
                assert(model_uuids(Seq::<Uuid>::empty()) =~= Seq::<u128>::empty());
            }
            let mut out: Vec<Uuid> = Vec::new();
            let mut i: usize = 0;
            while i < items.len()
                invariant
                    i <= items.len(),
                    out.len() == i,
                    js == items_view(items@),
                    j@ == Json::Array(js),
                    f == (|x: Json| dec_uuid(x, key)),
                    dec_items(js.take(i as int), f) == Ok::<_, DecodeError>(model_uuids(out@)),
                decreases items.len() - i,
            {
                proof {
                    lemma_dec_items_step(js, i as int, f);
                }
                match decode_uuid(&items[i], key) {
                    Ok(t) => {
                        let ghost before = out@;
                        out.push(t);
                        proof {
                            assert(model_uuids(out@) =~= model_uuids(before).push(model_uuids(out@)[i as int]));
                        }
                    },
                    Err(e) => {
                        proof {
                            assert(js[i as int] == items[i as int]@);
                            assert(dec_items(js.take(i + 1), f) == Err::<Seq<u128>, DecodeError>(e));
                            lemma_dec_items_prefix_err(js, i + 1, f);
                            assert(dec_items(js, f) == Err::<Seq<u128>, DecodeError>(e));
                        }
                        return Err(e);
                    },
                }
                i += 1;
            }
            proof {
                assert(js.take(items.len() as int) =~= js);
            }
            Ok(out)
        },
        _ => Err(DecodeError::WrongShape(key)),
    }
}

pub fn encode_uuids(v: &Vec<Uuid>, Ghost(key): Ghost<&'static str>) -> (r: JsonValue)
    ensures
        dec_uuids(r@, key) == Ok::<_, DecodeError>(model_uuids(v@)),
{
    let ghost f = |x: Json| dec_uuid(x, key);
    let mut items: Vec<JsonValue> = Vec::new();
    let mut i: usize = 0;
    proof {
        assert(items_view(items@) =~= Seq::<Json>::empty());
        assert(model_uuids(v@.take(0)) =~= Seq::<u128>::empty());
    }
    while i < v.len()
        invariant
            i <= v.len(),
            items.len() == i,
            f == (|x: Json| dec_uuid(x, key)),
            dec_items(items_view(items@), f) == Ok::<_, DecodeError>(model_uuids(v@.take(i as int))),
        decreases v.len() - i,
    {
        let item = encode_uuid(&v[i]);
        let ghost before = items@;
        items.push(item);
        proof {
            assert(items_view(items@).drop_last() =~= items_view(before));
            assert(model_uuids(v@.take(i + 1)) =~= model_uuids(v@.take(i as int)).push(model_uuids(v@)[i as int]));
        }
        i += 1;
    }
    let ghost iv = items_view(items@);
    let r = JsonValue::Array(items);
    proof {
        if let Json::Array(a) = r@ {
            assert(a =~= iv);
        }
        assert(v@.take(v.len() as int) =~= v@);
    }
    r
}

/// An array of objects.
pub open spec fn dec_objects(j: Json, key: &'static str) -> Result<Seq<Seq<(Seq<char>, Json)>>, DecodeError> {
    match j {
        Json::Array(items) => dec_items(items, |x: Json| dec_object(x, key)),
        _ => Err(DecodeError::WrongShape(key)),
    }
}

pub open spec fn model_objects(v: Seq<Vec<(String, JsonValue)>>) -> Seq<Seq<(Seq<char>, Json)>> {
    v.map_values(|o: Vec<(String, JsonValue)>| members_view(o@))
}

pub fn decode_objects(j: &JsonValue, key: &'static str) -> (r: Result<Vec<Vec<(String, JsonValue)>>, DecodeError>)
    ensures
        r matches Ok(v) ==> dec_objects(j@, key) == Ok::<_, DecodeError>(model_objects(v@)),
        r matches Err(e) ==> dec_objects(j@, key) == Err::<Seq<Seq<(Seq<char>, Json)>>, _>(e),
{
    match j {
        JsonValue::Array(items) => {
            let ghost js = items_view(items@);
            let ghost f = |x: Json| dec_object(x, key);
            proof {
                if let Json::Array(a) = j@ {
                    assert(a =~= js);
                }
                assert(j@ == Json::Array(js));
                assert(js.take(0) =~= Seq::<Json>::empty());
                assert(model_objects(Seq::<Vec<(String, JsonValue)>>::empty()) =~= Seq::<Seq<(Seq<char>, Json)>>::empty());
            }
            let mut out: Vec<Vec<(String, JsonValue)>> = Vec::new();
            let mut i: usize = 0;
            while i < items.len()
                invariant
                    i <= items.len(),
                    out.len() == i,
                    js == items_view(items@),
                    j@ == Json::Array(js),
                    f == (|x: Json| dec_object(x, key)),
                    dec_items(js.take(i as int), f) == Ok::<_, DecodeError>(model_objects(out@)),
                decreases items.len() - i,
            {
                proof {
                    lemma_dec_items_step(js, i as int, f);
                }
                match decode_object(&items[i], key) {
                    Ok(t) => {
                        let ghost before = out@;
                        out.push(t);
                        proof {
                            assert(model_objects(out@) =~= model_objects(before).push(model_objects(out@)[i as int]));
                        }
                    },
                    Err(e) => {
                        proof {
                            assert(js[i as int] == items[i as int]@);
                            assert(dec_items(js.take(i + 1), f) == Err::<Seq<Seq<(Seq<char>, Json)>>, DecodeError>(e));
                            lemma_dec_items_prefix_err(js, i + 1, f);
                            assert(dec_items(js, f) == Err::<Seq<Seq<(Seq<char>, Json)>>, DecodeError>(e));
                        }
                        return Err(e);
                    },
                }
                i += 1;
            }
            proof {
                assert(js.take(items.len() as int) =~= js);
            }
            Ok(out)
        },
        _ => Err(DecodeError::WrongShape(key)),
    }
}

pub fn encode_objects(v: &Vec<Vec<(String, JsonValue)>>, Ghost(key): Ghost<&'static str>) -> (r: JsonValue)
    ensures
        dec_objects(r@, key) == Ok::<_, DecodeError>(model_objects(v@)),
{
    let ghost f = |x: Json| dec_object(x, key);
    let mut items: Vec<JsonValue> = Vec::new();
    let mut i: usize = 0;
    proof {
        assert(items_view(items@) =~= Seq::<Json>::empty());
        assert(model_objects(v@.take(0)) =~= Seq::<Seq<(Seq<char>, Json)>>::empty());
    }
    while i < v.len()
        invariant
            i <= v.len(),
            items.len() == i,
            f == (|x: Json| dec_object(x, key)),
            dec_items(items_view(items@), f) == Ok::<_, DecodeError>(model_objects(v@.take(i as int))),
        decreases v.len() - i,
    {
        let item = encode_object(&v[i]);
        let ghost before = items@;
        items.push(item);
        proof {
            assert(items_view(items@).drop_last() =~= items_view(before));
            assert(model_objects(v@.take(i + 1)) =~= model_objects(v@.take(i as int)).push(model_objects(v@)[i as int]));
        }
        i += 1;
    }
    let ghost iv = items_view(items@);
    let r = JsonValue::Array(items);
    proof {
        if let Json::Array(a) = r@ {
            assert(a =~= iv);
        }
        assert(v@.take(v.len() as int) =~= v@);
    }
    r
}

/// An array of users.
pub open spec fn dec_users(j: Json, key: &'static str) -> Result<Seq<Seq<char>>, DecodeError> {
    match j {
        Json::Array(items) => dec_items(items, |x: Json| dec_user(x, key)),
        _ => Err(DecodeError::WrongShape(key)),
    }
}

pub open spec fn model_users(v: Seq<ImageUsers>) -> Seq<Seq<char>> {
    v.map_values(|u: ImageUsers| u.name@)
}

pub fn decode_users(j: &JsonValue, key: &'static str) -> (r: Result<Vec<ImageUsers>, DecodeError>)
    ensures
        r matches Ok(v) ==> dec_users(j@, key) == Ok::<_, DecodeError>(model_users(v@)),
        r matches Err(e) ==> dec_users(j@, key) == Err::<Seq<Seq<char>>, _>(e),
{
    match j {
        JsonValue::Array(items) => {
            let ghost js = items_view(items@);
            let ghost f = |x: Json| dec_user(x, key);
            proof {
                if let Json::Array(a) = j@ {
                    assert(a =~= js);
                }
                assert(j@ == Json::Array(js));
                assert(js.take(0) =~= Seq::<Json>::empty());
                assert(model_users(Seq::<ImageUsers>::empty()) =~= Seq::<Seq<char>>::empty());
            }
            let mut out: Vec<ImageUsers> = Vec::new();
            let mut i: usize = 0;
            while i < items.len()
                invariant
                    i <= items.len(),
                    out.len() == i,
                    js == items_view(items@),
                    j@ == Json::Array(js),
                    f == (|x: Json| dec_user(x, key)),
                    dec_items(js.take(i as int), f) == Ok::<_, DecodeError>(model_users(out@)),
                decreases items.len() - i,
            {
                proof {
                    lemma_dec_items_step(js, i as int, f);
                }
                match decode_user(&items[i], key) {
                    Ok(t) => {
                        let ghost before = out@;
                        out.push(t);
                        proof {
                            assert(model_users(out@) =~= model_users(before).push(model_users(out@)[i as int]));
                        }
                    },
                    Err(e) => {
                        proof {
                            assert(js[i as int] == items[i as int]@);
                            assert(dec_items(js.take(i + 1), f) == Err::<Seq<Seq<char>>, DecodeError>(e));
                            lemma_dec_items_prefix_err(js, i + 1, f);
                            assert(dec_items(js, f) == Err::<Seq<Seq<char>>, DecodeError>(e));
                        }
                        return Err(e);
                    },
                }
                i += 1;
            }
            proof {
                assert(js.take(items.len() as int) =~= js);
            }
            Ok(out)
        },
        _ => Err(DecodeError::WrongShape(key)),
    }
}

pub fn encode_users(v: &Vec<ImageUsers>, Ghost(key): Ghost<&'static str>) -> (r: JsonValue)
    ensures
        dec_users(r@, key) == Ok::<_, DecodeError>(model_users(v@)),
{
    let ghost f = |x: Json| dec_user(x, key);
    let mut items: Vec<JsonValue> = Vec::new();
    let mut i: usize = 0;
    proof {
        assert(items_view(items@) =~= Seq::<Json>::empty());
        assert(model_users(v@.take(0)) =~= Seq::<Seq<char>>::empty());
    }
    while i < v.len()
        invariant
            i <= v.len(),
            items.len() == i,
            f == (|x: Json| dec_user(x, key)),
            dec_items(items_view(items@), f) == Ok::<_, DecodeError>(model_users(v@.take(i as int))),
        decreases v.len() - i,
    {
        let item = encode_user(&v[i]);
        let ghost before = items@;
        items.push(item);
        proof {
            assert(items_view(items@).drop_last() =~= items_view(before));
            assert(model_users(v@.take(i + 1)) =~= model_users(v@.take(i as int)).push(model_users(v@)[i as int]));
        }
        i += 1;
    }
    let ghost iv = items_view(items@);
    let r = JsonValue::Array(items);
    proof {
        if let Json::Array(a) = r@ {
            assert(a =~= iv);
        }
        assert(v@.take(v.len() as int) =~= v@);
    }
    r
}

/// An array of networks.
pub open spec fn dec_networks(j: Json, key: &'static str) -> Result<Seq<(Seq<char>, Seq<char>)>, DecodeError> {
    match j {
        Json::Array(items) => dec_items(items, |x: Json| dec_network(x, key)),
        _ => Err(DecodeError::WrongShape(key)),
    }
}

pub open spec fn model_networks(v: Seq<RequirementNetworks>) -> Seq<(Seq<char>, Seq<char>)> {
    v.map_values(|n: RequirementNetworks| (n.name@, n.description@))
}

pub fn decode_networks(j: &JsonValue, key: &'static str) -> (r: Result<Vec<RequirementNetworks>, DecodeError>)
    ensures
        r matches Ok(v) ==> dec_networks(j@, key) == Ok::<_, DecodeError>(model_networks(v@)),
        r matches Err(e) ==> dec_networks(j@, key) == Err::<Seq<(Seq<char>, Seq<char>)>, _>(e),
{
    match j {
        JsonValue::Array(items) => {
            let ghost js = items_view(items@);
            let ghost f = |x: Json| dec_network(x, key);
            proof {
                if let Json::Array(a) = j@ {
                    assert(a =~= js);
                }
                assert(j@ == Json::Array(js));
                assert(js.take(0) =~= Seq::<Json>::empty());
                assert(model_networks(Seq::<RequirementNetworks>::empty()) =~= Seq::<(Seq<char>, Seq<char>)>::empty());
            }
            let mut out: Vec<RequirementNetworks> = Vec::new();
            let mut i: usize = 0;
            while i < items.len()
                invariant
                    i <= items.len(),
                    out.len() == i,
                    js == items_view(items@),
                    j@ == Json::Array(js),
                    f == (|x: Json| dec_network(x, key)),
                    dec_items(js.take(i as int), f) == Ok::<_, DecodeError>(model_networks(out@)),
                decreases items.len() - i,
            {
                proof {
                    lemma_dec_items_step(js, i as int, f);
                }
                match decode_network(&items[i], key) {
                    Ok(t) => {
                        let ghost before = out@;
                        out.push(t);
                        proof {
                            assert(model_networks(out@) =~= model_networks(before).push(model_networks(out@)[i as int]));
                        }
                    },
                    Err(e) => {
                        proof {
                            assert(js[i as int] == items[i as int]@);
                            assert(dec_items(js.take(i + 1), f) == Err::<Seq<(Seq<char>, Seq<char>)>, DecodeError>(e));
                            lemma_dec_items_prefix_err(js, i + 1, f);
                            assert(dec_items(js, f) == Err::<Seq<(Seq<char>, Seq<char>)>, DecodeError>(e));
                        }
                        return Err(e);
                    },
                }
                i += 1;
            }
            proof {
                assert(js.take(items.len() as int) =~= js);
            }
            Ok(out)
        },
        _ => Err(DecodeError::WrongShape(key)),
    }
}

pub fn encode_networks(v: &Vec<RequirementNetworks>, Ghost(key): Ghost<&'static str>) -> (r: JsonValue)
    ensures
        dec_networks(r@, key) == Ok::<_, DecodeError>(model_networks(v@)),
{
    let ghost f = |x: Json| dec_network(x, key);
    let mut items: Vec<JsonValue> = Vec::new();
    let mut i: usize = 0;
    proof {
        assert(items_view(items@) =~= Seq::<Json>::empty());
        assert(model_networks(v@.take(0)) =~= Seq::<(Seq<char>, Seq<char>)>::empty());
    }
    while i < v.len()
        invariant
            i <= v.len(),
            items.len() == i,
            f == (|x: Json| dec_network(x, key)),
            dec_items(items_view(items@), f) == Ok::<_, DecodeError>(model_networks(v@.take(i as int))),
        decreases v.len() - i,
    {
        let item = encode_network(&v[i]);
        let ghost before = items@;
        items.push(item);
        proof {
            assert(items_view(items@).drop_last() =~= items_view(before));
            assert(model_networks(v@.take(i + 1)) =~= model_networks(v@.take(i as int)).push(model_networks(v@)[i as int]));
        }
        i += 1;
    }
    let ghost iv = items_view(items@);
    let r = JsonValue::Array(items);
    proof {
        if let Json::Array(a) = r@ {
            assert(a =~= iv);
        }
        assert(v@.take(v.len() as int) =~= v@);
    }
    r
}

pub fn decode_text(j: &JsonValue, key: &'static str) -> (r: Result<String, DecodeError>)
    ensures
        r matches Ok(s) ==> dec_text(j@, key) == Ok::<_, DecodeError>(s@),
        r matches Err(e) ==> dec_text(j@, key) == Err::<Seq<char>, _>(e),
{
    match j {
        JsonValue::Str(s) => Ok(s.clone()),
        _ => Err(DecodeError::WrongShape(key)),
    }
}

pub fn encode_text(s: &String) -> (r: JsonValue)
    ensures
        forall|key: &'static str| dec_text(r@, key) == Ok::<_, DecodeError>(s@),
{
    JsonValue::Str(s.clone())
}

pub fn decode_object(j: &JsonValue, key: &'static str) -> (r: Result<Vec<(String, JsonValue)>, DecodeError>)
    ensures
        r matches Ok(o) ==> dec_object(j@, key) == Ok::<_, DecodeError>(members_view(o@)),
        r matches Err(e) ==> dec_object(j@, key) == Err::<Seq<(Seq<char>, Json)>, _>(e),
{
    match j {
        JsonValue::Object(ms) => {
            let out = duplicate_members(ms);
            proof {
                if let Json::Object(a) = j@ {
                    assert(a =~= members_view(ms@));
                }
            }
            Ok(out)
        },
        _ => Err(DecodeError::WrongShape(key)),
    }
}

pub fn encode_object(o: &Vec<(String, JsonValue)>) -> (r: JsonValue)
    ensures
        forall|key: &'static str| dec_object(r@, key) == Ok::<_, DecodeError>(members_view(o@)),
{
    let ms = duplicate_members(o);
    let ghost mv = members_view(ms@);
    let r = JsonValue::Object(ms);
    proof {
        if let Json::Object(a) = r@ {
            assert(a =~= mv);
        }
    }
    r
}

/// A user entry: an object with a `name`.
pub open spec fn dec_user(j: Json, key: &'static str) -> Result<Seq<char>, DecodeError> {
    match j {
        Json::Object(ms) => dec_string(lookup(ms, "name"@), "name"),
        _ => Err(DecodeError::WrongShape(key)),
    }
}

pub fn decode_user(j: &JsonValue, key: &'static str) -> (r: Result<ImageUsers, DecodeError>)
    ensures
        r matches Ok(u) ==> dec_user(j@, key) == Ok::<_, DecodeError>(u.name@),
        r matches Err(e) ==> dec_user(j@, key) == Err::<Seq<char>, _>(e),
{
    match j {
        JsonValue::Object(ms) => {
            proof {
                if let Json::Object(a) = j@ {
                    assert(a =~= members_view(ms@));
                }
            }
            let name = match decode_string(get(ms, "name"), "name") {
                Ok(x) => x,
                Err(e) => {
                    return Err(e);
                },
            };
            Ok(ImageUsers { name })
        },
        _ => Err(DecodeError::WrongShape(key)),
    }
}

/// Builds an object from its members.
pub fn object_of(ms: Vec<(String, JsonValue)>) -> (r: JsonValue)
    ensures
        r@ == Json::Object(members_view(ms@)),
{
    let ghost mv = members_view(ms@);
    let r = JsonValue::Object(ms);
    proof {
        if let Json::Object(a) = r@ {
            assert(a =~= mv);
        }
    }
    r
}

/// Appends a member.
pub fn put(ms: &mut Vec<(String, JsonValue)>, key: &str, value: JsonValue)
    ensures
        members_view(final(ms)@) == members_view(old(ms)@).push((key@, value@)),
{
    let ghost before = ms@;
    ms.push((String::from_str(key), value));
    assert(members_view(ms@) =~= members_view(before).push((key@, value@)));
}

pub fn encode_user(u: &ImageUsers) -> (r: JsonValue)
    ensures
        forall|key: &'static str| dec_user(r@, key) == Ok::<_, DecodeError>(u.name@),
{
    let mut ms: Vec<(String, JsonValue)> = Vec::new();
    proof {
        assert(members_view(ms@) =~= Seq::<(Seq<char>, Json)>::empty());
    }
    put(&mut ms, "name", JsonValue::Str(u.name.clone()));
    proof {
        reveal(lookup);
        lemma_lookup_push(Seq::empty(), ("name"@, Json::Str(u.name@)), "name"@);
    }
    object_of(ms)
}

/// A network requirement: an object with a `name` and a `description`.
pub open spec fn dec_network(j: Json, key: &'static str) -> Result<(Seq<char>, Seq<char>), DecodeError> {
    match j {
        Json::Object(ms) => match dec_string(lookup(ms, "name"@), "name") {
            Ok(n) => match dec_string(lookup(ms, "description"@), "description") {
                Ok(d) => Ok((n, d)),
                Err(e) => Err(e),
            },
            Err(e) => Err(e),
        },
        _ => Err(DecodeError::WrongShape(key)),
    }
}

pub fn decode_network(j: &JsonValue, key: &'static str) -> (r: Result<RequirementNetworks, DecodeError>)
    ensures
        r matches Ok(n) ==> dec_network(j@, key) == Ok::<_, DecodeError>((n.name@, n.description@)),
        r matches Err(e) ==> dec_network(j@, key) == Err::<(Seq<char>, Seq<char>), _>(e),
{
    match j {
        JsonValue::Object(ms) => {
            proof {
                if let Json::Object(a) = j@ {
                    assert(a =~= members_view(ms@));
                }
            }
            let name = match decode_string(get(ms, "name"), "name") {
                Ok(x) => x,
                Err(e) => {
                    return Err(e);
                },
            };
            let description = match decode_string(get(ms, "description"), "description") {
                Ok(x) => x,
                Err(e) => {
                    return Err(e);
                },
            };
            Ok(RequirementNetworks { name, description })
        },
        _ => Err(DecodeError::WrongShape(key)),
    }
}

pub fn encode_network(n: &RequirementNetworks) -> (r: JsonValue)
    ensures
        forall|key: &'static str| dec_network(r@, key) == Ok::<_, DecodeError>((n.name@, n.description@)),
{
    let mut ms: Vec<(String, JsonValue)> = Vec::new();
    let ghost m0 = members_view(ms@);
    proof {
        assert(m0 =~= Seq::<(Seq<char>, Json)>::empty());
    }
    put(&mut ms, "name", JsonValue::Str(n.name.clone()));
    let ghost m1 = members_view(ms@);
    put(&mut ms, "description", JsonValue::Str(n.description.clone()));
    proof {
        reveal(lookup);
        reveal_strlit("name");
        reveal_strlit("description");
        assert("name"@.len() == 4 && "description"@.len() == 11);
        lemma_lookup_push(m0, ("name"@, Json::Str(n.name@)), "name"@);
        lemma_lookup_push(m1, ("description"@, Json::Str(n.description@)), "name"@);
        lemma_lookup_push(m1, ("description"@, Json::Str(n.description@)), "description"@);
        lemma_lookup_push(m0, ("name"@, Json::Str(n.name@)), "description"@);
    }
    object_of(ms)
}

/// The members of an object of strings, set into a map one by one.
pub open spec fn dec_map_members(ms: Seq<(Seq<char>, Json)>, key: &'static str) -> Result<
    Seq<(Seq<char>, Seq<char>)>,
    DecodeError,
>
    decreases ms.len(),
{
    if ms.len() == 0 {
        Ok(Seq::empty())
    } else {
        match dec_map_members(ms.drop_last(), key) {
            Ok(es) => match ms.last().1 {
                Json::Str(v) => Ok(entries_insert(es, ms.last().0, v)),
                _ => Err(DecodeError::WrongShape(key)),
            },
            Err(e) => Err(e),
        }
    }
}

/// An object of strings, read into an ordered map.
pub open spec fn dec_string_map(j: Json, key: &'static str) -> Result<
    Seq<(Seq<char>, Seq<char>)>,
    DecodeError,
> {
    match j {
        Json::Object(ms) => dec_map_members(ms, key),
        _ => Err(DecodeError::WrongShape(key)),
    }
}

pub proof fn lemma_dec_map_members_prefix_err(ms: Seq<(Seq<char>, Json)>, i: int, key: &'static str)
    requires
        0 <= i <= ms.len(),
        dec_map_members(ms.take(i), key) is Err,
    ensures
        dec_map_members(ms, key) == dec_map_members(ms.take(i), key),
    decreases ms.len() - i,
{
    if i == ms.len() {
        assert(ms.take(i) =~= ms);
    } else {
        assert(ms.take(i + 1).drop_last() =~= ms.take(i));
        lemma_dec_map_members_prefix_err(ms, i + 1, key);
    }
}

/// A key that no entry has has no position.
pub proof fn lemma_key_index_absent(es: Seq<(Seq<char>, Seq<char>)>, k: Seq<char>)
    requires
        forall|j: int| 0 <= j < es.len() ==> es[j].0 != k,
    ensures
        key_index(es, k) is None,
    decreases es.len(),
{
    if es.len() > 0 {
        lemma_key_index_absent(es.drop_last(), k);
    }
}

pub fn decode_string_map(j: &JsonValue, key: &'static str) -> (r: Result<IndexMap<String, String>, DecodeError>)
    ensures
        r matches Ok(m) ==> dec_string_map(j@, key) == Ok::<_, DecodeError>(entries_of(m)),
        r matches Err(e) ==> dec_string_map(j@, key) == Err::<Seq<(Seq<char>, Seq<char>)>, _>(e),
{
    match j {
        JsonValue::Object(ms) => {
            let ghost mv = members_view(ms@);
            proof {
                if let Json::Object(a) = j@ {
                    assert(a =~= mv);
                }
                assert(mv.take(0) =~= Seq::<(Seq<char>, Json)>::empty());
            }
            let mut m = map_new();
            let mut i: usize = 0;
            while i < ms.len()
                invariant
                    i <= ms.len(),
                    mv == members_view(ms@),
                    j@ == Json::Object(mv),
                    dec_map_members(mv.take(i as int), key) == Ok::<_, DecodeError>(entries_of(m)),
                decreases ms.len() - i,
            {
                proof {
                    assert(mv.take(i + 1).drop_last() =~= mv.take(i as int));
                }
                match &ms[i].1 {
                    JsonValue::Str(v) => {
                        map_insert(&mut m, ms[i].0.clone(), v.clone());
                    },
                    _ => {
                        proof {
                            lemma_dec_map_members_prefix_err(mv, i + 1, key);
                        }
                        return Err(DecodeError::WrongShape(key));
                    },
                }
                i += 1;
            }
            proof {
                assert(mv.take(ms.len() as int) =~= mv);
            }
            Ok(m)
        },
        _ => Err(DecodeError::WrongShape(key)),
    }
}

/// Writes a map as an object; it reads back as the same entries where the
/// keys are distinct, as they are in any map.
pub fn encode_string_map(m: &IndexMap<String, String>, Ghost(key): Ghost<&'static str>) -> (r: JsonValue)
    ensures
        keys_distinct(entries_of(*m)) ==> dec_string_map(r@, key) == Ok::<_, DecodeError>(entries_of(*m)),
{
    let ghost es = entries_of(*m);
    let n = map_len(m);
    let mut out: Vec<(String, JsonValue)> = Vec::new();
    let mut i: usize = 0;
    proof {
        assert(members_view(out@) =~= Seq::<(Seq<char>, Json)>::empty());
        assert(es.take(0) =~= Seq::<(Seq<char>, Seq<char>)>::empty());
    }
    while i < n
        invariant
            i <= n,
            n == es.len(),
            es == entries_of(*m),
            members_view(out@).len() == i,
            keys_distinct(es) ==> dec_map_members(members_view(out@), key) == Ok::<_, DecodeError>(es.take(i as int)),
        decreases n - i,
    {
        let (k, v) = map_entry(m, i);
        let ghost before = members_view(out@);
        put(&mut out, k.as_str(), JsonValue::Str(v));
        proof {
            let after = members_view(out@);
            assert(after.drop_last() =~= before);
            if keys_distinct(es) {
                lemma_key_index_absent(es.take(i as int), es[i as int].0);
                assert(es.take(i + 1) =~= es.take(i as int).push(es[i as int]));
            }
        }
        i += 1;
    }
    proof {
        assert(es.take(n as int) =~= es);
    }
    object_of(out)
}

} // verus!

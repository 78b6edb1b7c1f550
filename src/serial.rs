//! The wire form of a manifest and of the records in it: each record is a
//! JSON object, with the image type under `type` and the properties of a
//! virtual-machine image written among the manifest's own members.
use vstd::prelude::*;

use crate::codec::{dec_bootrom, dec_disk_driver, dec_image_type, dec_networks, dec_nic_driver, dec_object, dec_objects, dec_os, dec_state, dec_string_map, dec_strings, dec_timestamp, dec_url, dec_users, dec_uuid, dec_uuids, decode_bootrom, decode_disk_driver, decode_image_type, decode_networks, decode_nic_driver, decode_object, decode_objects, decode_os, decode_state, decode_string_map, decode_strings, decode_timestamp, decode_url, decode_users, decode_uuid, decode_uuids, encode_bootrom, encode_disk_driver, encode_image_type, encode_networks, encode_nic_driver, encode_object, encode_objects, encode_os, encode_state, encode_string_map, encode_strings, encode_timestamp, encode_url, encode_users, encode_uuid, encode_uuids, model_networks, model_objects, model_strings, model_users, model_uuids, object_of, put};
use crate::enums::{DiskDrivers, ImageOs, ImageRequirementBootRom, ImageState, ImageType, NetDrivers};
use crate::error::DecodeError;
use crate::ids::{Timestamp, Uuid, WebUrl};
use crate::json::{Json, JsonValue, members_view};
use indexmap::IndexMap;
use crate::manifest::Manifest;
use crate::maps::{entries_of, keys_distinct};
use crate::values::{ImageRequirements, ImageUsers, ImageVMProperties};
use crate::wire::{dec_bool, dec_int, dec_opt_bool, dec_opt_int, dec_opt_string, dec_string, decode_bool, decode_i32, decode_opt_bool, decode_opt_i64, decode_opt_string, decode_string, decode_u64, get, lemma_lookup_push, lookup, opt_int_view, opt_string_view};

verus! {

/// A member that must be present, decoded by `f`.
pub open spec fn dec_required<M>(o: Option<Json>, key: &'static str, f: spec_fn(Json) -> Result<M, DecodeError>) -> Result<
    M,
    DecodeError,
> {
    match o {
        Some(j) => f(j),
        None => Err(DecodeError::MissingField(key)),
    }
}

/// A member that may be absent or `null`, decoded by `f` otherwise.
pub open spec fn dec_optional<M>(o: Option<Json>, f: spec_fn(Json) -> Result<M, DecodeError>) -> Result<
    Option<M>,
    DecodeError,
> {
    match o {
        None => Ok(None),
        Some(Json::Null) => Ok(None),
        Some(j) => match f(j) {
            Ok(m) => Ok(Some(m)),
            Err(e) => Err(e),
        },
    }
}

/// Appends a member where there is a value; a lookup of its key then finds
/// that value, and a lookup of any other key finds what it found before.
pub fn put_opt(ms: &mut Vec<(String, JsonValue)>, key: &str, value: Option<JsonValue>)
    ensures
        forall|k: Seq<char>| #[trigger]
            lookup(members_view(final(ms)@), k) == if k == key@ && value is Some {
                Some(value->0@)
            } else {
                lookup(members_view(old(ms)@), k)
            },
{
    match value {
        Some(v) => {
            let ghost before = members_view(ms@);
            let ghost e = (key@, v@);
            put(ms, key, v);
            proof {
                assert forall|k: Seq<char>| #[trigger]
                    lookup(members_view(ms@), k) == if k == key@ {
                        Some(e.1)
                    } else {
                        lookup(before, k)
                    } by {
                    lemma_lookup_push(before, e, k);
                }
            }
        },
        None => {},
    }
}

/// Whether an object has a member with key `key`.
pub fn has_member(ms: &Vec<(String, JsonValue)>, key: &str) -> (r: bool)
    ensures
        r == lookup(members_view(ms@), key@) is Some,
{
    match get(ms, key) {
        Some(_) => true,
        None => false,
    }
}

/// Whether an object has any member of the properties of a VM image.
pub open spec fn has_vm_member(ms: Seq<(Seq<char>, Json)>) -> bool {
    lookup(ms, "nic_driver"@) is Some || lookup(ms, "disk_driver"@) is Some || lookup(ms, "cpu_type"@)
        is Some || lookup(ms, "image_size"@) is Some
}

/// The keys of the wire form are distinct strings.
pub proof fn lemma_wire_keys()
    ensures
        "acl"@.len() == 3 && "acl"@[0] == 'a' && "acl"@[1] == 'c',
        "billing_tags"@.len() == 12 && "billing_tags"@[0] == 'b' && "billing_tags"@[1] == 'i',
        "bootrom"@.len() == 7 && "bootrom"@[0] == 'b' && "bootrom"@[1] == 'o',
        "brand"@.len() == 5 && "brand"@[0] == 'b' && "brand"@[1] == 'r',
        "channels"@.len() == 8 && "channels"@[0] == 'c' && "channels"@[1] == 'h',
        "cpu_type"@.len() == 8 && "cpu_type"@[0] == 'c' && "cpu_type"@[1] == 'p',
        "description"@.len() == 11 && "description"@[0] == 'd' && "description"@[1] == 'e',
        "disabled"@.len() == 8 && "disabled"@[0] == 'd' && "disabled"@[1] == 'i',
        "disk_driver"@.len() == 11 && "disk_driver"@[0] == 'd' && "disk_driver"@[1] == 'i',
        "error"@.len() == 5 && "error"@[0] == 'e' && "error"@[1] == 'r',
        "eula"@.len() == 4 && "eula"@[0] == 'e' && "eula"@[1] == 'u',
        "files"@.len() == 5 && "files"@[0] == 'f' && "files"@[1] == 'i',
        "generate_password"@.len() == 17 && "generate_password"@[0] == 'g' && "generate_password"@[1] == 'e',
        "homepage"@.len() == 8 && "homepage"@[0] == 'h' && "homepage"@[1] == 'o',
        "icon"@.len() == 4 && "icon"@[0] == 'i' && "icon"@[1] == 'c',
        "image_size"@.len() == 10 && "image_size"@[0] == 'i' && "image_size"@[1] == 'm',
        "inherited_directories"@.len() == 21 && "inherited_directories"@[0] == 'i' && "inherited_directories"@[1] == 'n',
        "max_platform"@.len() == 12 && "max_platform"@[0] == 'm' && "max_platform"@[1] == 'a',
        "max_ram"@.len() == 7 && "max_ram"@[0] == 'm' && "max_ram"@[1] == 'a',
        "min_platform"@.len() == 12 && "min_platform"@[0] == 'm' && "min_platform"@[1] == 'i',
        "min_ram"@.len() == 7 && "min_ram"@[0] == 'm' && "min_ram"@[1] == 'i',
        "name"@.len() == 4 && "name"@[0] == 'n' && "name"@[1] == 'a',
        "networks"@.len() == 8 && "networks"@[0] == 'n' && "networks"@[1] == 'e',
        "nic_driver"@.len() == 10 && "nic_driver"@[0] == 'n' && "nic_driver"@[1] == 'i',
        "origin"@.len() == 6 && "origin"@[0] == 'o' && "origin"@[1] == 'r',
        "os"@.len() == 2 && "os"@[0] == 'o' && "os"@[1] == 's',
        "owner"@.len() == 5 && "owner"@[0] == 'o' && "owner"@[1] == 'w',
        "public"@.len() == 6 && "public"@[0] == 'p' && "public"@[1] == 'u',
        "published_at"@.len() == 12 && "published_at"@[0] == 'p' && "published_at"@[1] == 'u',
        "requirements"@.len() == 12 && "requirements"@[0] == 'r' && "requirements"@[1] == 'e',
        "ssh_key"@.len() == 7 && "ssh_key"@[0] == 's' && "ssh_key"@[1] == 's',
        "state"@.len() == 5 && "state"@[0] == 's' && "state"@[1] == 't',
        "tags"@.len() == 4 && "tags"@[0] == 't' && "tags"@[1] == 'a',
        "traits"@.len() == 6 && "traits"@[0] == 't' && "traits"@[1] == 'r',
        "type"@.len() == 4 && "type"@[0] == 't' && "type"@[1] == 'y',
        "users"@.len() == 5 && "users"@[0] == 'u' && "users"@[1] == 's',
        "uuid"@.len() == 4 && "uuid"@[0] == 'u' && "uuid"@[1] == 'u',
        "v"@.len() == 1 && "v"@[0] == 'v',
        "version"@.len() == 7 && "version"@[0] == 'v' && "version"@[1] == 'e',
{
    reveal_strlit("acl");
    reveal_strlit("billing_tags");
    reveal_strlit("bootrom");
    reveal_strlit("brand");
    reveal_strlit("channels");
    reveal_strlit("cpu_type");
    reveal_strlit("description");
    reveal_strlit("disabled");
    reveal_strlit("disk_driver");
    reveal_strlit("error");
    reveal_strlit("eula");
    reveal_strlit("files");
    reveal_strlit("generate_password");
    reveal_strlit("homepage");
    reveal_strlit("icon");
    reveal_strlit("image_size");
    reveal_strlit("inherited_directories");
    reveal_strlit("max_platform");
    reveal_strlit("max_ram");
    reveal_strlit("min_platform");
    reveal_strlit("min_ram");
    reveal_strlit("name");
    reveal_strlit("networks");
    reveal_strlit("nic_driver");
    reveal_strlit("origin");
    reveal_strlit("os");
    reveal_strlit("owner");
    reveal_strlit("public");
    reveal_strlit("published_at");
    reveal_strlit("requirements");
    reveal_strlit("ssh_key");
    reveal_strlit("state");
    reveal_strlit("tags");
    reveal_strlit("traits");
    reveal_strlit("type");
    reveal_strlit("users");
    reveal_strlit("uuid");
    reveal_strlit("v");
    reveal_strlit("version");
}

/// Whether the platform maps of a requirements record have distinct keys,
/// as the maps of `indexmap` always do.
pub open spec fn requirements_keys_distinct(x: ImageRequirements) -> bool {
    (x.min_platform matches Some(m) ==> keys_distinct(entries_of(m))) && (x.max_platform matches Some(
        m,
    ) ==> keys_distinct(entries_of(m)))
}

/// Whether the maps of a manifest have distinct keys, as the maps of
/// `indexmap` always do.
pub open spec fn manifest_keys_distinct(x: Manifest) -> bool {
    (x.tags matches Some(m) ==> keys_distinct(entries_of(m))) && (x.requirements matches Some(r)
        ==> requirements_keys_distinct(r))
}

/// The model of an `ImageRequirements`.
pub ghost struct RequirementsView {
    pub networks: Option<Seq<(Seq<char>, Seq<char>)>>,
    pub brand: Option<Seq<char>>,
    pub ssh_key: Option<bool>,
    pub min_ram: Option<int>,
    pub max_ram: Option<int>,
    pub min_platform: Option<Seq<(Seq<char>, Seq<char>)>>,
    pub max_platform: Option<Seq<(Seq<char>, Seq<char>)>>,
    pub bootrom: Option<ImageRequirementBootRom>,
}

impl View for ImageRequirements {
    type V = RequirementsView;

    open spec fn view(&self) -> RequirementsView {
        RequirementsView {
            networks: match self.networks { Some(x) => Some(model_networks(x@)), None => None },
            brand: opt_string_view(self.brand),
            ssh_key: self.ssh_key,
            min_ram: opt_int_view(self.min_ram),
            max_ram: opt_int_view(self.max_ram),
            min_platform: match self.min_platform { Some(x) => Some(entries_of(x)), None => None },
            max_platform: match self.max_platform { Some(x) => Some(entries_of(x)), None => None },
            bootrom: match self.bootrom { Some(x) => Some(x), None => None },
        }
    }
}

/// The `ImageRequirements` that the members of an object describe.
pub open spec fn dec_requirements_members(ms: Seq<(Seq<char>, Json)>) -> Result<RequirementsView, DecodeError> {
    let networks = dec_optional(lookup(ms, "networks"@), |j: Json| dec_networks(j, "networks"));
    let brand = dec_opt_string(lookup(ms, "brand"@), "brand");
    let ssh_key = dec_opt_bool(lookup(ms, "ssh_key"@), "ssh_key");
    let min_ram = dec_opt_int(lookup(ms, "min_ram"@), "min_ram", i64::MIN as int, i64::MAX as int);
    let max_ram = dec_opt_int(lookup(ms, "max_ram"@), "max_ram", i64::MIN as int, i64::MAX as int);
    let min_platform = dec_optional(lookup(ms, "min_platform"@), |j: Json| dec_string_map(j, "min_platform"));
    let max_platform = dec_optional(lookup(ms, "max_platform"@), |j: Json| dec_string_map(j, "max_platform"));
    let bootrom = dec_optional(lookup(ms, "bootrom"@), |j: Json| dec_bootrom(j, "bootrom"));
    if networks is Err {
        Err(networks->Err_0)
    } else if brand is Err {
        Err(brand->Err_0)
    } else if ssh_key is Err {
        Err(ssh_key->Err_0)
    } else if min_ram is Err {
        Err(min_ram->Err_0)
    } else if max_ram is Err {
        Err(max_ram->Err_0)
    } else if min_platform is Err {
        Err(min_platform->Err_0)
    } else if max_platform is Err {
        Err(max_platform->Err_0)
    } else if bootrom is Err {
        Err(bootrom->Err_0)
    } else {
        Ok(RequirementsView {
            networks: networks->Ok_0,
            brand: brand->Ok_0,
            ssh_key: ssh_key->Ok_0,
            min_ram: min_ram->Ok_0,
            max_ram: max_ram->Ok_0,
            min_platform: min_platform->Ok_0,
            max_platform: max_platform->Ok_0,
            bootrom: bootrom->Ok_0,
        })
    }
}

/// Whether `k` is the key of a member that a `ImageRequirements` is written as.
pub open spec fn is_requirements_key(k: Seq<char>) -> bool {
    k == "networks"@ || k == "brand"@ || k == "ssh_key"@ || k == "min_ram"@ || k == "max_ram"@ || k == "min_platform"@ || k == "max_platform"@ || k == "bootrom"@
}

/// Reads a `ImageRequirements` from the members of an object.
pub fn decode_requirements_members(ms: &Vec<(String, JsonValue)>) -> (r: Result<ImageRequirements, DecodeError>)
    ensures
        r matches Ok(x) ==> dec_requirements_members(members_view(ms@)) == Ok::<_, DecodeError>(x@),
        r matches Err(e) ==> dec_requirements_members(members_view(ms@)) == Err::<RequirementsView, _>(e),
{
    let networks = match get(ms, "networks") {
        Some(JsonValue::Null) => None,
        Some(j) => match decode_networks(j, "networks") {
            Ok(x) => Some(x),
            Err(e) => {
                return Err(e);
            },
        },
        None => None,
    };
    let brand = match decode_opt_string(get(ms, "brand"), "brand") {
        Ok(x) => x,
        Err(e) => {
            return Err(e);
        },
    };
    let ssh_key = match decode_opt_bool(get(ms, "ssh_key"), "ssh_key") {
        Ok(x) => x,
        Err(e) => {
            return Err(e);
        },
    };
    let min_ram = match decode_opt_i64(get(ms, "min_ram"), "min_ram") {
        Ok(x) => x,
        Err(e) => {
            return Err(e);
        },
    };
    let max_ram = match decode_opt_i64(get(ms, "max_ram"), "max_ram") {
        Ok(x) => x,
        Err(e) => {
            return Err(e);
        },
    };
    let min_platform = match get(ms, "min_platform") {
        Some(JsonValue::Null) => None,
        Some(j) => match decode_string_map(j, "min_platform") {
            Ok(x) => Some(x),
            Err(e) => {
                return Err(e);
            },
        },
        None => None,
    };
    let max_platform = match get(ms, "max_platform") {
        Some(JsonValue::Null) => None,
        Some(j) => match decode_string_map(j, "max_platform") {
            Ok(x) => Some(x),
            Err(e) => {
                return Err(e);
            },
        },
        None => None,
    };
    let bootrom = match get(ms, "bootrom") {
        Some(JsonValue::Null) => None,
        Some(j) => match decode_bootrom(j, "bootrom") {
            Ok(x) => Some(x),
            Err(e) => {
                return Err(e);
            },
        },
        None => None,
    };
    Ok(ImageRequirements { networks, brand, ssh_key, min_ram, max_ram, min_platform, max_platform, bootrom })
}

/// Appends the members that this `ImageRequirements` is written as. Other keys look up
/// as before; where none of its keys was there, the members read back as it.
pub fn put_requirements_members(x: &ImageRequirements, ms: &mut Vec<(String, JsonValue)>)
    ensures
        forall|k: Seq<char>| !is_requirements_key(k) ==> #[trigger] lookup(members_view(final(ms)@), k) == lookup(members_view(old(ms)@), k),
        (forall|k: Seq<char>| is_requirements_key(k) ==> #[trigger] lookup(members_view(old(ms)@), k) is None) ==> (requirements_keys_distinct(*x) ==> dec_requirements_members(members_view(final(ms)@)) == Ok::<_, DecodeError>(x@)),
{
    let ghost m0 = members_view(ms@);
    put_opt(
        ms,
        "networks",
        match &x.networks {
            Some(y) => Some(encode_networks(y, Ghost("networks"))),
            None => None,
        },
    );
    put_opt(ms, "brand", match &x.brand { Some(s) => Some(JsonValue::Str(s.clone())), None => None });
    put_opt(ms, "ssh_key", match x.ssh_key { Some(b) => Some(JsonValue::Bool(b)), None => None });
    put_opt(ms, "min_ram", match x.min_ram { Some(n) => Some(JsonValue::Number(n as i128)), None => None });
    put_opt(ms, "max_ram", match x.max_ram { Some(n) => Some(JsonValue::Number(n as i128)), None => None });
    put_opt(
        ms,
        "min_platform",
        match &x.min_platform {
            Some(y) => Some(encode_string_map(y, Ghost("min_platform"))),
            None => None,
        },
    );
    put_opt(
        ms,
        "max_platform",
        match &x.max_platform {
            Some(y) => Some(encode_string_map(y, Ghost("max_platform"))),
            None => None,
        },
    );
    put_opt(
        ms,
        "bootrom",
        match &x.bootrom {
            Some(y) => Some(encode_bootrom(*y)),
            None => None,
        },
    );
    proof {
        lemma_wire_keys();
    }
}

/// A `ImageRequirements` written as an object.
pub open spec fn dec_requirements(j: Json, key: &'static str) -> Result<RequirementsView, DecodeError> {
    match j {
        Json::Object(ms) => dec_requirements_members(ms),
        _ => Err(DecodeError::WrongShape(key)),
    }
}

pub fn decode_requirements(j: &JsonValue, key: &'static str) -> (r: Result<ImageRequirements, DecodeError>)
    ensures
        r matches Ok(x) ==> dec_requirements(j@, key) == Ok::<_, DecodeError>(x@),
        r matches Err(e) ==> dec_requirements(j@, key) == Err::<RequirementsView, _>(e),
{
    match j {
        JsonValue::Object(ms) => {
            proof {
                if let Json::Object(a) = j@ {
                    assert(a =~= members_view(ms@));
                }
            }
            decode_requirements_members(ms)
        },
        _ => Err(DecodeError::WrongShape(key)),
    }
}

pub fn encode_requirements(x: &ImageRequirements, Ghost(key): Ghost<&'static str>) -> (r: JsonValue)
    ensures
        requirements_keys_distinct(*x) ==> dec_requirements(r@, key) == Ok::<_, DecodeError>(x@),
{
    let mut ms: Vec<(String, JsonValue)> = Vec::new();
    proof {
        assert(members_view(ms@) =~= Seq::<(Seq<char>, Json)>::empty());
        reveal(lookup);
    }
    put_requirements_members(x, &mut ms);
    object_of(ms)
}

/// The model of an `ImageVMProperties`.
pub ghost struct VmPropertiesView {
    pub nic_driver: NetDrivers,
    pub disk_driver: DiskDrivers,
    pub cpu_type: Seq<char>,
    pub image_size: int,
}

impl View for ImageVMProperties {
    type V = VmPropertiesView;

    open spec fn view(&self) -> VmPropertiesView {
        VmPropertiesView {
            nic_driver: self.nic_driver,
            disk_driver: self.disk_driver,
            cpu_type: self.cpu_type@,
            image_size: self.image_size as int,
        }
    }
}

/// The `ImageVMProperties` that the members of an object describe.
pub open spec fn dec_vm_members(ms: Seq<(Seq<char>, Json)>) -> Result<VmPropertiesView, DecodeError> {
    let nic_driver = dec_required(lookup(ms, "nic_driver"@), "nic_driver", |j: Json| dec_nic_driver(j, "nic_driver"));
    let disk_driver = dec_required(lookup(ms, "disk_driver"@), "disk_driver", |j: Json| dec_disk_driver(j, "disk_driver"));
    let cpu_type = dec_string(lookup(ms, "cpu_type"@), "cpu_type");
    let image_size = dec_int(lookup(ms, "image_size"@), "image_size", 0, u64::MAX as int);
    if nic_driver is Err {
        Err(nic_driver->Err_0)
    } else if disk_driver is Err {
        Err(disk_driver->Err_0)
    } else if cpu_type is Err {
        Err(cpu_type->Err_0)
    } else if image_size is Err {
        Err(image_size->Err_0)
    } else {
        Ok(VmPropertiesView {
            nic_driver: nic_driver->Ok_0,
            disk_driver: disk_driver->Ok_0,
            cpu_type: cpu_type->Ok_0,
            image_size: image_size->Ok_0,
        })
    }
}

/// Whether `k` is the key of a member that a `ImageVMProperties` is written as.
pub open spec fn is_vm_key(k: Seq<char>) -> bool {
    k == "nic_driver"@ || k == "disk_driver"@ || k == "cpu_type"@ || k == "image_size"@
}

/// Reads a `ImageVMProperties` from the members of an object.
pub fn decode_vm_members(ms: &Vec<(String, JsonValue)>) -> (r: Result<ImageVMProperties, DecodeError>)
    ensures
        r matches Ok(x) ==> dec_vm_members(members_view(ms@)) == Ok::<_, DecodeError>(x@),
        r matches Err(e) ==> dec_vm_members(members_view(ms@)) == Err::<VmPropertiesView, _>(e),
{
    let nic_driver = match get(ms, "nic_driver") {
        Some(j) => match decode_nic_driver(j, "nic_driver") {
            Ok(x) => x,
            Err(e) => {
                return Err(e);
            },
        },
        None => {
            return Err(DecodeError::MissingField("nic_driver"));
        },
    };
    let disk_driver = match get(ms, "disk_driver") {
        Some(j) => match decode_disk_driver(j, "disk_driver") {
            Ok(x) => x,
            Err(e) => {
                return Err(e);
            },
        },
        None => {
            return Err(DecodeError::MissingField("disk_driver"));
        },
    };
    let cpu_type = match decode_string(get(ms, "cpu_type"), "cpu_type") {
        Ok(x) => x,
        Err(e) => {
            return Err(e);
        },
    };
    let image_size = match decode_u64(get(ms, "image_size"), "image_size") {
        Ok(x) => x,
        Err(e) => {
            return Err(e);
        },
    };
    Ok(ImageVMProperties { nic_driver, disk_driver, cpu_type, image_size })
}

/// Appends the members that this `ImageVMProperties` is written as. Other keys look up
/// as before; where none of its keys was there, the members read back as it.
pub fn put_vm_members(x: &ImageVMProperties, ms: &mut Vec<(String, JsonValue)>)
    ensures
        forall|k: Seq<char>| !is_vm_key(k) ==> #[trigger] lookup(members_view(final(ms)@), k) == lookup(members_view(old(ms)@), k),
        (forall|k: Seq<char>| is_vm_key(k) ==> #[trigger] lookup(members_view(old(ms)@), k) is None) ==> (true ==> dec_vm_members(members_view(final(ms)@)) == Ok::<_, DecodeError>(x@)),
{
    let ghost m0 = members_view(ms@);
    put_opt(ms, "nic_driver", Some(encode_nic_driver(*&x.nic_driver)));
    put_opt(ms, "disk_driver", Some(encode_disk_driver(*&x.disk_driver)));
    put_opt(ms, "cpu_type", Some(JsonValue::Str(x.cpu_type.clone())));
    put_opt(ms, "image_size", Some(JsonValue::Number(x.image_size as i128)));
    proof {
        lemma_wire_keys();
    }
}

/// Some of the members of a manifest, as read from its wire form.
#[derive(Debug)]
pub struct ManifestIdentity {
    pub v: i32,
    pub uuid: Uuid,
    pub owner: Uuid,
    pub name: String,
    pub version: String,
    pub description: Option<String>,
    pub homepage: Option<WebUrl>,
}

/// The model of a `ManifestIdentity`.
pub ghost struct ManifestIdentityView {
    pub v: int,
    pub uuid: u128,
    pub owner: u128,
    pub name: Seq<char>,
    pub version: Seq<char>,
    pub description: Option<Seq<char>>,
    pub homepage: Option<Seq<char>>,
}

impl View for ManifestIdentity {
    type V = ManifestIdentityView;

    open spec fn view(&self) -> ManifestIdentityView {
        ManifestIdentityView {
            v: self.v as int,
            uuid: self.uuid.value,
            owner: self.owner.value,
            name: self.name@,
            version: self.version@,
            description: opt_string_view(self.description),
            homepage: match self.homepage { Some(x) => Some(x@), None => None },
        }
    }
}

/// The `ManifestIdentity` that the members of an object describe.
pub open spec fn dec_identity_members(ms: Seq<(Seq<char>, Json)>) -> Result<ManifestIdentityView, DecodeError> {
    let v = dec_int(lookup(ms, "v"@), "v", i32::MIN as int, i32::MAX as int);
    let uuid = dec_required(lookup(ms, "uuid"@), "uuid", |j: Json| dec_uuid(j, "uuid"));
    let owner = dec_required(lookup(ms, "owner"@), "owner", |j: Json| dec_uuid(j, "owner"));
    let name = dec_string(lookup(ms, "name"@), "name");
    let version = dec_string(lookup(ms, "version"@), "version");
    let description = dec_opt_string(lookup(ms, "description"@), "description");
    let homepage = dec_optional(lookup(ms, "homepage"@), |j: Json| dec_url(j, "homepage"));
    if v is Err {
        Err(v->Err_0)
    } else if uuid is Err {
        Err(uuid->Err_0)
    } else if owner is Err {
        Err(owner->Err_0)
    } else if name is Err {
        Err(name->Err_0)
    } else if version is Err {
        Err(version->Err_0)
    } else if description is Err {
        Err(description->Err_0)
    } else if homepage is Err {
        Err(homepage->Err_0)
    } else {
        Ok(ManifestIdentityView {
            v: v->Ok_0,
            uuid: uuid->Ok_0,
            owner: owner->Ok_0,
            name: name->Ok_0,
            version: version->Ok_0,
            description: description->Ok_0,
            homepage: homepage->Ok_0,
        })
    }
}

/// Whether `k` is the key of a member that a `ManifestIdentity` is written as.
pub open spec fn is_identity_key(k: Seq<char>) -> bool {
    k == "v"@ || k == "uuid"@ || k == "owner"@ || k == "name"@ || k == "version"@ || k == "description"@ || k == "homepage"@
}

/// Reads a `ManifestIdentity` from the members of an object.
pub fn decode_identity_members(ms: &Vec<(String, JsonValue)>) -> (r: Result<ManifestIdentity, DecodeError>)
    ensures
        r matches Ok(x) ==> dec_identity_members(members_view(ms@)) == Ok::<_, DecodeError>(x@),
        r matches Err(e) ==> dec_identity_members(members_view(ms@)) == Err::<ManifestIdentityView, _>(e),
{
    let v = match decode_i32(get(ms, "v"), "v") {
        Ok(x) => x,
        Err(e) => {
            return Err(e);
        },
    };
    let uuid = match get(ms, "uuid") {
        Some(j) => match decode_uuid(j, "uuid") {
            Ok(x) => x,
            Err(e) => {
                return Err(e);
            },
        },
        None => {
            return Err(DecodeError::MissingField("uuid"));
        },
    };
    let owner = match get(ms, "owner") {
        Some(j) => match decode_uuid(j, "owner") {
            Ok(x) => x,
            Err(e) => {
                return Err(e);
            },
        },
        None => {
            return Err(DecodeError::MissingField("owner"));
        },
    };
    let name = match decode_string(get(ms, "name"), "name") {
        Ok(x) => x,
        Err(e) => {
            return Err(e);
        },
    };
    let version = match decode_string(get(ms, "version"), "version") {
        Ok(x) => x,
        Err(e) => {
            return Err(e);
        },
    };
    let description = match decode_opt_string(get(ms, "description"), "description") {
        Ok(x) => x,
        Err(e) => {
            return Err(e);
        },
    };
    let homepage = match get(ms, "homepage") {
        Some(JsonValue::Null) => None,
        Some(j) => match decode_url(j, "homepage") {
            Ok(x) => Some(x),
            Err(e) => {
                return Err(e);
            },
        },
        None => None,
    };
    Ok(ManifestIdentity { v, uuid, owner, name, version, description, homepage })
}

/// Appends the members that this `ManifestIdentity` is written as. Other keys look up
/// as before; where none of its keys was there, the members read back as it.
pub fn put_identity_members(x: &Manifest, ms: &mut Vec<(String, JsonValue)>)
    ensures
        forall|k: Seq<char>| !is_identity_key(k) ==> #[trigger] lookup(members_view(final(ms)@), k) == lookup(members_view(old(ms)@), k),
        (forall|k: Seq<char>| is_identity_key(k) ==> #[trigger] lookup(members_view(old(ms)@), k) is None) ==> (true ==> dec_identity_members(members_view(final(ms)@)) == Ok::<_, DecodeError>(identity_of(x@))),
{
    let ghost m0 = members_view(ms@);
    put_opt(ms, "v", Some(JsonValue::Number(x.v as i128)));
    put_opt(ms, "uuid", Some(encode_uuid(&x.uuid)));
    put_opt(ms, "owner", Some(encode_uuid(&x.owner)));
    put_opt(ms, "name", Some(JsonValue::Str(x.name.clone())));
    put_opt(ms, "version", Some(JsonValue::Str(x.version.clone())));
    put_opt(ms, "description", match &x.description { Some(s) => Some(JsonValue::Str(s.clone())), None => None });
    put_opt(
        ms,
        "homepage",
        match &x.homepage {
            Some(y) => Some(encode_url(y)),
            None => None,
        },
    );
    proof {
        lemma_wire_keys();
    }
}

/// The part of a manifest's model that a `ManifestIdentity` holds.
pub open spec fn identity_of(m: ManifestView) -> ManifestIdentityView {
    ManifestIdentityView {
        v: m.v,
        uuid: m.uuid,
        owner: m.owner,
        name: m.name,
        version: m.version,
        description: m.description,
        homepage: m.homepage,
    }
}

/// Some of the members of a manifest, as read from its wire form.
#[derive(Debug)]
pub struct ManifestLifecycle {
    pub eula: Option<WebUrl>,
    pub icon: Option<bool>,
    pub state: ImageState,
    pub error: Option<Vec<(String, JsonValue)>>,
    pub disabled: bool,
    pub public: bool,
    pub published_at: Option<Timestamp>,
}

/// The model of a `ManifestLifecycle`.
pub ghost struct ManifestLifecycleView {
    pub eula: Option<Seq<char>>,
    pub icon: Option<bool>,
    pub state: ImageState,
    pub error: Option<Seq<(Seq<char>, Json)>>,
    pub disabled: bool,
    pub public: bool,
    pub published_at: Option<Seq<char>>,
}

impl View for ManifestLifecycle {
    type V = ManifestLifecycleView;

    open spec fn view(&self) -> ManifestLifecycleView {
        ManifestLifecycleView {
            eula: match self.eula { Some(x) => Some(x@), None => None },
            icon: self.icon,
            state: self.state,
            error: match self.error { Some(x) => Some(members_view(x@)), None => None },
            disabled: self.disabled,
            public: self.public,
            published_at: match self.published_at { Some(x) => Some(x@), None => None },
        }
    }
}

/// The `ManifestLifecycle` that the members of an object describe.
pub open spec fn dec_lifecycle_members(ms: Seq<(Seq<char>, Json)>) -> Result<ManifestLifecycleView, DecodeError> {
    let eula = dec_optional(lookup(ms, "eula"@), |j: Json| dec_url(j, "eula"));
    let icon = dec_opt_bool(lookup(ms, "icon"@), "icon");
    let state = dec_required(lookup(ms, "state"@), "state", |j: Json| dec_state(j, "state"));
    let error = dec_optional(lookup(ms, "error"@), |j: Json| dec_object(j, "error"));
    let disabled = dec_bool(lookup(ms, "disabled"@), "disabled");
    let public = dec_bool(lookup(ms, "public"@), "public");
    let published_at = dec_optional(lookup(ms, "published_at"@), |j: Json| dec_timestamp(j, "published_at"));
    if eula is Err {
        Err(eula->Err_0)
    } else if icon is Err {
        Err(icon->Err_0)
    } else if state is Err {
        Err(state->Err_0)
    } else if error is Err {
        Err(error->Err_0)
    } else if disabled is Err {
        Err(disabled->Err_0)
    } else if public is Err {
        Err(public->Err_0)
    } else if published_at is Err {
        Err(published_at->Err_0)
    } else {
        Ok(ManifestLifecycleView {
            eula: eula->Ok_0,
            icon: icon->Ok_0,
            state: state->Ok_0,
            error: error->Ok_0,
            disabled: disabled->Ok_0,
            public: public->Ok_0,
            published_at: published_at->Ok_0,
        })
    }
}

/// Whether `k` is the key of a member that a `ManifestLifecycle` is written as.
pub open spec fn is_lifecycle_key(k: Seq<char>) -> bool {
    k == "eula"@ || k == "icon"@ || k == "state"@ || k == "error"@ || k == "disabled"@ || k == "public"@ || k == "published_at"@
}

/// Reads a `ManifestLifecycle` from the members of an object.
pub fn decode_lifecycle_members(ms: &Vec<(String, JsonValue)>) -> (r: Result<ManifestLifecycle, DecodeError>)
    ensures
        r matches Ok(x) ==> dec_lifecycle_members(members_view(ms@)) == Ok::<_, DecodeError>(x@),
        r matches Err(e) ==> dec_lifecycle_members(members_view(ms@)) == Err::<ManifestLifecycleView, _>(e),
{
    let eula = match get(ms, "eula") {
        Some(JsonValue::Null) => None,
        Some(j) => match decode_url(j, "eula") {
            Ok(x) => Some(x),
            Err(e) => {
                return Err(e);
            },
        },
        None => None,
    };
    let icon = match decode_opt_bool(get(ms, "icon"), "icon") {
        Ok(x) => x,
        Err(e) => {
            return Err(e);
        },
    };
    let state = match get(ms, "state") {
        Some(j) => match decode_state(j, "state") {
            Ok(x) => x,
            Err(e) => {
                return Err(e);
            },
        },
        None => {
            return Err(DecodeError::MissingField("state"));
        },
    };
    let error = match get(ms, "error") {
        Some(JsonValue::Null) => None,
        Some(j) => match decode_object(j, "error") {
            Ok(x) => Some(x),
            Err(e) => {
                return Err(e);
            },
        },
        None => None,
    };
    let disabled = match decode_bool(get(ms, "disabled"), "disabled") {
        Ok(x) => x,
        Err(e) => {
            return Err(e);
        },
    };
    let public = match decode_bool(get(ms, "public"), "public") {
        Ok(x) => x,
        Err(e) => {
            return Err(e);
        },
    };
    let published_at = match get(ms, "published_at") {
        Some(JsonValue::Null) => None,
        Some(j) => match decode_timestamp(j, "published_at") {
            Ok(x) => Some(x),
            Err(e) => {
                return Err(e);
            },
        },
        None => None,
    };
    Ok(ManifestLifecycle { eula, icon, state, error, disabled, public, published_at })
}

/// Appends the members that this `ManifestLifecycle` is written as. Other keys look up
/// as before; where none of its keys was there, the members read back as it.
pub fn put_lifecycle_members(x: &Manifest, ms: &mut Vec<(String, JsonValue)>)
    ensures
        forall|k: Seq<char>| !is_lifecycle_key(k) ==> #[trigger] lookup(members_view(final(ms)@), k) == lookup(members_view(old(ms)@), k),
        (forall|k: Seq<char>| is_lifecycle_key(k) ==> #[trigger] lookup(members_view(old(ms)@), k) is None) ==> (true ==> dec_lifecycle_members(members_view(final(ms)@)) == Ok::<_, DecodeError>(lifecycle_of(x@))),
{
    let ghost m0 = members_view(ms@);
    put_opt(
        ms,
        "eula",
        match &x.eula {
            Some(y) => Some(encode_url(y)),
            None => None,
        },
    );
    put_opt(ms, "icon", match x.icon { Some(b) => Some(JsonValue::Bool(b)), None => None });
    put_opt(ms, "state", Some(encode_state(*&x.state)));
    put_opt(
        ms,
        "error",
        match &x.error {
            Some(y) => Some(encode_object(y)),
            None => None,
        },
    );
    put_opt(ms, "disabled", Some(JsonValue::Bool(x.disabled)));
    put_opt(ms, "public", Some(JsonValue::Bool(x.public)));
    put_opt(
        ms,
        "published_at",
        match &x.published_at {
            Some(y) => Some(encode_timestamp(y)),
            None => None,
        },
    );
    proof {
        lemma_wire_keys();
    }
}

/// The part of a manifest's model that a `ManifestLifecycle` holds.
pub open spec fn lifecycle_of(m: ManifestView) -> ManifestLifecycleView {
    ManifestLifecycleView {
        eula: m.eula,
        icon: m.icon,
        state: m.state,
        error: m.error,
        disabled: m.disabled,
        public: m.public,
        published_at: m.published_at,
    }
}

/// Some of the members of a manifest, as read from its wire form.
#[derive(Debug)]
pub struct ManifestContent {
    pub image_type: ImageType,
    pub os: ImageOs,
    pub origin: Option<Uuid>,
    pub files: Vec<Vec<(String, JsonValue)>>,
    pub acl: Option<Vec<Uuid>>,
    pub requirements: Option<ImageRequirements>,
    pub users: Option<Vec<ImageUsers>>,
}

/// The model of a `ManifestContent`.
pub ghost struct ManifestContentView {
    pub image_type: ImageType,
    pub os: ImageOs,
    pub origin: Option<u128>,
    pub files: Seq<Seq<(Seq<char>, Json)>>,
    pub acl: Option<Seq<u128>>,
    pub requirements: Option<RequirementsView>,
    pub users: Option<Seq<Seq<char>>>,
}

impl View for ManifestContent {
    type V = ManifestContentView;

    open spec fn view(&self) -> ManifestContentView {
        ManifestContentView {
            image_type: self.image_type,
            os: self.os,
            origin: match self.origin { Some(x) => Some(x.value), None => None },
            files: model_objects(self.files@),
            acl: match self.acl { Some(x) => Some(model_uuids(x@)), None => None },
            requirements: match self.requirements { Some(x) => Some(x@), None => None },
            users: match self.users { Some(x) => Some(model_users(x@)), None => None },
        }
    }
}

/// The `ManifestContent` that the members of an object describe.
pub open spec fn dec_content_members(ms: Seq<(Seq<char>, Json)>) -> Result<ManifestContentView, DecodeError> {
    let image_type = dec_required(lookup(ms, "type"@), "type", |j: Json| dec_image_type(j, "type"));
    let os = dec_required(lookup(ms, "os"@), "os", |j: Json| dec_os(j, "os"));
    let origin = dec_optional(lookup(ms, "origin"@), |j: Json| dec_uuid(j, "origin"));
    let files = dec_required(lookup(ms, "files"@), "files", |j: Json| dec_objects(j, "files"));
    let acl = dec_optional(lookup(ms, "acl"@), |j: Json| dec_uuids(j, "acl"));
    let requirements = dec_optional(lookup(ms, "requirements"@), |j: Json| dec_requirements(j, "requirements"));
    let users = dec_optional(lookup(ms, "users"@), |j: Json| dec_users(j, "users"));
    if image_type is Err {
        Err(image_type->Err_0)
    } else if os is Err {
        Err(os->Err_0)
    } else if origin is Err {
        Err(origin->Err_0)
    } else if files is Err {
        Err(files->Err_0)
    } else if acl is Err {
        Err(acl->Err_0)
    } else if requirements is Err {
        Err(requirements->Err_0)
    } else if users is Err {
        Err(users->Err_0)
    } else {
        Ok(ManifestContentView {
            image_type: image_type->Ok_0,
            os: os->Ok_0,
            origin: origin->Ok_0,
            files: files->Ok_0,
            acl: acl->Ok_0,
            requirements: requirements->Ok_0,
            users: users->Ok_0,
        })
    }
}

/// Whether `k` is the key of a member that a `ManifestContent` is written as.
pub open spec fn is_content_key(k: Seq<char>) -> bool {
    k == "type"@ || k == "os"@ || k == "origin"@ || k == "files"@ || k == "acl"@ || k == "requirements"@ || k == "users"@
}

/// Reads a `ManifestContent` from the members of an object.
pub fn decode_content_members(ms: &Vec<(String, JsonValue)>) -> (r: Result<ManifestContent, DecodeError>)
    ensures
        r matches Ok(x) ==> dec_content_members(members_view(ms@)) == Ok::<_, DecodeError>(x@),
        r matches Err(e) ==> dec_content_members(members_view(ms@)) == Err::<ManifestContentView, _>(e),
{
    let image_type = match get(ms, "type") {
        Some(j) => match decode_image_type(j, "type") {
            Ok(x) => x,
            Err(e) => {
                return Err(e);
            },
        },
        None => {
            return Err(DecodeError::MissingField("type"));
        },
    };
    let os = match get(ms, "os") {
        Some(j) => match decode_os(j, "os") {
            Ok(x) => x,
            Err(e) => {
                return Err(e);
            },
        },
        None => {
            return Err(DecodeError::MissingField("os"));
        },
    };
    let origin = match get(ms, "origin") {
        Some(JsonValue::Null) => None,
        Some(j) => match decode_uuid(j, "origin") {
            Ok(x) => Some(x),
            Err(e) => {
                return Err(e);
            },
        },
        None => None,
    };
    let files = match get(ms, "files") {
        Some(j) => match decode_objects(j, "files") {
            Ok(x) => x,
            Err(e) => {
                return Err(e);
            },
        },
        None => {
            return Err(DecodeError::MissingField("files"));
        },
    };
    let acl = match get(ms, "acl") {
        Some(JsonValue::Null) => None,
        Some(j) => match decode_uuids(j, "acl") {
            Ok(x) => Some(x),
            Err(e) => {
                return Err(e);
            },
        },
        None => None,
    };
    let requirements = match get(ms, "requirements") {
        Some(JsonValue::Null) => None,
        Some(j) => match decode_requirements(j, "requirements") {
            Ok(x) => Some(x),
            Err(e) => {
                return Err(e);
            },
        },
        None => None,
    };
    let users = match get(ms, "users") {
        Some(JsonValue::Null) => None,
        Some(j) => match decode_users(j, "users") {
            Ok(x) => Some(x),
            Err(e) => {
                return Err(e);
            },
        },
        None => None,
    };
    Ok(ManifestContent { image_type, os, origin, files, acl, requirements, users })
}

/// Appends the members that this `ManifestContent` is written as. Other keys look up
/// as before; where none of its keys was there, the members read back as it.
pub fn put_content_members(x: &Manifest, ms: &mut Vec<(String, JsonValue)>)
    ensures
        forall|k: Seq<char>| !is_content_key(k) ==> #[trigger] lookup(members_view(final(ms)@), k) == lookup(members_view(old(ms)@), k),
        (forall|k: Seq<char>| is_content_key(k) ==> #[trigger] lookup(members_view(old(ms)@), k) is None) ==> (manifest_keys_distinct(*x) ==> dec_content_members(members_view(final(ms)@)) == Ok::<_, DecodeError>(content_of(x@))),
{
    let ghost m0 = members_view(ms@);
    put_opt(ms, "type", Some(encode_image_type(*&x.image_type)));
    put_opt(ms, "os", Some(encode_os(*&x.os)));
    put_opt(
        ms,
        "origin",
        match &x.origin {
            Some(y) => Some(encode_uuid(y)),
            None => None,
        },
    );
    put_opt(ms, "files", Some(encode_objects(&x.files, Ghost("files"))));
    put_opt(
        ms,
        "acl",
        match &x.acl {
            Some(y) => Some(encode_uuids(y, Ghost("acl"))),
            None => None,
        },
    );
    put_opt(
        ms,
        "requirements",
        match &x.requirements {
            Some(y) => Some(encode_requirements(y, Ghost("requirements"))),
            None => None,
        },
    );
    put_opt(
        ms,
        "users",
        match &x.users {
            Some(y) => Some(encode_users(y, Ghost("users"))),
            None => None,
        },
    );
    proof {
        lemma_wire_keys();
    }
}

/// The part of a manifest's model that a `ManifestContent` holds.
pub open spec fn content_of(m: ManifestView) -> ManifestContentView {
    ManifestContentView {
        image_type: m.image_type,
        os: m.os,
        origin: m.origin,
        files: m.files,
        acl: m.acl,
        requirements: m.requirements,
        users: m.users,
    }
}

/// Some of the members of a manifest, as read from its wire form.
#[derive(Debug)]
pub struct ManifestExtras {
    pub billing_tags: Option<Vec<String>>,
    pub traits: Option<Vec<String>>,
    pub tags: Option<IndexMap<String, String>>,
    pub generate_password: Option<bool>,
    pub inherited_directories: Option<Vec<String>>,
    pub channels: Option<Vec<String>>,
    pub vm_image_properties: Option<ImageVMProperties>,
}

/// The model of a `ManifestExtras`.
pub ghost struct ManifestExtrasView {
    pub billing_tags: Option<Seq<Seq<char>>>,
    pub traits: Option<Seq<Seq<char>>>,
    pub tags: Option<Seq<(Seq<char>, Seq<char>)>>,
    pub generate_password: Option<bool>,
    pub inherited_directories: Option<Seq<Seq<char>>>,
    pub channels: Option<Seq<Seq<char>>>,
    pub vm_image_properties: Option<VmPropertiesView>,
}

impl View for ManifestExtras {
    type V = ManifestExtrasView;

    open spec fn view(&self) -> ManifestExtrasView {
        ManifestExtrasView {
            billing_tags: match self.billing_tags { Some(x) => Some(model_strings(x@)), None => None },
            traits: match self.traits { Some(x) => Some(model_strings(x@)), None => None },
            tags: match self.tags { Some(x) => Some(entries_of(x)), None => None },
            generate_password: self.generate_password,
            inherited_directories: match self.inherited_directories { Some(x) => Some(model_strings(x@)), None => None },
            channels: match self.channels { Some(x) => Some(model_strings(x@)), None => None },
            vm_image_properties: match self.vm_image_properties { Some(x) => Some(x@), None => None },
        }
    }
}

/// The `ManifestExtras` that the members of an object describe.
pub open spec fn dec_extras_members(ms: Seq<(Seq<char>, Json)>) -> Result<ManifestExtrasView, DecodeError> {
    let billing_tags = dec_optional(lookup(ms, "billing_tags"@), |j: Json| dec_strings(j, "billing_tags"));
    let traits = dec_optional(lookup(ms, "traits"@), |j: Json| dec_strings(j, "traits"));
    let tags = dec_optional(lookup(ms, "tags"@), |j: Json| dec_string_map(j, "tags"));
    let generate_password = dec_opt_bool(lookup(ms, "generate_password"@), "generate_password");
    let inherited_directories = dec_optional(lookup(ms, "inherited_directories"@), |j: Json| dec_strings(j, "inherited_directories"));
    let channels = dec_optional(lookup(ms, "channels"@), |j: Json| dec_strings(j, "channels"));
    let vm_image_properties = if has_vm_member(ms) { match dec_vm_members(ms) { Ok(v) => Ok(Some(v)), Err(e) => Err(e) } } else { Ok(None) };
    if billing_tags is Err {
        Err(billing_tags->Err_0)
    } else if traits is Err {
        Err(traits->Err_0)
    } else if tags is Err {
        Err(tags->Err_0)
    } else if generate_password is Err {
        Err(generate_password->Err_0)
    } else if inherited_directories is Err {
        Err(inherited_directories->Err_0)
    } else if channels is Err {
        Err(channels->Err_0)
    } else if vm_image_properties is Err {
        Err(vm_image_properties->Err_0)
    } else {
        Ok(ManifestExtrasView {
            billing_tags: billing_tags->Ok_0,
            traits: traits->Ok_0,
            tags: tags->Ok_0,
            generate_password: generate_password->Ok_0,
            inherited_directories: inherited_directories->Ok_0,
            channels: channels->Ok_0,
            vm_image_properties: vm_image_properties->Ok_0,
        })
    }
}

/// Whether `k` is the key of a member that a `ManifestExtras` is written as.
pub open spec fn is_extras_key(k: Seq<char>) -> bool {
    k == "billing_tags"@ || k == "traits"@ || k == "tags"@ || k == "generate_password"@ || k == "inherited_directories"@ || k == "channels"@ || is_vm_key(k)
}

/// Reads a `ManifestExtras` from the members of an object.
pub fn decode_extras_members(ms: &Vec<(String, JsonValue)>) -> (r: Result<ManifestExtras, DecodeError>)
    ensures
        r matches Ok(x) ==> dec_extras_members(members_view(ms@)) == Ok::<_, DecodeError>(x@),
        r matches Err(e) ==> dec_extras_members(members_view(ms@)) == Err::<ManifestExtrasView, _>(e),
{
    let billing_tags = match get(ms, "billing_tags") {
        Some(JsonValue::Null) => None,
        Some(j) => match decode_strings(j, "billing_tags") {
            Ok(x) => Some(x),
            Err(e) => {
                return Err(e);
            },
        },
        None => None,
    };
    let traits = match get(ms, "traits") {
        Some(JsonValue::Null) => None,
        Some(j) => match decode_strings(j, "traits") {
            Ok(x) => Some(x),
            Err(e) => {
                return Err(e);
            },
        },
        None => None,
    };
    let tags = match get(ms, "tags") {
        Some(JsonValue::Null) => None,
        Some(j) => match decode_string_map(j, "tags") {
            Ok(x) => Some(x),
            Err(e) => {
                return Err(e);
            },
        },
        None => None,
    };
    let generate_password = match decode_opt_bool(get(ms, "generate_password"), "generate_password") {
        Ok(x) => x,
        Err(e) => {
            return Err(e);
        },
    };
    let inherited_directories = match get(ms, "inherited_directories") {
        Some(JsonValue::Null) => None,
        Some(j) => match decode_strings(j, "inherited_directories") {
            Ok(x) => Some(x),
            Err(e) => {
                return Err(e);
            },
        },
        None => None,
    };
    let channels = match get(ms, "channels") {
        Some(JsonValue::Null) => None,
        Some(j) => match decode_strings(j, "channels") {
            Ok(x) => Some(x),
            Err(e) => {
                return Err(e);
            },
        },
        None => None,
    };
    let vm_image_properties = if has_member(ms, "nic_driver") || has_member(ms, "disk_driver") || has_member(ms, "cpu_type") || has_member(ms, "image_size") {
        match decode_vm_members(ms) {
            Ok(x) => Some(x),
            Err(e) => {
                return Err(e);
            },
        }
    } else {
        None
    };
    Ok(ManifestExtras { billing_tags, traits, tags, generate_password, inherited_directories, channels, vm_image_properties })
}

/// Appends the members that this `ManifestExtras` is written as. Other keys look up
/// as before; where none of its keys was there, the members read back as it.
pub fn put_extras_members(x: &Manifest, ms: &mut Vec<(String, JsonValue)>)
    ensures
        forall|k: Seq<char>| !is_extras_key(k) ==> #[trigger] lookup(members_view(final(ms)@), k) == lookup(members_view(old(ms)@), k),
        (forall|k: Seq<char>| is_extras_key(k) ==> #[trigger] lookup(members_view(old(ms)@), k) is None) ==> (manifest_keys_distinct(*x) ==> dec_extras_members(members_view(final(ms)@)) == Ok::<_, DecodeError>(extras_of(x@))),
{
    let ghost m0 = members_view(ms@);
    put_opt(
        ms,
        "billing_tags",
        match &x.billing_tags {
            Some(y) => Some(encode_strings(y, Ghost("billing_tags"))),
            None => None,
        },
    );
    put_opt(
        ms,
        "traits",
        match &x.traits {
            Some(y) => Some(encode_strings(y, Ghost("traits"))),
            None => None,
        },
    );
    put_opt(
        ms,
        "tags",
        match &x.tags {
            Some(y) => Some(encode_string_map(y, Ghost("tags"))),
            None => None,
        },
    );
    put_opt(ms, "generate_password", match x.generate_password { Some(b) => Some(JsonValue::Bool(b)), None => None });
    put_opt(
        ms,
        "inherited_directories",
        match &x.inherited_directories {
            Some(y) => Some(encode_strings(y, Ghost("inherited_directories"))),
            None => None,
        },
    );
    put_opt(
        ms,
        "channels",
        match &x.channels {
            Some(y) => Some(encode_strings(y, Ghost("channels"))),
            None => None,
        },
    );
    match &x.vm_image_properties {
        Some(y) => put_vm_members(y, ms),
        None => {},
    }
    proof {
        lemma_wire_keys();
    }
}

/// The part of a manifest's model that a `ManifestExtras` holds.
pub open spec fn extras_of(m: ManifestView) -> ManifestExtrasView {
    ManifestExtrasView {
        billing_tags: m.billing_tags,
        traits: m.traits,
        tags: m.tags,
        generate_password: m.generate_password,
        inherited_directories: m.inherited_directories,
        channels: m.channels,
        vm_image_properties: m.vm_image_properties,
    }
}

/// The model of a `Manifest`.
pub ghost struct ManifestView {
    pub v: int,
    pub uuid: u128,
    pub owner: u128,
    pub name: Seq<char>,
    pub version: Seq<char>,
    pub description: Option<Seq<char>>,
    pub homepage: Option<Seq<char>>,
    pub eula: Option<Seq<char>>,
    pub icon: Option<bool>,
    pub state: ImageState,
    pub error: Option<Seq<(Seq<char>, Json)>>,
    pub disabled: bool,
    pub public: bool,
    pub published_at: Option<Seq<char>>,
    pub image_type: ImageType,
    pub os: ImageOs,
    pub origin: Option<u128>,
    pub files: Seq<Seq<(Seq<char>, Json)>>,
    pub acl: Option<Seq<u128>>,
    pub requirements: Option<RequirementsView>,
    pub users: Option<Seq<Seq<char>>>,
    pub billing_tags: Option<Seq<Seq<char>>>,
    pub traits: Option<Seq<Seq<char>>>,
    pub tags: Option<Seq<(Seq<char>, Seq<char>)>>,
    pub generate_password: Option<bool>,
    pub inherited_directories: Option<Seq<Seq<char>>>,
    pub channels: Option<Seq<Seq<char>>>,
    pub vm_image_properties: Option<VmPropertiesView>,
}

impl View for Manifest {
    type V = ManifestView;

    open spec fn view(&self) -> ManifestView {
        ManifestView {
            v: self.v as int,
            uuid: self.uuid.value,
            owner: self.owner.value,
            name: self.name@,
            version: self.version@,
            description: opt_string_view(self.description),
            homepage: match self.homepage { Some(x) => Some(x@), None => None },
            eula: match self.eula { Some(x) => Some(x@), None => None },
            icon: self.icon,
            state: self.state,
            error: match self.error { Some(x) => Some(members_view(x@)), None => None },
            disabled: self.disabled,
            public: self.public,
            published_at: match self.published_at { Some(x) => Some(x@), None => None },
            image_type: self.image_type,
            os: self.os,
            origin: match self.origin { Some(x) => Some(x.value), None => None },
            files: model_objects(self.files@),
            acl: match self.acl { Some(x) => Some(model_uuids(x@)), None => None },
            requirements: match self.requirements { Some(x) => Some(x@), None => None },
            users: match self.users { Some(x) => Some(model_users(x@)), None => None },
            billing_tags: match self.billing_tags { Some(x) => Some(model_strings(x@)), None => None },
            traits: match self.traits { Some(x) => Some(model_strings(x@)), None => None },
            tags: match self.tags { Some(x) => Some(entries_of(x)), None => None },
            generate_password: self.generate_password,
            inherited_directories: match self.inherited_directories { Some(x) => Some(model_strings(x@)), None => None },
            channels: match self.channels { Some(x) => Some(model_strings(x@)), None => None },
            vm_image_properties: match self.vm_image_properties { Some(x) => Some(x@), None => None },
        }
    }
}

/// The `Manifest` that the members of an object describe.
pub open spec fn dec_manifest_members(ms: Seq<(Seq<char>, Json)>) -> Result<ManifestView, DecodeError> {
    let identity = dec_identity_members(ms);
    let lifecycle = dec_lifecycle_members(ms);
    let content = dec_content_members(ms);
    let extras = dec_extras_members(ms);
    if identity is Err {
        Err(identity->Err_0)
    } else if lifecycle is Err {
        Err(lifecycle->Err_0)
    } else if content is Err {
        Err(content->Err_0)
    } else if extras is Err {
        Err(extras->Err_0)
    } else {
        Ok(ManifestView {
            v: identity->Ok_0.v,
            uuid: identity->Ok_0.uuid,
            owner: identity->Ok_0.owner,
            name: identity->Ok_0.name,
            version: identity->Ok_0.version,
            description: identity->Ok_0.description,
            homepage: identity->Ok_0.homepage,
            eula: lifecycle->Ok_0.eula,
            icon: lifecycle->Ok_0.icon,
            state: lifecycle->Ok_0.state,
            error: lifecycle->Ok_0.error,
            disabled: lifecycle->Ok_0.disabled,
            public: lifecycle->Ok_0.public,
            published_at: lifecycle->Ok_0.published_at,
            image_type: content->Ok_0.image_type,
            os: content->Ok_0.os,
            origin: content->Ok_0.origin,
            files: content->Ok_0.files,
            acl: content->Ok_0.acl,
            requirements: content->Ok_0.requirements,
            users: content->Ok_0.users,
            billing_tags: extras->Ok_0.billing_tags,
            traits: extras->Ok_0.traits,
            tags: extras->Ok_0.tags,
            generate_password: extras->Ok_0.generate_password,
            inherited_directories: extras->Ok_0.inherited_directories,
            channels: extras->Ok_0.channels,
            vm_image_properties: extras->Ok_0.vm_image_properties,
        })
    }
}

/// Reads a `Manifest` from the members of an object.
#[verifier::rlimit(100)]
#[verifier::spinoff_prover]
pub fn decode_manifest_members(ms: &Vec<(String, JsonValue)>) -> (r: Result<Manifest, DecodeError>)
    ensures
        r matches Ok(x) ==> dec_manifest_members(members_view(ms@)) == Ok::<_, DecodeError>(x@),
        r matches Err(e) ==> dec_manifest_members(members_view(ms@)) == Err::<ManifestView, _>(e),
{
    let identity = match decode_identity_members(ms) {
        Ok(x) => x,
        Err(e) => {
            return Err(e);
        },
    };
    let lifecycle = match decode_lifecycle_members(ms) {
        Ok(x) => x,
        Err(e) => {
            return Err(e);
        },
    };
    let content = match decode_content_members(ms) {
        Ok(x) => x,
        Err(e) => {
            return Err(e);
        },
    };
    let extras = match decode_extras_members(ms) {
        Ok(x) => x,
        Err(e) => {
            return Err(e);
        },
    };
    Ok(Manifest {
        v: identity.v,
        uuid: identity.uuid,
        owner: identity.owner,
        name: identity.name,
        version: identity.version,
        description: identity.description,
        homepage: identity.homepage,
        eula: lifecycle.eula,
        icon: lifecycle.icon,
        state: lifecycle.state,
        error: lifecycle.error,
        disabled: lifecycle.disabled,
        public: lifecycle.public,
        published_at: lifecycle.published_at,
        image_type: content.image_type,
        os: content.os,
        origin: content.origin,
        files: content.files,
        acl: content.acl,
        requirements: content.requirements,
        users: content.users,
        billing_tags: extras.billing_tags,
        traits: extras.traits,
        tags: extras.tags,
        generate_password: extras.generate_password,
        inherited_directories: extras.inherited_directories,
        channels: extras.channels,
        vm_image_properties: extras.vm_image_properties,
    })
}

/// Whether `k` is the key of a member that a `Manifest` is written as.
pub open spec fn is_manifest_key(k: Seq<char>) -> bool {
    is_identity_key(k) || is_lifecycle_key(k) || is_content_key(k) || is_extras_key(k)
}

/// Appends the members that a `Manifest` is written as. Other keys look up
/// as before; where none of its keys was there, the members read back as it.
#[verifier::rlimit(100)]
#[verifier::spinoff_prover]
pub fn put_manifest_members(x: &Manifest, ms: &mut Vec<(String, JsonValue)>)
    ensures
        forall|k: Seq<char>| !is_manifest_key(k) ==> #[trigger] lookup(members_view(final(ms)@), k) == lookup(members_view(old(ms)@), k),
        (forall|k: Seq<char>| is_manifest_key(k) ==> #[trigger] lookup(members_view(old(ms)@), k) is None) ==> (manifest_keys_distinct(*x) ==> dec_manifest_members(members_view(final(ms)@)) == Ok::<_, DecodeError>(x@)),
{
    proof {
        lemma_wire_keys();
    }
    let ghost m0 = members_view(ms@);
    put_identity_members(x, ms);
    let ghost m1 = members_view(ms@);
    put_lifecycle_members(x, ms);
    let ghost m2 = members_view(ms@);
    put_content_members(x, ms);
    let ghost m3 = members_view(ms@);
    put_extras_members(x, ms);
    let ghost m4 = members_view(ms@);
    proof {
        assert(lookup(m4, "v"@) == lookup(m1, "v"@));
        assert(lookup(m4, "uuid"@) == lookup(m1, "uuid"@));
        assert(lookup(m4, "owner"@) == lookup(m1, "owner"@));
        assert(lookup(m4, "name"@) == lookup(m1, "name"@));
        assert(lookup(m4, "version"@) == lookup(m1, "version"@));
        assert(lookup(m4, "description"@) == lookup(m1, "description"@));
        assert(lookup(m4, "homepage"@) == lookup(m1, "homepage"@));
        assert(lookup(m4, "eula"@) == lookup(m2, "eula"@));
        assert(lookup(m4, "icon"@) == lookup(m2, "icon"@));
        assert(lookup(m4, "state"@) == lookup(m2, "state"@));
        assert(lookup(m4, "error"@) == lookup(m2, "error"@));
        assert(lookup(m4, "disabled"@) == lookup(m2, "disabled"@));
        assert(lookup(m4, "public"@) == lookup(m2, "public"@));
        assert(lookup(m4, "published_at"@) == lookup(m2, "published_at"@));
        assert(lookup(m4, "type"@) == lookup(m3, "type"@));
        assert(lookup(m4, "os"@) == lookup(m3, "os"@));
        assert(lookup(m4, "origin"@) == lookup(m3, "origin"@));
        assert(lookup(m4, "files"@) == lookup(m3, "files"@));
        assert(lookup(m4, "acl"@) == lookup(m3, "acl"@));
        assert(lookup(m4, "requirements"@) == lookup(m3, "requirements"@));
        assert(lookup(m4, "users"@) == lookup(m3, "users"@));
        assert(lookup(m4, "billing_tags"@) == lookup(m4, "billing_tags"@));
        assert(lookup(m4, "traits"@) == lookup(m4, "traits"@));
        assert(lookup(m4, "tags"@) == lookup(m4, "tags"@));
        assert(lookup(m4, "generate_password"@) == lookup(m4, "generate_password"@));
        assert(lookup(m4, "inherited_directories"@) == lookup(m4, "inherited_directories"@));
        assert(lookup(m4, "channels"@) == lookup(m4, "channels"@));
        assert(lookup(m4, "nic_driver"@) == lookup(m4, "nic_driver"@));
        assert(lookup(m4, "disk_driver"@) == lookup(m4, "disk_driver"@));
        assert(lookup(m4, "cpu_type"@) == lookup(m4, "cpu_type"@));
        assert(lookup(m4, "image_size"@) == lookup(m4, "image_size"@));
    }
}

/// A manifest written as an object; `key` names nothing here, as the
/// manifest is the whole document.
pub open spec fn dec_manifest(j: Json) -> Result<ManifestView, DecodeError> {
    match j {
        Json::Object(ms) => dec_manifest_members(ms),
        _ => Err(DecodeError::WrongShape("")),
    }
}

impl Manifest {
    /// Reads a manifest from its wire form.
    pub fn from_json(j: &JsonValue) -> (r: Result<Manifest, DecodeError>)
        ensures
            r matches Ok(m) ==> dec_manifest(j@) == Ok::<_, DecodeError>(m@),
            r matches Err(e) ==> dec_manifest(j@) == Err::<ManifestView, _>(e),
    {
        match j {
            JsonValue::Object(ms) => {
                proof {
                    if let Json::Object(a) = j@ {
                        assert(a =~= members_view(ms@));
                    }
                }
                decode_manifest_members(ms)
            },
            _ => Err(DecodeError::WrongShape("")),
        }
    }

    /// Writes this manifest in its wire form, which reads back as the same
    /// manifest.
    pub fn to_json(&self) -> (r: JsonValue)
        ensures
            manifest_keys_distinct(*self) ==> dec_manifest(r@) == Ok::<_, DecodeError>(self@),
    {
        let mut ms: Vec<(String, JsonValue)> = Vec::new();
        proof {
            assert(members_view(ms@) =~= Seq::<(Seq<char>, Json)>::empty());
            reveal(lookup);
        }
        put_manifest_members(self, &mut ms);
        object_of(ms)
    }
}

/// A wire object whose `type` is not the wire string of an image type does
/// not decode: it never falls back to the default type.
pub proof fn lemma_unknown_type_refused(ms: Seq<(Seq<char>, Json)>, s: Seq<char>)
    requires
        lookup(ms, "type"@) == Some(Json::Str(s)),
        ImageType::spec_parse(s) is None,
    ensures
        dec_manifest(Json::Object(ms)) is Err,
{
}

} // verus!

use imgapi::enums::{DiskDrivers, ImageRequirementBootRom, ImageState, ImageType, NetDrivers};
use imgapi::error::DecodeError;
use imgapi::ids::{Timestamp, Uuid, WebUrl};
use imgapi::json::JsonValue;
use imgapi::manifest::{Manifest, ManifestBuilder};
use imgapi::values::{ImageRequirementsBuilder, ImageUsers, ImageVMPropertiesBuilder, RequirementNetworksBuilder};

fn member<'a>(j: &'a JsonValue, key: &str) -> Option<&'a JsonValue> {
    match j {
        JsonValue::Object(ms) => ms.iter().rev().find(|(k, _)| k == key).map(|(_, v)| v),
        _ => None,
    }
}

fn text(j: Option<&JsonValue>) -> Option<String> {
    match j {
        Some(JsonValue::Str(s)) => Some(s.clone()),
        _ => None,
    }
}

fn set_member(j: &mut JsonValue, key: &str, value: JsonValue) {
    if let JsonValue::Object(ms) = j {
        ms.retain(|(k, _)| k != key);
        ms.push((key.to_string(), value));
    }
}

fn remove_member(j: &mut JsonValue, key: &str) {
    if let JsonValue::Object(ms) = j {
        ms.retain(|(k, _)| k != key);
    }
}

fn zvol_manifest() -> Manifest {
    let vm = ImageVMPropertiesBuilder::new()
        .nic_driver(NetDrivers::Virtio)
        .disk_driver(DiskDrivers::Virtio)
        .cpu_type("default")
        .image_size(0)
        .build()
        .unwrap();
    ManifestBuilder::new()
        .name("blubber")
        .version("0.1.0")
        .image_type(ImageType::Zvol)
        .vm_image_properties(vm)
        .build()
        .unwrap()
}

#[test]
fn zvol_manifest_wire_form() {
    let j = zvol_manifest().to_json();
    assert_eq!(text(member(&j, "type")), Some(String::from("zvol")));
    assert_eq!(text(member(&j, "nic_driver")), Some(String::from("virtio")));
    assert_eq!(text(member(&j, "disk_driver")), Some(String::from("virtio")));
    assert_eq!(text(member(&j, "cpu_type")), Some(String::from("default")));
    assert!(matches!(member(&j, "image_size"), Some(JsonValue::Number(0))));
    assert!(member(&j, "image_type").is_none());
    assert!(member(&j, "vm_image_properties").is_none());
    assert!(member(&j, "description").is_none());
    assert_eq!(text(member(&j, "state")), Some(String::from("creating")));
    assert_eq!(text(member(&j, "uuid")), Some(String::from("00000000-0000-0000-0000-000000000000")));
    assert!(matches!(member(&j, "v"), Some(JsonValue::Number(2))));
}

#[test]
fn manifest_round_trip() {
    let m = zvol_manifest();
    let back = Manifest::from_json(&m.to_json()).unwrap();
    assert_eq!(back.name, "blubber");
    assert_eq!(back.version, "0.1.0");
    assert_eq!(back.image_type, ImageType::Zvol);
    assert_eq!(back.state, ImageState::Creating);
    let vm = back.vm_image_properties.unwrap();
    assert_eq!(vm.nic_driver, NetDrivers::Virtio);
    assert_eq!(vm.cpu_type, "default");
    assert_eq!(vm.image_size, 0);
}

#[test]
fn full_manifest_round_trip() {
    let mut tags = indexmap::IndexMap::new();
    tags.insert(String::from("role"), String::from("db"));
    tags.insert(String::from("tier"), String::from("gold"));
    let net = RequirementNetworksBuilder::new().name("net0").description("public").build().unwrap();
    let req = ImageRequirementsBuilder::new()
        .networks(vec![net])
        .min_ram(1024)
        .bootrom(ImageRequirementBootRom::Uefi)
        .build()
        .unwrap();
    let m = ManifestBuilder::new()
        .name("base")
        .version("22.4.0")
        .description("a base image")
        .homepage(WebUrl::parse("https://example.com/base").unwrap())
        .published_at(Timestamp::parse("2022-10-05T12:00:00Z").unwrap())
        .origin(Uuid::from_u128(7))
        .acl(vec![Uuid::from_u128(1), Uuid::from_u128(2)])
        .requirements(req)
        .users(vec![ImageUsers::new("root")])
        .tags(tags)
        .traits(vec![String::from("ssd")])
        .generate_password(true)
        .build()
        .unwrap();
    let back = Manifest::from_json(&m.to_json()).unwrap();
    assert_eq!(back.description, Some(String::from("a base image")));
    assert_eq!(back.homepage.unwrap().as_str(), "https://example.com/base");
    assert_eq!(back.published_at.unwrap().seconds(), 1664971200);
    assert_eq!(back.origin, Some(Uuid::from_u128(7)));
    assert_eq!(back.acl, Some(vec![Uuid::from_u128(1), Uuid::from_u128(2)]));
    let r = back.requirements.unwrap();
    assert_eq!(r.min_ram, Some(1024));
    assert_eq!(r.bootrom, Some(ImageRequirementBootRom::Uefi));
    assert_eq!(r.networks.unwrap()[0].description, "public");
    assert_eq!(back.users.unwrap()[0].name, "root");
    let t = back.tags.unwrap();
    assert_eq!(t.get_index(0), Some((&String::from("role"), &String::from("db"))));
    assert_eq!(t.get_index(1), Some((&String::from("tier"), &String::from("gold"))));
    assert_eq!(back.traits, Some(vec![String::from("ssd")]));
    assert_eq!(back.generate_password, Some(true));
    assert!(back.vm_image_properties.is_none());
}

#[test]
fn unknown_type_is_refused() {
    let mut j = zvol_manifest().to_json();
    set_member(&mut j, "type", JsonValue::Str(String::from("docker")));
    assert_eq!(Manifest::from_json(&j).unwrap_err(), DecodeError::UnknownVariant("type"));
    set_member(&mut j, "type", JsonValue::Str(String::from("zone-dataset")));
    assert_eq!(Manifest::from_json(&j).unwrap().image_type, ImageType::ZoneDataset);
}

#[test]
fn decode_errors() {
    let mut j = zvol_manifest().to_json();
    remove_member(&mut j, "name");
    assert_eq!(Manifest::from_json(&j).unwrap_err(), DecodeError::MissingField("name"));
    let mut j = zvol_manifest().to_json();
    set_member(&mut j, "uuid", JsonValue::Str(String::from("nope")));
    assert_eq!(Manifest::from_json(&j).unwrap_err(), DecodeError::Malformed("uuid"));
    let mut j = zvol_manifest().to_json();
    set_member(&mut j, "disabled", JsonValue::Str(String::from("no")));
    assert_eq!(Manifest::from_json(&j).unwrap_err(), DecodeError::WrongShape("disabled"));
    let mut j = zvol_manifest().to_json();
    set_member(&mut j, "image_size", JsonValue::Number(-1));
    assert_eq!(Manifest::from_json(&j).unwrap_err(), DecodeError::OutOfRange("image_size"));
    let mut j = zvol_manifest().to_json();
    remove_member(&mut j, "cpu_type");
    assert_eq!(Manifest::from_json(&j).unwrap_err(), DecodeError::MissingField("cpu_type"));
    assert_eq!(Manifest::from_json(&JsonValue::Null).unwrap_err(), DecodeError::WrongShape(""));
}

#[test]
fn null_optional_members_are_unset() {
    let mut j = zvol_manifest().to_json();
    set_member(&mut j, "description", JsonValue::Null);
    assert!(Manifest::from_json(&j).unwrap().description.is_none());
}

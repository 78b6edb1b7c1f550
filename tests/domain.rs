use imgapi::enums::{
    DiskDrivers, ImageFileCompression, ImageOs, ImageRequirementBootRom, ImageState, ImageType,
    NetDrivers,
};
use imgapi::ids::{Timestamp, Uuid, WebUrl};

#[test]
fn enum_strings_round_trip() {
    for t in [ImageType::ZoneDataset, ImageType::LxDataset, ImageType::Lxd, ImageType::Zvol, ImageType::Other] {
        assert_eq!(ImageType::parse(t.as_str()), Some(t));
    }
    for s in [ImageState::Active, ImageState::Unactivated, ImageState::Disabled, ImageState::Creating, ImageState::Failed] {
        assert_eq!(ImageState::parse(s.as_str()), Some(s));
    }
    for o in [ImageOs::Smartos, ImageOs::Windows, ImageOs::Linux, ImageOs::Bsd, ImageOs::Illumos, ImageOs::Other] {
        assert_eq!(ImageOs::parse(o.as_str()), Some(o));
    }
    for n in [NetDrivers::Virtio, NetDrivers::E1000g0] {
        assert_eq!(NetDrivers::parse(n.as_str()), Some(n));
    }
    for d in [DiskDrivers::Virtio, DiskDrivers::Sata] {
        assert_eq!(DiskDrivers::parse(d.as_str()), Some(d));
    }
    for b in [ImageRequirementBootRom::Bios, ImageRequirementBootRom::Uefi] {
        assert_eq!(ImageRequirementBootRom::parse(b.as_str()), Some(b));
    }
    for c in [ImageFileCompression::Bzip2, ImageFileCompression::Gzip, ImageFileCompression::Uncompressed] {
        assert_eq!(ImageFileCompression::parse(c.as_str()), Some(c));
    }
}

#[test]
fn enum_canonical_strings() {
    assert_eq!(ImageType::Zvol.to_string(), "zvol");
    assert_eq!(ImageType::LxDataset.as_str(), "lx-dataset");
    assert_eq!(ImageState::Unactivated.as_str(), "unactivated");
    assert_eq!(NetDrivers::E1000g0.as_str(), "e1000g0");
    assert_eq!(ImageType::parse("lx-dataset"), Some(ImageType::LxDataset));
    assert_eq!(ImageState::parse("unactivated"), Some(ImageState::Unactivated));
}

#[test]
fn unknown_enum_strings_are_refused() {
    assert_eq!(ImageType::parse("docker"), None);
    assert_eq!(ImageType::parse("Zvol"), None);
    assert_eq!(ImageType::parse(""), None);
    assert_eq!(ImageState::parse("un-activated"), None);
    assert_eq!(NetDrivers::parse("e1000"), None);
}

#[test]
fn enum_defaults() {
    assert_eq!(ImageState::default(), ImageState::Creating);
    assert_eq!(ImageType::default(), ImageType::ZoneDataset);
    assert_eq!(ImageOs::default(), ImageOs::Smartos);
}

#[test]
fn uuid_text_round_trip() {
    let u = Uuid::parse("f669428c-a939-11e2-a485-b790efc0f0c1").unwrap();
    assert_eq!(u.as_u128(), 0xf669428c_a939_11e2_a485_b790efc0f0c1);
    assert_eq!(u.to_string(), "f669428c-a939-11e2-a485-b790efc0f0c1");
    assert_eq!(Uuid::nil().to_string(), "00000000-0000-0000-0000-000000000000");
    assert!(Uuid::parse("not-a-uuid").is_none());
}

#[test]
fn urls_and_timestamps() {
    let u = WebUrl::parse("https://images.smartos.org/images").unwrap();
    assert_eq!(u.as_str(), "https://images.smartos.org/images");
    assert!(WebUrl::parse("no scheme").is_none());
    let t = Timestamp::parse("2013-05-28T19:30:27.153Z").unwrap();
    assert_eq!(t.seconds(), 1369769427);
    assert_eq!(t.subsec_nanos(), 153_000_000);
    assert_eq!(t.to_string(), "2013-05-28T19:30:27.153Z");
    assert!(Timestamp::parse("yesterday").is_none());
}

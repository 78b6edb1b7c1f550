use imgapi::enums::{DiskDrivers, ImageOs, ImageState, ImageType, NetDrivers};
use imgapi::error::ManifestBuilderError;
use imgapi::manifest::ManifestBuilder;
use imgapi::values::{ImageFileBuilder, ImageRequirementsBuilder, ImageVMPropertiesBuilder, RequirementNetworksBuilder};
use imgapi::enums::ImageFileCompression;

#[test]
fn test_manifest_builder_simple() -> Result<(), ManifestBuilderError> {
    let m = ManifestBuilder::default()
        .name("test_manifest")
        .version("v1.0")
        .build()?;

    assert_eq!(m.name, String::from("test_manifest"));
    assert_eq!(m.version, String::from("v1.0"));

    let vm_props = ImageVMPropertiesBuilder::default()
        .nic_driver(NetDrivers::Virtio)
        .disk_driver(DiskDrivers::Virtio)
        .cpu_type("default")
        .image_size(0)
        .build()?;

    let m2 = ManifestBuilder::default()
        .name("blubber")
        .version("0.1.0")
        .image_type(ImageType::Zvol)
        .vm_image_properties(vm_props)
        .build()?;
    assert_eq!(m2.image_type, ImageType::Zvol);
    assert_eq!(
        m2.vm_image_properties.unwrap().nic_driver.to_string(),
        String::from("virtio")
    );

    Ok(())
}

#[test]
fn defaults_of_a_minimal_manifest() {
    let m = ManifestBuilder::new().name("a").version("1").build().unwrap();
    assert_eq!(m.v, 2);
    assert!(m.uuid.is_nil());
    assert!(m.owner.is_nil());
    assert_eq!(m.state, ImageState::Creating);
    assert_eq!(m.image_type, ImageType::ZoneDataset);
    assert_eq!(m.os, ImageOs::Smartos);
    assert!(!m.disabled);
    assert!(!m.public);
    assert!(m.description.is_none());
    assert!(m.files.is_empty());
    assert!(m.vm_image_properties.is_none());
}

#[test]
fn missing_name_is_reported() {
    let r = ManifestBuilder::new().version("1").build();
    assert_eq!(r.unwrap_err(), ManifestBuilderError::UninitializedField("name"));
    let r = ManifestBuilder::new().build();
    assert_eq!(r.unwrap_err(), ManifestBuilderError::UninitializedField("name"));
}

#[test]
fn missing_version_is_reported() {
    let r = ManifestBuilder::new().name("a").os(ImageOs::Linux).build();
    assert_eq!(r.unwrap_err(), ManifestBuilderError::UninitializedField("version"));
}

#[test]
fn set_fields_override_defaults() {
    let m = ManifestBuilder::new()
        .name("a")
        .version("1")
        .state(ImageState::Failed)
        .disabled(true)
        .public(true)
        .os(ImageOs::Illumos)
        .description("d")
        .build()
        .unwrap();
    assert_eq!(m.state, ImageState::Failed);
    assert!(m.disabled);
    assert!(m.public);
    assert_eq!(m.os, ImageOs::Illumos);
    assert_eq!(m.description, Some(String::from("d")));
}

#[test]
fn vm_properties_need_image_size() {
    let r = ImageVMPropertiesBuilder::new()
        .nic_driver(NetDrivers::E1000g0)
        .disk_driver(DiskDrivers::Sata)
        .cpu_type("host")
        .build();
    assert_eq!(r.unwrap_err(), ManifestBuilderError::UninitializedField("image_size"));
    let p = ImageVMPropertiesBuilder::new()
        .nic_driver(NetDrivers::E1000g0)
        .disk_driver(DiskDrivers::Sata)
        .cpu_type("host")
        .image_size(10240)
        .build()
        .unwrap();
    assert_eq!(p.nic_driver.to_string(), "e1000g0");
    assert_eq!(p.disk_driver.as_str(), "sata");
    assert_eq!(p.cpu_type, "host");
    assert_eq!(p.image_size, 10240);
}

#[test]
fn vm_properties_report_first_missing_field() {
    let r = ImageVMPropertiesBuilder::new().image_size(1).build();
    assert_eq!(r.unwrap_err(), ManifestBuilderError::UninitializedField("nic_driver"));
}

#[test]
fn image_file_needs_digest_size_and_compression() {
    let r = ImageFileBuilder::new().size(5).compression(ImageFileCompression::Gzip).build();
    assert_eq!(r.unwrap_err(), ManifestBuilderError::UninitializedField("sha1"));
    let f = ImageFileBuilder::new()
        .sha1("abc")
        .size(5)
        .compression(ImageFileCompression::Uncompressed)
        .uncompressed_digest("sha256:1")
        .build()
        .unwrap();
    assert_eq!(f.compression.as_str(), "none");
    assert_eq!(f.uncompressed_digest, Some(String::from("sha256:1")));
    assert!(f.stor.is_none());
}

#[test]
fn requirements_build_without_fields() {
    let r = ImageRequirementsBuilder::new().build().unwrap();
    assert!(r.networks.is_none());
    assert!(r.bootrom.is_none());
    let n = RequirementNetworksBuilder::new().name("net0").build();
    assert_eq!(n.unwrap_err(), ManifestBuilderError::UninitializedField("description"));
}

#[test]
fn error_messages() {
    assert_eq!(
        ManifestBuilderError::UninitializedField("name").to_string(),
        "field name must be initialized"
    );
    let e: ManifestBuilderError = String::from("bad").into();
    assert_eq!(e.to_string(), "validation error: bad");
}

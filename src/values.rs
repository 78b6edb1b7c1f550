//! The value objects that a manifest is made of, each with its builder.
use vstd::prelude::*;

use indexmap::IndexMap;

use crate::enums::{DiskDrivers, ImageFileCompression, ImageRequirementBootRom, NetDrivers};
use crate::error::ManifestBuilderError;

verus! {

/// A network interface that provisioning with an image requires.
#[derive(Debug, Clone)]
pub struct RequirementNetworks {
    /// Name of the network.
    pub name: String,
    /// What the network is for.
    pub description: String,
}

/// Collects the fields of a `RequirementNetworks`; both are required.
pub struct RequirementNetworksBuilder {
    pub name: Option<String>,
    pub description: Option<String>,
}

impl Default for RequirementNetworksBuilder {
    fn default() -> (r: RequirementNetworksBuilder)
        ensures
            r.is_unset(),
    {
        RequirementNetworksBuilder::new()
    }
}

impl RequirementNetworksBuilder {
    /// Whether no field has been set.
    pub open spec fn is_unset(self) -> bool {
        self.name is None && self.description is None
    }

    /// A builder with no field set.
    pub fn new() -> (r: RequirementNetworksBuilder)
        ensures
            r.is_unset(),
    {
        RequirementNetworksBuilder { name: None, description: None }
    }

    pub fn name(self, value: &str) -> (r: RequirementNetworksBuilder)
        ensures
            r.name matches Some(s) && s@ == value@,
            r == (RequirementNetworksBuilder { name: r.name, ..self }),
    {
        RequirementNetworksBuilder { name: Some(String::from_str(value)), ..self }
    }

    pub fn description(self, value: &str) -> (r: RequirementNetworksBuilder)
        ensures
            r.description matches Some(s) && s@ == value@,
            r == (RequirementNetworksBuilder { description: r.description, ..self }),
    {
        RequirementNetworksBuilder { description: Some(String::from_str(value)), ..self }
    }

    /// What `build` gives: the first required field that is unset, in
    /// declaration order, as an error; otherwise the record, with the
    /// default of each unset field that has one.
    pub open spec fn spec_build(self) -> Result<RequirementNetworks, ManifestBuilderError> {
        if self.name is None {
            Err(ManifestBuilderError::UninitializedField("name"))
        } else if self.description is None {
            Err(ManifestBuilderError::UninitializedField("description"))
        } else {
            Ok(RequirementNetworks {
            name: self.name->0,
                description: self.description->0,
            })
        }
    }

    /// Completes the record, or names the first required field left unset.
    pub fn build(self) -> (r: Result<RequirementNetworks, ManifestBuilderError>)
        ensures
            r == self.spec_build(),
    {
        let name = match self.name {
            Some(x) => x,
            None => {
                return Err(ManifestBuilderError::UninitializedField("name"));
            },
        };
        let description = match self.description {
            Some(x) => x,
            None => {
                return Err(ManifestBuilderError::UninitializedField("description"));
            },
        };
        Ok(RequirementNetworks {
            name: name,
            description: description,
        })
    }
}

/// An account for which a password may be generated at provisioning.
#[derive(Debug, Clone)]
pub struct ImageUsers {
    /// The account's name.
    pub name: String,
}

impl ImageUsers {
    pub fn new(name: &str) -> (r: ImageUsers)
        ensures
            r.name@ == name@,
    {
        ImageUsers { name: String::from_str(name) }
    }
}

/// Constraints on provisioning with an image.
#[derive(Debug, Clone)]
pub struct ImageRequirements {
    /// Networks that provisioning needs.
    pub networks: Option<Vec<RequirementNetworks>>,
    /// The brand that provisioning needs.
    pub brand: Option<String>,
    /// Whether provisioning needs an SSH public key.
    pub ssh_key: Option<bool>,
    /// Least RAM, in MiB.
    pub min_ram: Option<i64>,
    /// Most RAM, in MiB.
    pub max_ram: Option<i64>,
    /// Oldest platform, by name.
    pub min_platform: Option<IndexMap<String, String>>,
    /// Newest platform, by name.
    pub max_platform: Option<IndexMap<String, String>>,
    /// The boot ROM to use.
    pub bootrom: Option<ImageRequirementBootRom>,
}

/// Collects the fields of an `ImageRequirements`; none is required.
pub struct ImageRequirementsBuilder {
    pub networks: Option<Vec<RequirementNetworks>>,
    pub brand: Option<String>,
    pub ssh_key: Option<bool>,
    pub min_ram: Option<i64>,
    pub max_ram: Option<i64>,
    pub min_platform: Option<IndexMap<String, String>>,
    pub max_platform: Option<IndexMap<String, String>>,
    pub bootrom: Option<ImageRequirementBootRom>,
}

impl Default for ImageRequirementsBuilder {
    fn default() -> (r: ImageRequirementsBuilder)
        ensures
            r.is_unset(),
    {
        ImageRequirementsBuilder::new()
    }
}

impl ImageRequirementsBuilder {
    /// Whether no field has been set.
    pub open spec fn is_unset(self) -> bool {
        self.networks is None && self.brand is None && self.ssh_key is None && self.min_ram is None && self.max_ram is None && self.min_platform is None && self.max_platform is None && self.bootrom is None
    }

    /// A builder with no field set.
    pub fn new() -> (r: ImageRequirementsBuilder)
        ensures
            r.is_unset(),
    {
        ImageRequirementsBuilder { networks: None, brand: None, ssh_key: None, min_ram: None, max_ram: None, min_platform: None, max_platform: None, bootrom: None }
    }

    pub fn networks(self, value: Vec<RequirementNetworks>) -> (r: ImageRequirementsBuilder)
        ensures
            r == (ImageRequirementsBuilder { networks: Some(value), ..self }),
    {
        ImageRequirementsBuilder { networks: Some(value), ..self }
    }

    pub fn brand(self, value: &str) -> (r: ImageRequirementsBuilder)
        ensures
            r.brand matches Some(s) && s@ == value@,
            r == (ImageRequirementsBuilder { brand: r.brand, ..self }),
    {
        ImageRequirementsBuilder { brand: Some(String::from_str(value)), ..self }
    }

    pub fn ssh_key(self, value: bool) -> (r: ImageRequirementsBuilder)
        ensures
            r == (ImageRequirementsBuilder { ssh_key: Some(value), ..self }),
    {
        ImageRequirementsBuilder { ssh_key: Some(value), ..self }
    }

    pub fn min_ram(self, value: i64) -> (r: ImageRequirementsBuilder)
        ensures
            r == (ImageRequirementsBuilder { min_ram: Some(value), ..self }),
    {
        ImageRequirementsBuilder { min_ram: Some(value), ..self }
    }

    pub fn max_ram(self, value: i64) -> (r: ImageRequirementsBuilder)
        ensures
            r == (ImageRequirementsBuilder { max_ram: Some(value), ..self }),
    {
        ImageRequirementsBuilder { max_ram: Some(value), ..self }
    }

    pub fn min_platform(self, value: IndexMap<String, String>) -> (r: ImageRequirementsBuilder)
        ensures
            r == (ImageRequirementsBuilder { min_platform: Some(value), ..self }),
    {
        ImageRequirementsBuilder { min_platform: Some(value), ..self }
    }

    pub fn max_platform(self, value: IndexMap<String, String>) -> (r: ImageRequirementsBuilder)
        ensures
            r == (ImageRequirementsBuilder { max_platform: Some(value), ..self }),
    {
        ImageRequirementsBuilder { max_platform: Some(value), ..self }
    }

    pub fn bootrom(self, value: ImageRequirementBootRom) -> (r: ImageRequirementsBuilder)
        ensures
            r == (ImageRequirementsBuilder { bootrom: Some(value), ..self }),
    {
        ImageRequirementsBuilder { bootrom: Some(value), ..self }
    }

    /// What `build` gives: the first required field that is unset, in
    /// declaration order, as an error; otherwise the record, with the
    /// default of each unset field that has one.
    pub open spec fn spec_build(self) -> Result<ImageRequirements, ManifestBuilderError> {
        Ok(ImageRequirements {
            networks: self.networks,
            brand: self.brand,
            ssh_key: self.ssh_key,
            min_ram: self.min_ram,
            max_ram: self.max_ram,
            min_platform: self.min_platform,
            max_platform: self.max_platform,
            bootrom: self.bootrom,
        })
    }

    /// Completes the record, or names the first required field left unset.
    pub fn build(self) -> (r: Result<ImageRequirements, ManifestBuilderError>)
        ensures
            r == self.spec_build(),
    {
        Ok(ImageRequirements {
            networks: self.networks,
            brand: self.brand,
            ssh_key: self.ssh_key,
            min_ram: self.min_ram,
            max_ram: self.max_ram,
            min_platform: self.min_platform,
            max_platform: self.max_platform,
            bootrom: self.bootrom,
        })
    }
}

/// What a virtual-machine image needs of its machine.
#[derive(Debug, Clone)]
pub struct ImageVMProperties {
    /// Driver of the network interfaces.
    pub nic_driver: NetDrivers,
    /// Driver of the disks.
    pub disk_driver: DiskDrivers,
    /// The QEMU CPU model.
    pub cpu_type: String,
    /// Size of the disk, in MiB.
    pub image_size: u64,
}

/// Collects the fields of an `ImageVMProperties`; all four are required.
pub struct ImageVMPropertiesBuilder {
    pub nic_driver: Option<NetDrivers>,
    pub disk_driver: Option<DiskDrivers>,
    pub cpu_type: Option<String>,
    pub image_size: Option<u64>,
}

impl Default for ImageVMPropertiesBuilder {
    fn default() -> (r: ImageVMPropertiesBuilder)
        ensures
            r.is_unset(),
    {
        ImageVMPropertiesBuilder::new()
    }
}

impl ImageVMPropertiesBuilder {
    /// Whether no field has been set.
    pub open spec fn is_unset(self) -> bool {
        self.nic_driver is None && self.disk_driver is None && self.cpu_type is None && self.image_size is None
    }

    /// A builder with no field set.
    pub fn new() -> (r: ImageVMPropertiesBuilder)
        ensures
            r.is_unset(),
    {
        ImageVMPropertiesBuilder { nic_driver: None, disk_driver: None, cpu_type: None, image_size: None }
    }

    pub fn nic_driver(self, value: NetDrivers) -> (r: ImageVMPropertiesBuilder)
        ensures
            r == (ImageVMPropertiesBuilder { nic_driver: Some(value), ..self }),
    {
        ImageVMPropertiesBuilder { nic_driver: Some(value), ..self }
    }

    pub fn disk_driver(self, value: DiskDrivers) -> (r: ImageVMPropertiesBuilder)
        ensures
            r == (ImageVMPropertiesBuilder { disk_driver: Some(value), ..self }),
    {
        ImageVMPropertiesBuilder { disk_driver: Some(value), ..self }
    }

    pub fn cpu_type(self, value: &str) -> (r: ImageVMPropertiesBuilder)
        ensures
            r.cpu_type matches Some(s) && s@ == value@,
            r == (ImageVMPropertiesBuilder { cpu_type: r.cpu_type, ..self }),
    {
        ImageVMPropertiesBuilder { cpu_type: Some(String::from_str(value)), ..self }
    }

    pub fn image_size(self, value: u64) -> (r: ImageVMPropertiesBuilder)
        ensures
            r == (ImageVMPropertiesBuilder { image_size: Some(value), ..self }),
    {
        ImageVMPropertiesBuilder { image_size: Some(value), ..self }
    }

    /// What `build` gives: the first required field that is unset, in
    /// declaration order, as an error; otherwise the record, with the
    /// default of each unset field that has one.
    pub open spec fn spec_build(self) -> Result<ImageVMProperties, ManifestBuilderError> {
        if self.nic_driver is None {
            Err(ManifestBuilderError::UninitializedField("nic_driver"))
        } else if self.disk_driver is None {
            Err(ManifestBuilderError::UninitializedField("disk_driver"))
        } else if self.cpu_type is None {
            Err(ManifestBuilderError::UninitializedField("cpu_type"))
        } else if self.image_size is None {
            Err(ManifestBuilderError::UninitializedField("image_size"))
        } else {
            Ok(ImageVMProperties {
            nic_driver: self.nic_driver->0,
                disk_driver: self.disk_driver->0,
                cpu_type: self.cpu_type->0,
                image_size: self.image_size->0,
            })
        }
    }

    /// Completes the record, or names the first required field left unset.
    pub fn build(self) -> (r: Result<ImageVMProperties, ManifestBuilderError>)
        ensures
            r == self.spec_build(),
    {
        let nic_driver = match self.nic_driver {
            Some(x) => x,
            None => {
                return Err(ManifestBuilderError::UninitializedField("nic_driver"));
            },
        };
        let disk_driver = match self.disk_driver {
            Some(x) => x,
            None => {
                return Err(ManifestBuilderError::UninitializedField("disk_driver"));
            },
        };
        let cpu_type = match self.cpu_type {
            Some(x) => x,
            None => {
                return Err(ManifestBuilderError::UninitializedField("cpu_type"));
            },
        };
        let image_size = match self.image_size {
            Some(x) => x,
            None => {
                return Err(ManifestBuilderError::UninitializedField("image_size"));
            },
        };
        Ok(ImageVMProperties {
            nic_driver: nic_driver,
            disk_driver: disk_driver,
            cpu_type: cpu_type,
            image_size: image_size,
        })
    }
}

/// One file of an image.
#[derive(Debug, Clone)]
pub struct ImageFile {
    /// SHA-1 hex digest of the content.
    pub sha1: String,
    /// Size in bytes (meant to stay under 20 GiB; not checked).
    pub size: i64,
    /// How the file is compressed.
    pub compression: ImageFileCompression,
    /// ZFS identifier of the dataset's snapshot.
    pub dataset_guid: Option<String>,
    /// The storage backend that holds the file.
    pub stor: Option<String>,
    /// Docker digest of the content.
    pub digest: Option<String>,
    /// Docker digest of the uncompressed content (legacy).
    pub uncompressed_digest: Option<String>,
}

/// Collects the fields of an `ImageFile`; `sha1`, `size` and `compression` are required.
pub struct ImageFileBuilder {
    pub sha1: Option<String>,
    pub size: Option<i64>,
    pub compression: Option<ImageFileCompression>,
    pub dataset_guid: Option<String>,
    pub stor: Option<String>,
    pub digest: Option<String>,
    pub uncompressed_digest: Option<String>,
}

impl Default for ImageFileBuilder {
    fn default() -> (r: ImageFileBuilder)
        ensures
            r.is_unset(),
    {
        ImageFileBuilder::new()
    }
}

impl ImageFileBuilder {
    /// Whether no field has been set.
    pub open spec fn is_unset(self) -> bool {
        self.sha1 is None && self.size is None && self.compression is None && self.dataset_guid is None && self.stor is None && self.digest is None && self.uncompressed_digest is None
    }

    /// A builder with no field set.
    pub fn new() -> (r: ImageFileBuilder)
        ensures
            r.is_unset(),
    {
        ImageFileBuilder { sha1: None, size: None, compression: None, dataset_guid: None, stor: None, digest: None, uncompressed_digest: None }
    }

    pub fn sha1(self, value: &str) -> (r: ImageFileBuilder)
        ensures
            r.sha1 matches Some(s) && s@ == value@,
            r == (ImageFileBuilder { sha1: r.sha1, ..self }),
    {
        ImageFileBuilder { sha1: Some(String::from_str(value)), ..self }
    }

    pub fn size(self, value: i64) -> (r: ImageFileBuilder)
        ensures
            r == (ImageFileBuilder { size: Some(value), ..self }),
    {
        ImageFileBuilder { size: Some(value), ..self }
    }

    pub fn compression(self, value: ImageFileCompression) -> (r: ImageFileBuilder)
        ensures
            r == (ImageFileBuilder { compression: Some(value), ..self }),
    {
        ImageFileBuilder { compression: Some(value), ..self }
    }

    pub fn dataset_guid(self, value: &str) -> (r: ImageFileBuilder)
        ensures
            r.dataset_guid matches Some(s) && s@ == value@,
            r == (ImageFileBuilder { dataset_guid: r.dataset_guid, ..self }),
    {
        ImageFileBuilder { dataset_guid: Some(String::from_str(value)), ..self }
    }

    pub fn stor(self, value: &str) -> (r: ImageFileBuilder)
        ensures
            r.stor matches Some(s) && s@ == value@,
            r == (ImageFileBuilder { stor: r.stor, ..self }),
    {
        ImageFileBuilder { stor: Some(String::from_str(value)), ..self }
    }

    pub fn digest(self, value: &str) -> (r: ImageFileBuilder)
        ensures
            r.digest matches Some(s) && s@ == value@,
            r == (ImageFileBuilder { digest: r.digest, ..self }),
    {
        ImageFileBuilder { digest: Some(String::from_str(value)), ..self }
    }

    pub fn uncompressed_digest(self, value: &str) -> (r: ImageFileBuilder)
        ensures
            r.uncompressed_digest matches Some(s) && s@ == value@,
            r == (ImageFileBuilder { uncompressed_digest: r.uncompressed_digest, ..self }),
    {
        ImageFileBuilder { uncompressed_digest: Some(String::from_str(value)), ..self }
    }

    /// What `build` gives: the first required field that is unset, in
    /// declaration order, as an error; otherwise the record, with the
    /// default of each unset field that has one.
    pub open spec fn spec_build(self) -> Result<ImageFile, ManifestBuilderError> {
        if self.sha1 is None {
            Err(ManifestBuilderError::UninitializedField("sha1"))
        } else if self.size is None {
            Err(ManifestBuilderError::UninitializedField("size"))
        } else if self.compression is None {
            Err(ManifestBuilderError::UninitializedField("compression"))
        } else {
            Ok(ImageFile {
            sha1: self.sha1->0,
                size: self.size->0,
                compression: self.compression->0,
                dataset_guid: self.dataset_guid,
                stor: self.stor,
                digest: self.digest,
                uncompressed_digest: self.uncompressed_digest,
            })
        }
    }

    /// Completes the record, or names the first required field left unset.
    pub fn build(self) -> (r: Result<ImageFile, ManifestBuilderError>)
        ensures
            r == self.spec_build(),
    {
        let sha1 = match self.sha1 {
            Some(x) => x,
            None => {
                return Err(ManifestBuilderError::UninitializedField("sha1"));
            },
        };
        let size = match self.size {
            Some(x) => x,
            None => {
                return Err(ManifestBuilderError::UninitializedField("size"));
            },
        };
        let compression = match self.compression {
            Some(x) => x,
            None => {
                return Err(ManifestBuilderError::UninitializedField("compression"));
            },
        };
        Ok(ImageFile {
            sha1: sha1,
            size: size,
            compression: compression,
            dataset_guid: self.dataset_guid,
            stor: self.stor,
            digest: self.digest,
            uncompressed_digest: self.uncompressed_digest,
        })
    }
}

/// VM properties with driver, disk driver and CPU type set but no image size
/// fail to build, naming `image_size`; with all four set they build, holding
/// the four values.
pub proof fn lemma_vm_properties_build(b: ImageVMPropertiesBuilder)
    ensures
        b.nic_driver is Some && b.disk_driver is Some && b.cpu_type is Some && b.image_size is None
            ==> b.spec_build() == Err::<ImageVMProperties, _>(
            ManifestBuilderError::UninitializedField("image_size"),
        ),
        b.nic_driver is Some && b.disk_driver is Some && b.cpu_type is Some && b.image_size is Some
            ==> b.spec_build() == Ok::<_, ManifestBuilderError>(
            ImageVMProperties {
                nic_driver: b.nic_driver->0,
                disk_driver: b.disk_driver->0,
                cpu_type: b.cpu_type->0,
                image_size: b.image_size->0,
            },
        ),
{
}

} // verus!

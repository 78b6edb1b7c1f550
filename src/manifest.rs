//! The image manifest and its builder.
use vstd::prelude::*;

use indexmap::IndexMap;

use crate::enums::{ImageOs, ImageState, ImageType};
use crate::error::ManifestBuilderError;
use crate::ids::{Timestamp, Uuid, WebUrl};
use crate::json::JsonValue;
use crate::values::{ImageRequirements, ImageUsers, ImageVMProperties};

verus! {

/// The version of the manifest format that this library writes.
pub const FORMAT_VERSION: i32 = 2;

/// The metadata record of one image.
#[derive(Debug, Clone)]
pub struct Manifest {
    /// Version of the manifest format; always 2 when built.
    pub v: i32,
    /// The image's identifier, assigned by the registry; nil until then.
    pub uuid: Uuid,
    /// The account that created the image; nil until assigned.
    pub owner: Uuid,
    /// A short name (meant to stay under 512 characters; not checked).
    pub name: String,
    /// A version string (meant to stay under 128 characters; not checked).
    pub version: String,
    /// A short description.
    pub description: Option<String>,
    /// Where to learn more about the image.
    pub homepage: Option<WebUrl>,
    /// The end-user license agreement.
    pub eula: Option<WebUrl>,
    /// Whether the image has an icon.
    pub icon: Option<bool>,
    /// The lifecycle state.
    pub state: ImageState,
    /// Details of a failed creation; meant only for the failed state, which is not checked.
    pub error: Option<Vec<(String, JsonValue)>>,
    /// Whether provisioning with the image is turned off.
    pub disabled: bool,
    /// Whether the image is public.
    pub public: bool,
    /// When the image was activated.
    pub published_at: Option<Timestamp>,
    /// The kind of payload; `type` on the wire.
    pub image_type: ImageType,
    /// The operating-system family.
    pub os: ImageOs,
    /// The image this one is an increment on.
    pub origin: Option<Uuid>,
    /// The files, as the objects that describe them.
    pub files: Vec<Vec<(String, JsonValue)>>,
    /// Accounts given access to a private image.
    pub acl: Option<Vec<Uuid>>,
    /// Constraints on provisioning.
    pub requirements: Option<ImageRequirements>,
    /// Accounts that may get a generated password.
    pub users: Option<Vec<ImageUsers>>,
    /// Tags for billing.
    pub billing_tags: Option<Vec<String>>,
    /// Properties that guide placement.
    pub traits: Option<Vec<String>>,
    /// Key/value pairs that classify the image, in order.
    pub tags: Option<IndexMap<String, String>>,
    /// Whether to generate passwords for `users`.
    pub generate_password: Option<bool>,
    /// Directories inherited beyond the brand's.
    pub inherited_directories: Option<Vec<String>>,
    /// Channels the image belongs to.
    pub channels: Option<Vec<String>>,
    /// Properties of a virtual-machine image; flattened into the manifest on the wire.
    pub vm_image_properties: Option<ImageVMProperties>,
}

/// Collects the fields of a `Manifest`. `name` and `version` are required;
/// `v`, `uuid` and `owner` cannot be set: they are the format version and nil.
pub struct ManifestBuilder {
    pub name: Option<String>,
    pub version: Option<String>,
    pub description: Option<String>,
    pub homepage: Option<WebUrl>,
    pub eula: Option<WebUrl>,
    pub icon: Option<bool>,
    pub state: Option<ImageState>,
    pub error: Option<Vec<(String, JsonValue)>>,
    pub disabled: Option<bool>,
    pub public: Option<bool>,
    pub published_at: Option<Timestamp>,
    pub image_type: Option<ImageType>,
    pub os: Option<ImageOs>,
    pub origin: Option<Uuid>,
    pub files: Vec<Vec<(String, JsonValue)>>,
    pub acl: Option<Vec<Uuid>>,
    pub requirements: Option<ImageRequirements>,
    pub users: Option<Vec<ImageUsers>>,
    pub billing_tags: Option<Vec<String>>,
    pub traits: Option<Vec<String>>,
    pub tags: Option<IndexMap<String, String>>,
    pub generate_password: Option<bool>,
    pub inherited_directories: Option<Vec<String>>,
    pub channels: Option<Vec<String>>,
    pub vm_image_properties: Option<ImageVMProperties>,
}

impl Default for ManifestBuilder {
    fn default() -> (r: ManifestBuilder)
        ensures
            r.is_unset(),
    {
        ManifestBuilder::new()
    }
}

impl ManifestBuilder {
    /// Whether no field has been set.
    pub open spec fn is_unset(self) -> bool {
        self.name is None && self.version is None && self.description is None && self.homepage is None && self.eula is None && self.icon is None && self.state is None && self.error is None && self.disabled is None && self.public is None && self.published_at is None && self.image_type is None && self.os is None && self.origin is None && self.files@.len() == 0 && self.acl is None && self.requirements is None && self.users is None && self.billing_tags is None && self.traits is None && self.tags is None && self.generate_password is None && self.inherited_directories is None && self.channels is None && self.vm_image_properties is None
    }

    /// A builder with no field set.
    pub fn new() -> (r: ManifestBuilder)
        ensures
            r.is_unset(),
    {
        ManifestBuilder { name: None, version: None, description: None, homepage: None, eula: None, icon: None, state: None, error: None, disabled: None, public: None, published_at: None, image_type: None, os: None, origin: None, files: Vec::new(), acl: None, requirements: None, users: None, billing_tags: None, traits: None, tags: None, generate_password: None, inherited_directories: None, channels: None, vm_image_properties: None }
    }

    pub fn name(self, value: &str) -> (r: ManifestBuilder)
        ensures
            r.name matches Some(s) && s@ == value@,
            r == (ManifestBuilder { name: r.name, ..self }),
    {
        ManifestBuilder { name: Some(String::from_str(value)), ..self }
    }

    pub fn version(self, value: &str) -> (r: ManifestBuilder)
        ensures
            r.version matches Some(s) && s@ == value@,
            r == (ManifestBuilder { version: r.version, ..self }),
    {
        ManifestBuilder { version: Some(String::from_str(value)), ..self }
    }

    pub fn description(self, value: &str) -> (r: ManifestBuilder)
        ensures
            r.description matches Some(s) && s@ == value@,
            r == (ManifestBuilder { description: r.description, ..self }),
    {
        ManifestBuilder { description: Some(String::from_str(value)), ..self }
    }

    pub fn homepage(self, value: WebUrl) -> (r: ManifestBuilder)
        ensures
            r == (ManifestBuilder { homepage: Some(value), ..self }),
    {
        ManifestBuilder { homepage: Some(value), ..self }
    }

    pub fn eula(self, value: WebUrl) -> (r: ManifestBuilder)
        ensures
            r == (ManifestBuilder { eula: Some(value), ..self }),
    {
        ManifestBuilder { eula: Some(value), ..self }
    }

    pub fn icon(self, value: bool) -> (r: ManifestBuilder)
        ensures
            r == (ManifestBuilder { icon: Some(value), ..self }),
    {
        ManifestBuilder { icon: Some(value), ..self }
    }

    pub fn state(self, value: ImageState) -> (r: ManifestBuilder)
        ensures
            r == (ManifestBuilder { state: Some(value), ..self }),
    {
        ManifestBuilder { state: Some(value), ..self }
    }

    pub fn error(self, value: Vec<(String, JsonValue)>) -> (r: ManifestBuilder)
        ensures
            r == (ManifestBuilder { error: Some(value), ..self }),
    {
        ManifestBuilder { error: Some(value), ..self }
    }

    pub fn disabled(self, value: bool) -> (r: ManifestBuilder)
        ensures
            r == (ManifestBuilder { disabled: Some(value), ..self }),
    {
        ManifestBuilder { disabled: Some(value), ..self }
    }

    pub fn public(self, value: bool) -> (r: ManifestBuilder)
        ensures
            r == (ManifestBuilder { public: Some(value), ..self }),
    {
        ManifestBuilder { public: Some(value), ..self }
    }

    pub fn published_at(self, value: Timestamp) -> (r: ManifestBuilder)
        ensures
            r == (ManifestBuilder { published_at: Some(value), ..self }),
    {
        ManifestBuilder { published_at: Some(value), ..self }
    }

    pub fn image_type(self, value: ImageType) -> (r: ManifestBuilder)
        ensures
            r == (ManifestBuilder { image_type: Some(value), ..self }),
    {
        ManifestBuilder { image_type: Some(value), ..self }
    }

    pub fn os(self, value: ImageOs) -> (r: ManifestBuilder)
        ensures
            r == (ManifestBuilder { os: Some(value), ..self }),
    {
        ManifestBuilder { os: Some(value), ..self }
    }

    pub fn origin(self, value: Uuid) -> (r: ManifestBuilder)
        ensures
            r == (ManifestBuilder { origin: Some(value), ..self }),
    {
        ManifestBuilder { origin: Some(value), ..self }
    }

    pub fn files(self, value: Vec<Vec<(String, JsonValue)>>) -> (r: ManifestBuilder)
        ensures
            r == (ManifestBuilder { files: value, ..self }),
    {
        ManifestBuilder { files: value, ..self }
    }

    pub fn acl(self, value: Vec<Uuid>) -> (r: ManifestBuilder)
        ensures
            r == (ManifestBuilder { acl: Some(value), ..self }),
    {
        ManifestBuilder { acl: Some(value), ..self }
    }

    pub fn requirements(self, value: ImageRequirements) -> (r: ManifestBuilder)
        ensures
            r == (ManifestBuilder { requirements: Some(value), ..self }),
    {
        ManifestBuilder { requirements: Some(value), ..self }
    }

    pub fn users(self, value: Vec<ImageUsers>) -> (r: ManifestBuilder)
        ensures
            r == (ManifestBuilder { users: Some(value), ..self }),
    {
        ManifestBuilder { users: Some(value), ..self }
    }

    pub fn billing_tags(self, value: Vec<String>) -> (r: ManifestBuilder)
        ensures
            r == (ManifestBuilder { billing_tags: Some(value), ..self }),
    {
        ManifestBuilder { billing_tags: Some(value), ..self }
    }

    pub fn traits(self, value: Vec<String>) -> (r: ManifestBuilder)
        ensures
            r == (ManifestBuilder { traits: Some(value), ..self }),
    {
        ManifestBuilder { traits: Some(value), ..self }
    }

    pub fn tags(self, value: IndexMap<String, String>) -> (r: ManifestBuilder)
        ensures
            r == (ManifestBuilder { tags: Some(value), ..self }),
    {
        ManifestBuilder { tags: Some(value), ..self }
    }

    pub fn generate_password(self, value: bool) -> (r: ManifestBuilder)
        ensures
            r == (ManifestBuilder { generate_password: Some(value), ..self }),
    {
        ManifestBuilder { generate_password: Some(value), ..self }
    }

    pub fn inherited_directories(self, value: Vec<String>) -> (r: ManifestBuilder)
        ensures
            r == (ManifestBuilder { inherited_directories: Some(value), ..self }),
    {
        ManifestBuilder { inherited_directories: Some(value), ..self }
    }

    pub fn channels(self, value: Vec<String>) -> (r: ManifestBuilder)
        ensures
            r == (ManifestBuilder { channels: Some(value), ..self }),
    {
        ManifestBuilder { channels: Some(value), ..self }
    }

    pub fn vm_image_properties(self, value: ImageVMProperties) -> (r: ManifestBuilder)
        ensures
            r == (ManifestBuilder { vm_image_properties: Some(value), ..self }),
    {
        ManifestBuilder { vm_image_properties: Some(value), ..self }
    }

    /// What `build` gives: the first required field that is unset, in
    /// declaration order, as an error; otherwise the record, with the
    /// default of each unset field that has one.
    pub open spec fn spec_build(self) -> Result<Manifest, ManifestBuilderError> {
        if self.name is None {
            Err(ManifestBuilderError::UninitializedField("name"))
        } else if self.version is None {
            Err(ManifestBuilderError::UninitializedField("version"))
        } else {
            Ok(Manifest {
            v: FORMAT_VERSION,
                uuid: Uuid { value: 0 },
                owner: Uuid { value: 0 },
                name: self.name->0,
                version: self.version->0,
                description: self.description,
                homepage: self.homepage,
                eula: self.eula,
                icon: self.icon,
                state: match self.state { Some(x) => x, None => ImageState::Creating },
                error: self.error,
                disabled: match self.disabled { Some(x) => x, None => false },
                public: match self.public { Some(x) => x, None => false },
                published_at: self.published_at,
                image_type: match self.image_type { Some(x) => x, None => ImageType::ZoneDataset },
                os: match self.os { Some(x) => x, None => ImageOs::Smartos },
                origin: self.origin,
                files: self.files,
                acl: self.acl,
                requirements: self.requirements,
                users: self.users,
                billing_tags: self.billing_tags,
                traits: self.traits,
                tags: self.tags,
                generate_password: self.generate_password,
                inherited_directories: self.inherited_directories,
                channels: self.channels,
                vm_image_properties: self.vm_image_properties,
            })
        }
    }

    /// Completes the record, or names the first required field left unset.
    pub fn build(self) -> (r: Result<Manifest, ManifestBuilderError>)
        ensures
            r == self.spec_build(),
    {
        let name = match self.name {
            Some(x) => x,
            None => {
                return Err(ManifestBuilderError::UninitializedField("name"));
            },
        };
        let version = match self.version {
            Some(x) => x,
            None => {
                return Err(ManifestBuilderError::UninitializedField("version"));
            },
        };
        Ok(Manifest {
            v: FORMAT_VERSION,
            uuid: Uuid::nil(),
            owner: Uuid::nil(),
            name: name,
            version: version,
            description: self.description,
            homepage: self.homepage,
            eula: self.eula,
            icon: self.icon,
            state: match self.state { Some(x) => x, None => ImageState::Creating },
            error: self.error,
            disabled: match self.disabled { Some(x) => x, None => false },
            public: match self.public { Some(x) => x, None => false },
            published_at: self.published_at,
            image_type: match self.image_type { Some(x) => x, None => ImageType::ZoneDataset },
            os: match self.os { Some(x) => x, None => ImageOs::Smartos },
            origin: self.origin,
            files: self.files,
            acl: self.acl,
            requirements: self.requirements,
            users: self.users,
            billing_tags: self.billing_tags,
            traits: self.traits,
            tags: self.tags,
            generate_password: self.generate_password,
            inherited_directories: self.inherited_directories,
            channels: self.channels,
            vm_image_properties: self.vm_image_properties,
        })
    }
}

/// A manifest built with only `name` and `version` set has format version 2,
/// nil identifier and owner, state `Creating`, type `ZoneDataset`, OS
/// `Smartos`, and is neither disabled nor public.
pub proof fn lemma_build_defaults(b: ManifestBuilder)
    requires
        b.name is Some,
        b.version is Some,
        (ManifestBuilder { name: None, version: None, ..b }).is_unset(),
    ensures
        b.spec_build() matches Ok(m) && m.v == 2 && m.uuid.value == 0 && m.owner.value == 0
            && m.state == ImageState::Creating && m.image_type == ImageType::ZoneDataset && m.os
            == ImageOs::Smartos && !m.disabled && !m.public && m.name == b.name->0 && m.version
            == b.version->0,
{
}

/// Building fails without `name`, naming it; with `name` but without
/// `version`, naming that; and no other field's absence makes it fail.
pub proof fn lemma_required_fields(b: ManifestBuilder)
    ensures
        b.name is None ==> b.spec_build() == Err::<Manifest, _>(
            ManifestBuilderError::UninitializedField("name"),
        ),
        b.name is Some && b.version is None ==> b.spec_build() == Err::<Manifest, _>(
            ManifestBuilderError::UninitializedField("version"),
        ),
        b.name is Some && b.version is Some ==> b.spec_build() is Ok,
{
}

} // verus!

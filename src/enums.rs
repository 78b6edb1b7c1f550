//! The enumerated domain values of a manifest, each with its wire string.
//! Most wire strings are lower case with hyphens; those of `ImageState`
//! use underscores.
use vstd::prelude::*;

use crate::text::same_text;

verus! {
/// The lifecycle state of an image.
#[derive(Clone, Copy, Debug, PartialEq, Eq, Structural, Hash)]
pub enum ImageState {
    Active,
    Unactivated,
    Disabled,
    Creating,
    Failed,
}

impl ImageState {
    /// The wire string of a value.
    pub open spec fn spec_wire(self) -> Seq<char> {
        match self {
            ImageState::Active => "active"@,
            ImageState::Unactivated => "unactivated"@,
            ImageState::Disabled => "disabled"@,
            ImageState::Creating => "creating"@,
            ImageState::Failed => "failed"@,
        }
    }

    /// The value whose wire string is `s`, if any.
    pub open spec fn spec_parse(s: Seq<char>) -> Option<ImageState> {
        if s == "active"@ {
            Some(ImageState::Active)
        } else if s == "unactivated"@ {
            Some(ImageState::Unactivated)
        } else if s == "disabled"@ {
            Some(ImageState::Disabled)
        } else if s == "creating"@ {
            Some(ImageState::Creating)
        } else if s == "failed"@ {
            Some(ImageState::Failed)
        } else {
            None
        }
    }

    /// The wire string of this value.
    pub fn as_str(&self) -> (r: &'static str)
        ensures
            r@ == self.spec_wire(),
    {
        match self {
            ImageState::Active => "active",
            ImageState::Unactivated => "unactivated",
            ImageState::Disabled => "disabled",
            ImageState::Creating => "creating",
            ImageState::Failed => "failed",
        }
    }

    /// The wire string of this value, owned; also its human-readable form.
    pub fn to_string(&self) -> (r: String)
        ensures
            r@ == self.spec_wire(),
    {
        String::from_str(self.as_str())
    }

    /// Decodes a wire string; `None` where it names no value.
    pub fn parse(s: &str) -> (r: Option<ImageState>)
        ensures
            r == Self::spec_parse(s@),
    {
        if same_text(s, "active") {
            Some(ImageState::Active)
        } else if same_text(s, "unactivated") {
            Some(ImageState::Unactivated)
        } else if same_text(s, "disabled") {
            Some(ImageState::Disabled)
        } else if same_text(s, "creating") {
            Some(ImageState::Creating)
        } else if same_text(s, "failed") {
            Some(ImageState::Failed)
        } else {
            None
        }
    }

    /// Decoding the wire string of a value gives the value back.
    pub proof fn lemma_parse_wire(self)
        ensures
            Self::spec_parse(self.spec_wire()) == Some(self),
    {
        reveal_strlit("active");
        reveal_strlit("unactivated");
        reveal_strlit("disabled");
        reveal_strlit("creating");
        reveal_strlit("failed");
        assert("active"@.len() == 6 && "active"@[0] == 'a');
        assert("unactivated"@.len() == 11 && "unactivated"@[0] == 'u');
        assert("disabled"@.len() == 8 && "disabled"@[0] == 'd');
        assert("creating"@.len() == 8 && "creating"@[0] == 'c');
        assert("failed"@.len() == 6 && "failed"@[0] == 'f');
    }

    /// A string that decodes is the wire string of the value it decodes to.
    pub proof fn lemma_wire_parse(s: Seq<char>)
        ensures
            Self::spec_parse(s) matches Some(t) ==> t.spec_wire() == s,
    {
    }
}

impl Default for ImageState {
    fn default() -> (r: ImageState)
        ensures
            r == ImageState::Creating,
    {
        ImageState::Creating
    }
}
/// The kind of payload an image carries.
#[derive(Clone, Copy, Debug, PartialEq, Eq, Structural, Hash)]
pub enum ImageType {
    ZoneDataset,
    LxDataset,
    Lxd,
    Zvol,
    Other,
}

impl ImageType {
    /// The wire string of a value.
    pub open spec fn spec_wire(self) -> Seq<char> {
        match self {
            ImageType::ZoneDataset => "zone-dataset"@,
            ImageType::LxDataset => "lx-dataset"@,
            ImageType::Lxd => "lxd"@,
            ImageType::Zvol => "zvol"@,
            ImageType::Other => "other"@,
        }
    }

    /// The value whose wire string is `s`, if any.
    pub open spec fn spec_parse(s: Seq<char>) -> Option<ImageType> {
        if s == "zone-dataset"@ {
            Some(ImageType::ZoneDataset)
        } else if s == "lx-dataset"@ {
            Some(ImageType::LxDataset)
        } else if s == "lxd"@ {
            Some(ImageType::Lxd)
        } else if s == "zvol"@ {
            Some(ImageType::Zvol)
        } else if s == "other"@ {
            Some(ImageType::Other)
        } else {
            None
        }
    }

    /// The wire string of this value.
    pub fn as_str(&self) -> (r: &'static str)
        ensures
            r@ == self.spec_wire(),
    {
        match self {
            ImageType::ZoneDataset => "zone-dataset",
            ImageType::LxDataset => "lx-dataset",
            ImageType::Lxd => "lxd",
            ImageType::Zvol => "zvol",
            ImageType::Other => "other",
        }
    }

    /// The wire string of this value, owned; also its human-readable form.
    pub fn to_string(&self) -> (r: String)
        ensures
            r@ == self.spec_wire(),
    {
        String::from_str(self.as_str())
    }

    /// Decodes a wire string; `None` where it names no value.
    pub fn parse(s: &str) -> (r: Option<ImageType>)
        ensures
            r == Self::spec_parse(s@),
    {
        if same_text(s, "zone-dataset") {
            Some(ImageType::ZoneDataset)
        } else if same_text(s, "lx-dataset") {
            Some(ImageType::LxDataset)
        } else if same_text(s, "lxd") {
            Some(ImageType::Lxd)
        } else if same_text(s, "zvol") {
            Some(ImageType::Zvol)
        } else if same_text(s, "other") {
            Some(ImageType::Other)
        } else {
            None
        }
    }

    /// Decoding the wire string of a value gives the value back.
    pub proof fn lemma_parse_wire(self)
        ensures
            Self::spec_parse(self.spec_wire()) == Some(self),
    {
        reveal_strlit("zone-dataset");
        reveal_strlit("lx-dataset");
        reveal_strlit("lxd");
        reveal_strlit("zvol");
        reveal_strlit("other");
        assert("zone-dataset"@.len() == 12 && "zone-dataset"@[0] == 'z');
        assert("lx-dataset"@.len() == 10 && "lx-dataset"@[0] == 'l');
        assert("lxd"@.len() == 3 && "lxd"@[0] == 'l');
        assert("zvol"@.len() == 4 && "zvol"@[0] == 'z');
        assert("other"@.len() == 5 && "other"@[0] == 'o');
    }

    /// A string that decodes is the wire string of the value it decodes to.
    pub proof fn lemma_wire_parse(s: Seq<char>)
        ensures
            Self::spec_parse(s) matches Some(t) ==> t.spec_wire() == s,
    {
    }
}

impl Default for ImageType {
    fn default() -> (r: ImageType)
        ensures
            r == ImageType::ZoneDataset,
    {
        ImageType::ZoneDataset
    }
}
/// The operating-system family an image provides.
#[derive(Clone, Copy, Debug, PartialEq, Eq, Structural, Hash)]
pub enum ImageOs {
    Smartos,
    Windows,
    Linux,
    Bsd,
    Illumos,
    Other,
}

impl ImageOs {
    /// The wire string of a value.
    pub open spec fn spec_wire(self) -> Seq<char> {
        match self {
            ImageOs::Smartos => "smartos"@,
            ImageOs::Windows => "windows"@,
            ImageOs::Linux => "linux"@,
            ImageOs::Bsd => "bsd"@,
            ImageOs::Illumos => "illumos"@,
            ImageOs::Other => "other"@,
        }
    }

    /// The value whose wire string is `s`, if any.
    pub open spec fn spec_parse(s: Seq<char>) -> Option<ImageOs> {
        if s == "smartos"@ {
            Some(ImageOs::Smartos)
        } else if s == "windows"@ {
            Some(ImageOs::Windows)
        } else if s == "linux"@ {
            Some(ImageOs::Linux)
        } else if s == "bsd"@ {
            Some(ImageOs::Bsd)
        } else if s == "illumos"@ {
            Some(ImageOs::Illumos)
        } else if s == "other"@ {
            Some(ImageOs::Other)
        } else {
            None
        }
    }

    /// The wire string of this value.
    pub fn as_str(&self) -> (r: &'static str)
        ensures
            r@ == self.spec_wire(),
    {
        match self {
            ImageOs::Smartos => "smartos",
            ImageOs::Windows => "windows",
            ImageOs::Linux => "linux",
            ImageOs::Bsd => "bsd",
            ImageOs::Illumos => "illumos",
            ImageOs::Other => "other",
        }
    }

    /// The wire string of this value, owned; also its human-readable form.
    pub fn to_string(&self) -> (r: String)
        ensures
            r@ == self.spec_wire(),
    {
        String::from_str(self.as_str())
    }

    /// Decodes a wire string; `None` where it names no value.
    pub fn parse(s: &str) -> (r: Option<ImageOs>)
        ensures
            r == Self::spec_parse(s@),
    {
        if same_text(s, "smartos") {
            Some(ImageOs::Smartos)
        } else if same_text(s, "windows") {
            Some(ImageOs::Windows)
        } else if same_text(s, "linux") {
            Some(ImageOs::Linux)
        } else if same_text(s, "bsd") {
            Some(ImageOs::Bsd)
        } else if same_text(s, "illumos") {
            Some(ImageOs::Illumos)
        } else if same_text(s, "other") {
            Some(ImageOs::Other)
        } else {
            None
        }
    }

    /// Decoding the wire string of a value gives the value back.
    pub proof fn lemma_parse_wire(self)
        ensures
            Self::spec_parse(self.spec_wire()) == Some(self),
    {
        reveal_strlit("smartos");
        reveal_strlit("windows");
        reveal_strlit("linux");
        reveal_strlit("bsd");
        reveal_strlit("illumos");
        reveal_strlit("other");
        assert("smartos"@.len() == 7 && "smartos"@[0] == 's');
        assert("windows"@.len() == 7 && "windows"@[0] == 'w');
        assert("linux"@.len() == 5 && "linux"@[0] == 'l');
        assert("bsd"@.len() == 3 && "bsd"@[0] == 'b');
        assert("illumos"@.len() == 7 && "illumos"@[0] == 'i');
        assert("other"@.len() == 5 && "other"@[0] == 'o');
    }

    /// A string that decodes is the wire string of the value it decodes to.
    pub proof fn lemma_wire_parse(s: Seq<char>)
        ensures
            Self::spec_parse(s) matches Some(t) ==> t.spec_wire() == s,
    {
    }
}

impl Default for ImageOs {
    fn default() -> (r: ImageOs)
        ensures
            r == ImageOs::Smartos,
    {
        ImageOs::Smartos
    }
}
/// The boot ROM an image needs.
#[derive(Clone, Copy, Debug, PartialEq, Eq, Structural, Hash)]
pub enum ImageRequirementBootRom {
    Bios,
    Uefi,
}

impl ImageRequirementBootRom {
    /// The wire string of a value.
    pub open spec fn spec_wire(self) -> Seq<char> {
        match self {
            ImageRequirementBootRom::Bios => "bios"@,
            ImageRequirementBootRom::Uefi => "uefi"@,
        }
    }

    /// The value whose wire string is `s`, if any.
    pub open spec fn spec_parse(s: Seq<char>) -> Option<ImageRequirementBootRom> {
        if s == "bios"@ {
            Some(ImageRequirementBootRom::Bios)
        } else if s == "uefi"@ {
            Some(ImageRequirementBootRom::Uefi)
        } else {
            None
        }
    }

    /// The wire string of this value.
    pub fn as_str(&self) -> (r: &'static str)
        ensures
            r@ == self.spec_wire(),
    {
        match self {
            ImageRequirementBootRom::Bios => "bios",
            ImageRequirementBootRom::Uefi => "uefi",
        }
    }

    /// The wire string of this value, owned; also its human-readable form.
    pub fn to_string(&self) -> (r: String)
        ensures
            r@ == self.spec_wire(),
    {
        String::from_str(self.as_str())
    }

    /// Decodes a wire string; `None` where it names no value.
    pub fn parse(s: &str) -> (r: Option<ImageRequirementBootRom>)
        ensures
            r == Self::spec_parse(s@),
    {
        if same_text(s, "bios") {
            Some(ImageRequirementBootRom::Bios)
        } else if same_text(s, "uefi") {
            Some(ImageRequirementBootRom::Uefi)
        } else {
            None
        }
    }

    /// Decoding the wire string of a value gives the value back.
    pub proof fn lemma_parse_wire(self)
        ensures
            Self::spec_parse(self.spec_wire()) == Some(self),
    {
        reveal_strlit("bios");
        reveal_strlit("uefi");
        assert("bios"@.len() == 4 && "bios"@[0] == 'b');
        assert("uefi"@.len() == 4 && "uefi"@[0] == 'u');
    }

    /// A string that decodes is the wire string of the value it decodes to.
    pub proof fn lemma_wire_parse(s: Seq<char>)
        ensures
            Self::spec_parse(s) matches Some(t) ==> t.spec_wire() == s,
    {
    }
}
/// The network interface driver of a VM image.
#[derive(Clone, Copy, Debug, PartialEq, Eq, Structural, Hash)]
pub enum NetDrivers {
    Virtio,
    E1000g0,
}

impl NetDrivers {
    /// The wire string of a value.
    pub open spec fn spec_wire(self) -> Seq<char> {
        match self {
            NetDrivers::Virtio => "virtio"@,
            NetDrivers::E1000g0 => "e1000g0"@,
        }
    }

    /// The value whose wire string is `s`, if any.
    pub open spec fn spec_parse(s: Seq<char>) -> Option<NetDrivers> {
        if s == "virtio"@ {
            Some(NetDrivers::Virtio)
        } else if s == "e1000g0"@ {
            Some(NetDrivers::E1000g0)
        } else {
            None
        }
    }

    /// The wire string of this value.
    pub fn as_str(&self) -> (r: &'static str)
        ensures
            r@ == self.spec_wire(),
    {
        match self {
            NetDrivers::Virtio => "virtio",
            NetDrivers::E1000g0 => "e1000g0",
        }
    }

    /// The wire string of this value, owned; also its human-readable form.
    pub fn to_string(&self) -> (r: String)
        ensures
            r@ == self.spec_wire(),
    {
        String::from_str(self.as_str())
    }

    /// Decodes a wire string; `None` where it names no value.
    pub fn parse(s: &str) -> (r: Option<NetDrivers>)
        ensures
            r == Self::spec_parse(s@),
    {
        if same_text(s, "virtio") {
            Some(NetDrivers::Virtio)
        } else if same_text(s, "e1000g0") {
            Some(NetDrivers::E1000g0)
        } else {
            None
        }
    }

    /// Decoding the wire string of a value gives the value back.
    pub proof fn lemma_parse_wire(self)
        ensures
            Self::spec_parse(self.spec_wire()) == Some(self),
    {
        reveal_strlit("virtio");
        reveal_strlit("e1000g0");
        assert("virtio"@.len() == 6 && "virtio"@[0] == 'v');
        assert("e1000g0"@.len() == 7 && "e1000g0"@[0] == 'e');
    }

    /// A string that decodes is the wire string of the value it decodes to.
    pub proof fn lemma_wire_parse(s: Seq<char>)
        ensures
            Self::spec_parse(s) matches Some(t) ==> t.spec_wire() == s,
    {
    }
}
/// The disk driver of a VM image.
#[derive(Clone, Copy, Debug, PartialEq, Eq, Structural, Hash)]
pub enum DiskDrivers {
    Virtio,
    Sata,
}

impl DiskDrivers {
    /// The wire string of a value.
    pub open spec fn spec_wire(self) -> Seq<char> {
        match self {
            DiskDrivers::Virtio => "virtio"@,
            DiskDrivers::Sata => "sata"@,
        }
    }

    /// The value whose wire string is `s`, if any.
    pub open spec fn spec_parse(s: Seq<char>) -> Option<DiskDrivers> {
        if s == "virtio"@ {
            Some(DiskDrivers::Virtio)
        } else if s == "sata"@ {
            Some(DiskDrivers::Sata)
        } else {
            None
        }
    }

    /// The wire string of this value.
    pub fn as_str(&self) -> (r: &'static str)
        ensures
            r@ == self.spec_wire(),
    {
        match self {
            DiskDrivers::Virtio => "virtio",
            DiskDrivers::Sata => "sata",
        }
    }

    /// The wire string of this value, owned; also its human-readable form.
    pub fn to_string(&self) -> (r: String)
        ensures
            r@ == self.spec_wire(),
    {
        String::from_str(self.as_str())
    }

    /// Decodes a wire string; `None` where it names no value.
    pub fn parse(s: &str) -> (r: Option<DiskDrivers>)
        ensures
            r == Self::spec_parse(s@),
    {
        if same_text(s, "virtio") {
            Some(DiskDrivers::Virtio)
        } else if same_text(s, "sata") {
            Some(DiskDrivers::Sata)
        } else {
            None
        }
    }

    /// Decoding the wire string of a value gives the value back.
    pub proof fn lemma_parse_wire(self)
        ensures
            Self::spec_parse(self.spec_wire()) == Some(self),
    {
        reveal_strlit("virtio");
        reveal_strlit("sata");
        assert("virtio"@.len() == 6 && "virtio"@[0] == 'v');
        assert("sata"@.len() == 4 && "sata"@[0] == 's');
    }

    /// A string that decodes is the wire string of the value it decodes to.
    pub proof fn lemma_wire_parse(s: Seq<char>)
        ensures
            Self::spec_parse(s) matches Some(t) ==> t.spec_wire() == s,
    {
    }
}
/// The compression of an image file.
#[derive(Clone, Copy, Debug, PartialEq, Eq, Structural, Hash)]
pub enum ImageFileCompression {
    Bzip2,
    Gzip,
    Uncompressed,
}

impl ImageFileCompression {
    /// The wire string of a value.
    pub open spec fn spec_wire(self) -> Seq<char> {
        match self {
            ImageFileCompression::Bzip2 => "bzip2"@,
            ImageFileCompression::Gzip => "gzip"@,
            ImageFileCompression::Uncompressed => "none"@,
        }
    }

    /// The value whose wire string is `s`, if any.
    pub open spec fn spec_parse(s: Seq<char>) -> Option<ImageFileCompression> {
        if s == "bzip2"@ {
            Some(ImageFileCompression::Bzip2)
        } else if s == "gzip"@ {
            Some(ImageFileCompression::Gzip)
        } else if s == "none"@ {
            Some(ImageFileCompression::Uncompressed)
        } else {
            None
        }
    }

    /// The wire string of this value.
    pub fn as_str(&self) -> (r: &'static str)
        ensures
            r@ == self.spec_wire(),
    {
        match self {
            ImageFileCompression::Bzip2 => "bzip2",
            ImageFileCompression::Gzip => "gzip",
            ImageFileCompression::Uncompressed => "none",
        }
    }

    /// The wire string of this value, owned; also its human-readable form.
    pub fn to_string(&self) -> (r: String)
        ensures
            r@ == self.spec_wire(),
    {
        String::from_str(self.as_str())
    }

    /// Decodes a wire string; `None` where it names no value.
    pub fn parse(s: &str) -> (r: Option<ImageFileCompression>)
        ensures
            r == Self::spec_parse(s@),
    {
        if same_text(s, "bzip2") {
            Some(ImageFileCompression::Bzip2)
        } else if same_text(s, "gzip") {
            Some(ImageFileCompression::Gzip)
        } else if same_text(s, "none") {
            Some(ImageFileCompression::Uncompressed)
        } else {
            None
        }
    }

    /// Decoding the wire string of a value gives the value back.
    pub proof fn lemma_parse_wire(self)
        ensures
            Self::spec_parse(self.spec_wire()) == Some(self),
    {
        reveal_strlit("bzip2");
        reveal_strlit("gzip");
        reveal_strlit("none");
        assert("bzip2"@.len() == 5 && "bzip2"@[0] == 'b');
        assert("gzip"@.len() == 4 && "gzip"@[0] == 'g');
        assert("none"@.len() == 4 && "none"@[0] == 'n');
    }

    /// A string that decodes is the wire string of the value it decodes to.
    pub proof fn lemma_wire_parse(s: Seq<char>)
        ensures
            Self::spec_parse(s) matches Some(t) ==> t.spec_wire() == s,
    {
    }
}

} // verus!

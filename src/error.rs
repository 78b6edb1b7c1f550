//! What can go wrong when a record is built or decoded.
use vstd::prelude::*;

verus! {

/// Why a builder could not produce its record.
#[derive(Debug, Clone, PartialEq, Eq)]
#[non_exhaustive]
pub enum ManifestBuilderError {
    /// A required field was never set; carries the field's name.
    UninitializedField(&'static str),
    /// Any other rule that the values break, explained in words.
    ValidationError(String),
}

impl ManifestBuilderError {
    /// The message that describes this error.
    pub fn to_string(&self) -> (r: String)
        ensures
            self matches ManifestBuilderError::UninitializedField(f) ==> r@ == "field "@ + f@
                + " must be initialized"@,
            self matches ManifestBuilderError::ValidationError(s) ==> r@ == "validation error: "@
                + s@,
    {
        match self {
            ManifestBuilderError::UninitializedField(f) => {
                String::from_str("field ").concat(f).concat(" must be initialized")
            },
            ManifestBuilderError::ValidationError(s) => {
                String::from_str("validation error: ").concat(s.as_str())
            },
        }
    }
}

impl From<String> for ManifestBuilderError {
    fn from(s: String) -> (r: ManifestBuilderError) {
        ManifestBuilderError::ValidationError(s)
    }
}

impl vstd::std_specs::convert::FromSpecImpl<String> for ManifestBuilderError {
    open spec fn obeys_from_spec() -> bool {
        true
    }

    open spec fn from_spec(s: String) -> ManifestBuilderError {
        ManifestBuilderError::ValidationError(s)
    }
}

/// Why wire data could not be decoded into a record. Each variant carries
/// the key of the member at fault (empty for the record itself).
#[derive(Debug, Clone, Copy, PartialEq, Eq)]
pub enum DecodeError {
    /// A value has the wrong JSON shape (an object where a string belongs).
    WrongShape(&'static str),
    /// A required member is absent.
    MissingField(&'static str),
    /// A string names no value of the enumeration it belongs to.
    UnknownVariant(&'static str),
    /// A number lies outside the range of its field.
    OutOfRange(&'static str),
    /// A string is not a well-formed identifier, URL or timestamp.
    Malformed(&'static str),
}

} // verus!

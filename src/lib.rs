//! Image manifests of an IMGAPI-style image registry: the record, its
//! builders with their defaults and required fields, the enumerated domain
//! values with their wire strings, and the JSON wire form.
use vstd::prelude::*;

pub mod text;
pub mod error;
pub mod enums;
pub mod json;
pub mod ids;
pub mod maps;
pub mod values;
pub mod manifest;
pub mod wire;
pub mod codec;
pub mod serial;

verus! {

} // verus!

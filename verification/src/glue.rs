//! From an object's metadata to a sandbox's.

use vstd::prelude::*;
use crate::cri::{PodSandboxMetadata, PodSandboxMetadataView};
use crate::text::owned;

verus! {

/// The metadata of an object, as far as a sandbox needs it.
#[derive(Debug, PartialEq, Eq)]
pub struct ObjectMeta {
    pub name: Option<String>,
    pub namespace: Option<String>,
    pub uid: Option<String>,
    pub generation: Option<i64>,
}

/// Why metadata could not be converted.
#[derive(Debug, PartialEq, Eq)]
pub enum ConvertError {
    /// The field of this name is required and absent.
    MissingField(String),
}

impl ConvertError {
    /// The error in words.
    pub fn message(&self) -> (r: String)
        ensures
            match self {
                ConvertError::MissingField(field) => r@ == "Missing field during conversion: "@
                    + field@,
            },
    {
        match self {
            ConvertError::MissingField(field) => {
                let mut r = owned("Missing field during conversion: ");
                r.append(field.as_str());
                r
            },
        }
    }
}

/// The attempt counter for a generation: none counts as zero, and of a
/// number only the low 32 bits are kept.
pub open spec fn attempt_of(generation: Option<i64>) -> u32 {
    match generation {
        Some(g) => g as u32,
        None => 0,
    }
}

/// The sandbox metadata for an object's: name and uid are required, the
/// namespace is `default` where none is given, and the attempt counter is
/// the generation. A missing name is reported before a missing uid.
pub fn convert_metadata(meta: ObjectMeta) -> (r: Result<PodSandboxMetadata, ConvertError>)
    ensures
        match r {
            Ok(m) => meta.name.is_some() && meta.uid.is_some() && m@ == (PodSandboxMetadataView {
                name: meta.name.unwrap()@,
                uid: meta.uid.unwrap()@,
                namespace: match meta.namespace {
                    Some(n) => n@,
                    None => "default"@,
                },
                attempt: attempt_of(meta.generation),
            }),
            Err(ConvertError::MissingField(field)) => if meta.name.is_none() {
                field@ == "name"@
            } else {
                meta.uid.is_none() && field@ == "uid"@
            },
        },
{
    let name = match meta.name {
        Some(name) => name,
        None => {
            return Err(ConvertError::MissingField(owned("name")));
        },
    };
    let namespace = match meta.namespace {
        Some(namespace) => namespace,
        None => owned("default"),
    };
    let attempt: u32 = match meta.generation {
        Some(g) => #[verifier::truncate]
        (g as u32),
        None => 0,
    };
    let uid = match meta.uid {
        Some(uid) => uid,
        None => {
            return Err(ConvertError::MissingField(owned("uid")));
        },
    };
    Ok(PodSandboxMetadata { name, uid, namespace, attempt })
}

} // verus!

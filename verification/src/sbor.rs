//! How an encoded value is to be shown as text, and which codec an encoded
//! value belongs to.

use vstd::prelude::*;

verus! {

/// The ways to write a decoded value as JSON.
#[derive(Clone, Copy, Debug, PartialEq, Eq, Structural)]
pub enum SerializationMode {
    Programmatic,
    Natural,
}

/// The ways to write a decoded manifest value as text.
#[derive(Clone, Copy, Debug, PartialEq, Eq, Structural)]
pub enum ManifestSborStringRepresentation {
    ManifestString,
    JSON { value: SerializationMode },
}

/// Where the type of a value stands: among the well known types, or in a
/// schema.
#[derive(Clone, Copy, Debug, PartialEq, Eq, Structural)]
pub enum LocalTypeIndex {
    WellKnown { value: u8 },
    SchemaLocalIndex { value: u64 },
}

/// An encoded schema, and the type in it that a value is of.
#[derive(Clone, Debug, PartialEq, Eq)]
pub struct Schema {
    pub local_type_index: LocalTypeIndex,
    pub schema: Vec<u8>,
}

/// The first byte of a value in the codec of components.
pub const SCRYPTO_SBOR_V1_PAYLOAD_PREFIX: u8 = 0x5c;

/// The first byte of a value in the codec of manifests.
pub const MANIFEST_SBOR_V1_PAYLOAD_PREFIX: u8 = 0x4d;

/// The codecs that an encoded value can belong to.
#[derive(Clone, Copy, Debug, PartialEq, Eq, Structural)]
pub enum PayloadKind {
    Scrypto,
    Manifest,
}

/// The codec that the first byte of `bytes` names.
pub open spec fn spec_payload_kind(bytes: Seq<u8>) -> Option<PayloadKind> {
    if bytes.len() == 0 {
        None
    } else if bytes[0] == SCRYPTO_SBOR_V1_PAYLOAD_PREFIX {
        Some(PayloadKind::Scrypto)
    } else if bytes[0] == MANIFEST_SBOR_V1_PAYLOAD_PREFIX {
        Some(PayloadKind::Manifest)
    } else {
        None
    }
}

/// The codec that an encoded value belongs to, by its first byte; `None`
/// where there is no byte or the byte names no codec.
pub fn payload_kind(bytes: &Vec<u8>) -> (kind: Option<PayloadKind>)
    ensures
        kind == spec_payload_kind(bytes@),
{
    if bytes.len() == 0 {
        None
    } else if bytes[0] == SCRYPTO_SBOR_V1_PAYLOAD_PREFIX {
        Some(PayloadKind::Scrypto)
    } else if bytes[0] == MANIFEST_SBOR_V1_PAYLOAD_PREFIX {
        Some(PayloadKind::Manifest)
    } else {
        None
    }
}

} // verus!

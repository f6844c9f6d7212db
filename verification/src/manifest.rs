//! A manifest, as text or as a list of instructions.

use crate::instruction::Instruction;
use vstd::prelude::*;

verus! {

/// The forms that a manifest comes in.
#[derive(Clone, Copy, Debug, PartialEq, Eq, Structural)]
pub enum ManifestKind {
    String,
    JSON,
}

/// The instructions of a transaction.
#[derive(Debug, PartialEq, Eq)]
pub enum Manifest {
    /// The manifest as it is written.
    String(String),
    /// The manifest taken apart into its instructions.
    JSON(Vec<Instruction>),
}

impl Manifest {
    /// The form that the manifest is in.
    pub open spec fn spec_kind(self) -> ManifestKind {
        match self {
            Manifest::JSON(_) => ManifestKind::JSON,
            Manifest::String(_) => ManifestKind::String,
        }
    }

    /// The form that the manifest is in.
    pub fn kind(&self) -> (kind: ManifestKind)
        ensures
            kind == self.spec_kind(),
    {
        match self {
            Manifest::JSON(_) => ManifestKind::JSON,
            Manifest::String(_) => ManifestKind::String,
        }
    }

    /// The manifest as a list of instructions. One that is a list already is
    /// kept as it is; one that is text is replaced by `parsed`, which the
    /// caller has read out of the text.
    pub fn to_json_manifest(self, parsed: Vec<Instruction>) -> (manifest: Manifest)
        ensures
            manifest.spec_kind() == ManifestKind::JSON,
            self is JSON ==> manifest == self,
            self is String ==> manifest == Manifest::JSON(parsed),
    {
        match self {
            Manifest::JSON(_) => self,
            Manifest::String(_) => Manifest::JSON(parsed),
        }
    }
}

/// The manifest of a transaction: its instructions, and the blobs that they
/// refer to.
#[derive(Debug, PartialEq, Eq)]
pub struct TransactionManifest {
    pub instructions: Manifest,
    pub blobs: Vec<Vec<u8>>,
}

} // verus!

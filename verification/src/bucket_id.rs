//! Identifiers of the buckets and proofs that a manifest creates.

use vstd::prelude::*;

verus! {

/// The handle of a bucket. A manifest numbers its buckets in the order in
/// which its instructions create them, starting at zero.
#[derive(Clone, Copy, Debug, PartialEq, Eq, Structural, Hash)]
pub struct BucketId(pub u32);

impl BucketId {
    /// The number behind the handle.
    pub fn value(&self) -> (n: u32)
        ensures
            n == self.0,
    {
        self.0
    }
}

/// The name or the number by which a manifest in structured form refers to
/// a bucket or a proof.
#[derive(Clone, Debug, PartialEq, Eq, Hash)]
pub enum Identifier {
    String(String),
    U32(u32),
}

} // verus!

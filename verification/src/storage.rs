//! What the object store keeps for a paste.

use vstd::prelude::*;
use crate::model::PasteMetadata;

verus! {

/// A paste as the object store holds it: the content with the digest and
/// the time of the write that put it there.
#[derive(Debug)]
pub struct StoredPaste {
    pub metadata: Option<PasteMetadata>,
    pub last_modified: u64,
    pub entity_id: String,
    pub content: String,
}

/// A SHA-1 digest.
pub struct Sha1(pub [u8; 20]);

impl Sha1 {
    /// The twenty bytes of the digest.
    pub fn as_bytes(&self) -> (out: &[u8; 20])
        ensures
            *out == self.0,
    {
        &self.0
    }
}

} // verus!

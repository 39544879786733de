//! Chunk-level trust: a chunk is accepted only when its object is in an
//! authenticated manifest and its Merkle path reaches that object's root.

use vstd::prelude::*;
use crate::fs_core::Digest;
use crate::storefs::{ObjectDescriptor, spec_find_by_digest};
use crate::storefs::merkle::{
    MerkleHasher, MerkleProof, MerkleProofError, VerifiedChunk, verify_chunk, spec_chunk_shape_error,
    spec_merkle_root,
};
use crate::storefs::trust::AuthenticatedManifest;

verus! {

#[derive(Clone, Copy, Debug, PartialEq, Eq, Structural)]
pub enum AuthenticatedChunkError {
    UnknownObject,
    Verification(MerkleProofError),
}

/// A chunk of an object referenced by an authenticated, anti-rollback
/// manifest whose Merkle path reaches the object root from that manifest.
pub struct AuthenticatedChunk<'a> {
    generation: u64,
    verified: VerifiedChunk<'a>,
}

impl<'a> AuthenticatedChunk<'a> {
    pub closed spec fn spec_generation(&self) -> u64 {
        self.generation
    }

    pub closed spec fn spec_descriptor(&self) -> ObjectDescriptor {
        self.verified.spec_descriptor()
    }

    pub closed spec fn spec_leaf_index(&self) -> u64 {
        self.verified.spec_leaf_index()
    }

    pub closed spec fn spec_bytes(&self) -> Seq<u8> {
        self.verified.spec_bytes()
    }

    pub fn generation(&self) -> (r: u64)
        ensures
            r == self.spec_generation(),
    {
        self.generation
    }

    pub fn descriptor(&self) -> (r: ObjectDescriptor)
        ensures
            r == self.spec_descriptor(),
    {
        self.verified.descriptor()
    }

    pub fn leaf_index(&self) -> (r: u64)
        ensures
            r == self.spec_leaf_index(),
    {
        self.verified.leaf_index()
    }

    pub fn bytes(&self) -> (r: &'a [u8])
        ensures
            r@ == self.spec_bytes(),
    {
        self.verified.bytes()
    }
}

/// Why a chunk cannot be checked against an authenticated manifest, if it
/// cannot: its object must be in the manifest, and the chunk must have the
/// shape that object's proof describes.
pub open spec fn spec_authenticated_chunk_shape_error<const OBJECTS: usize, const MAX_DEPTH: usize>(
    manifest: AuthenticatedManifest<OBJECTS>,
    object_digest: Digest,
    bytes: Seq<u8>,
    proof: MerkleProof<MAX_DEPTH>,
) -> Option<AuthenticatedChunkError> {
    match spec_find_by_digest(manifest.spec_objects(), object_digest, 0) {
        None => Some(AuthenticatedChunkError::UnknownObject),
        Some(d) => match spec_chunk_shape_error(d, bytes, proof) {
            Some(e) => Some(AuthenticatedChunkError::Verification(e)),
            None => None,
        },
    }
}

/// Verifies one chunk of an object named by an authenticated manifest.
///
/// Membership and shape are decided here; a chunk of the right shape is
/// accepted or refused as `verify_chunk` decides against the manifest's
/// descriptor for the object.
pub fn verify_authenticated_chunk<'a, const OBJECTS: usize, const MAX_DEPTH: usize, H: MerkleHasher>(
    manifest: &AuthenticatedManifest<OBJECTS>,
    object_digest: Digest,
    bytes: &'a [u8],
    proof: &MerkleProof<MAX_DEPTH>,
    hasher: &H,
) -> (r: Result<AuthenticatedChunk<'a>, AuthenticatedChunkError>)
    ensures
        match spec_authenticated_chunk_shape_error(*manifest, object_digest, bytes@, *proof) {
            Some(e) => r == Err::<AuthenticatedChunk<'a>, AuthenticatedChunkError>(e),
            None => {
                let d = spec_find_by_digest(manifest.spec_objects(), object_digest, 0)->Some_0;
                if spec_merkle_root(hasher, d, bytes@, *proof) == d.spec_digest() {
                    (r matches Ok(c) && c.spec_descriptor() == d && c.spec_generation()
                        == manifest.spec_generation() && c.spec_leaf_index() == proof.spec_leaf_index()
                        && c.spec_bytes() == bytes@)
                } else {
                    r == Err::<AuthenticatedChunk<'a>, AuthenticatedChunkError>(
                        AuthenticatedChunkError::Verification(MerkleProofError::RootMismatch),
                    )
                }
            },
        },
{
    let descriptor = match manifest.find_by_digest(object_digest) {
        Some(d) => d,
        None => return Err(AuthenticatedChunkError::UnknownObject),
    };
    let verified = match verify_chunk(descriptor, bytes, proof, hasher) {
        Ok(v) => v,
        Err(e) => return Err(AuthenticatedChunkError::Verification(e)),
    };
    Ok(AuthenticatedChunk { generation: manifest.generation(), verified })
}

} // verus!

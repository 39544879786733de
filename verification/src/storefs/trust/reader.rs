//! Reading a verified chunk straight from a block device: the block an
//! authenticated manifest names is read into the caller's buffer, and only
//! its logical bytes are handed out, and only after they verify.

use vstd::prelude::*;
use vstd::slice::slice_subrange;
use crate::fs_core::Digest;
use crate::storefs::{AWSTOREFS_BLOCK_BYTES, spec_find_by_digest};
use crate::storefs::merkle::{MerkleHasher, MerkleProof, MerkleProofError, spec_chunk_len, spec_merkle_root};
use crate::storefs::trust::AuthenticatedManifest;
use crate::storefs::trust::chunk::{
    AuthenticatedChunk, AuthenticatedChunkError, verify_authenticated_chunk,
    spec_authenticated_chunk_shape_error,
};

verus! {

/// Minimal read-only block source for AWStoreFS.
///
/// Implementations must fill the complete caller-provided block buffer or return an error. No
/// write, flush, discard, resize, or mutation capability is part of this interface. Each
/// implementation defines `spec_block_reads`: which contents a successful read of a block may
/// leave in the buffer.
pub trait BlockReader {
    type Error;

    /// Whether `bytes` may be the contents read from `physical_block`. An
    /// implementation that does not define it has some fixed, unstated answer.
    open spec fn spec_block_reads(&self, physical_block: u64, bytes: Seq<u8>) -> bool {
        arbitrary()
    }

    fn read_block(&self, physical_block: u64, output: &mut [u8]) -> (r: Result<(), Self::Error>)
        ensures
            final(output)@.len() == old(output)@.len(),
            r is Ok ==> self.spec_block_reads(physical_block, final(output)@),
    ;
}

#[derive(Debug, PartialEq, Eq)]
pub enum ReadAuthenticatedChunkError<E> {
    BufferSize { expected: usize, actual: usize },
    UnknownObject,
    InvalidChunkIndex,
    Device(E),
    Authentication(AuthenticatedChunkError),
}

/// Reads exactly the physical block selected by an authenticated manifest object and verifies the
/// requested logical chunk before exposing it.
///
/// The caller owns `block_buffer`; returned bytes borrow from that buffer. The final object block
/// exposes only its logical bytes, never trailing disk padding.
pub fn read_authenticated_chunk<'a, const OBJECTS: usize, const MAX_DEPTH: usize, D, H>(
    manifest: &AuthenticatedManifest<OBJECTS>,
    object_digest: Digest,
    proof: &MerkleProof<MAX_DEPTH>,
    device: &D,
    block_buffer: &'a mut [u8],
    hasher: &H,
) -> (r: Result<AuthenticatedChunk<'a>, ReadAuthenticatedChunkError<D::Error>>) where
    D: BlockReader,
    H: MerkleHasher,

    ensures
        old(block_buffer)@.len() != 4096 ==> (r matches Err(
            ReadAuthenticatedChunkError::BufferSize { expected: 4096, actual },
        ) && actual == old(block_buffer)@.len()),
        old(block_buffer)@.len() == 4096 ==> match spec_find_by_digest(manifest.spec_objects(), object_digest, 0) {
            None => r matches Err(ReadAuthenticatedChunkError::UnknownObject),
            Some(d) => if proof.spec_leaf_index() >= d.spec_extent().spec_block_count() {
                r matches Err(ReadAuthenticatedChunkError::InvalidChunkIndex)
            } else {
                ||| r matches Err(ReadAuthenticatedChunkError::Device(_))
                ||| {
                    let block = (d.spec_extent().spec_first_block() + proof.spec_leaf_index()) as u64;
                    let bytes = final(block_buffer)@.subrange(
                        0,
                        spec_chunk_len(d.spec_extent().spec_logical_bytes(), proof.spec_leaf_index()),
                    );
                    &&& device.spec_block_reads(block, final(block_buffer)@)
                    &&& match spec_authenticated_chunk_shape_error(*manifest, object_digest, bytes, *proof) {
                        Some(e) => r matches Err(ReadAuthenticatedChunkError::Authentication(a)) && a == e,
                        None => if spec_merkle_root(hasher, d, bytes, *proof) == d.spec_digest() {
                            (r matches Ok(c) && c.spec_descriptor() == d && c.spec_generation()
                                == manifest.spec_generation() && c.spec_leaf_index() == proof.spec_leaf_index()
                                && c.spec_bytes() == bytes)
                        } else {
                            (r matches Err(ReadAuthenticatedChunkError::Authentication(a)) && a
                                == AuthenticatedChunkError::Verification(MerkleProofError::RootMismatch))
                        },
                    }
                }
            },
        },
{
    let expected_block_bytes = AWSTOREFS_BLOCK_BYTES as usize;
    if block_buffer.len() != expected_block_bytes {
        return Err(
            ReadAuthenticatedChunkError::BufferSize {
                expected: expected_block_bytes,
                actual: block_buffer.len(),
            },
        );
    }
    let descriptor = match manifest.find_by_digest(object_digest) {
        Some(d) => d,
        None => return Err(ReadAuthenticatedChunkError::UnknownObject),
    };
    let window = match descriptor.extent().read_window(proof.leaf_index()) {
        Some(w) => w,
        None => return Err(ReadAuthenticatedChunkError::InvalidChunkIndex),
    };
    let mut i: usize = 0;
    while i < block_buffer.len()
        invariant
            block_buffer@.len() == 4096,
        decreases block_buffer@.len() - i,
    {
        block_buffer[i] = 0;
        i = i + 1;
    }
    match device.read_block(window.physical_block(), block_buffer) {
        Ok(()) => {},
        Err(e) => return Err(ReadAuthenticatedChunkError::Device(e)),
    }
    let buffer: &'a [u8] = block_buffer;
    let logical = slice_subrange(buffer, 0, window.valid_bytes() as usize);
    match verify_authenticated_chunk(manifest, object_digest, logical, proof, hasher) {
        Ok(chunk) => Ok(chunk),
        Err(e) => Err(ReadAuthenticatedChunkError::Authentication(e)),
    }
}

} // verus!

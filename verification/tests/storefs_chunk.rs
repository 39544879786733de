use awos::fs_core::Digest;
use awos::storefs::merkle::{MerkleHasher, MerkleProof, MerkleProofError};
use awos::storefs::trust::chunk::{verify_authenticated_chunk, AuthenticatedChunkError};
use awos::storefs::trust::{authenticate_manifest, AuthenticatedManifest, ManifestAuthenticator};
use awos::storefs::wire::{encode_manifest, MANIFEST_HEADER_BYTES, OBJECT_RECORD_BYTES};
use awos::storefs::{ObjectClass, ObjectDescriptor, ObjectExtent, StoreManifest};

fn digest(seed: u8) -> Digest {
    Digest::new([seed.max(1); 32]).unwrap()
}

struct Allow;

impl ManifestAuthenticator for Allow {
    fn authenticate(&self, _canonical_manifest: &[u8]) -> bool {
        true
    }
}

struct SingleLeafHasher;

impl MerkleHasher for SingleLeafHasher {
    fn hash_leaf(&self, _leaf_index: u64, _valid_bytes: u32, bytes: &[u8]) -> Digest {
        digest(bytes.first().copied().unwrap_or(1))
    }

    fn hash_parent(&self, level: u32, left: Digest, right: Digest) -> Digest {
        let seed = left.bytes()[0] ^ right.bytes()[0] ^ (level as u8).wrapping_add(1);
        digest(seed)
    }
}

fn authenticated_manifest() -> AuthenticatedManifest<1> {
    let mut manifest = StoreManifest::<1>::new(42, 64).unwrap();
    manifest
        .push(ObjectDescriptor::new(
            digest(7),
            ObjectClass::SystemComponent,
            ObjectExtent::new(8, 1, 4).unwrap(),
        ))
        .unwrap();
    let mut bytes = [0_u8; MANIFEST_HEADER_BYTES + OBJECT_RECORD_BYTES];
    let used = encode_manifest(&manifest, &mut bytes).unwrap();
    authenticate_manifest::<1, _>(&bytes[..used], 42, &Allow).unwrap()
}

#[test]
fn chunk_requires_authenticated_manifest_membership_and_merkle_root() {
    let manifest = authenticated_manifest();
    let proof = MerkleProof::<0>::new(0, 1, [], 0).unwrap();
    let bytes = [7_u8; 4];
    let chunk = verify_authenticated_chunk(
        &manifest,
        digest(7),
        &bytes,
        &proof,
        &SingleLeafHasher,
    )
    .unwrap();
    assert_eq!(chunk.generation(), 42);
    assert_eq!(chunk.leaf_index(), 0);
    assert_eq!(chunk.bytes(), &bytes);
}

#[test]
fn unknown_or_corrupt_chunk_fails_closed() {
    let manifest = authenticated_manifest();
    let proof = MerkleProof::<0>::new(0, 1, [], 0).unwrap();
    assert!(matches!(
        verify_authenticated_chunk(
            &manifest,
            digest(8),
            &[7_u8; 4],
            &proof,
            &SingleLeafHasher
        ),
        Err(AuthenticatedChunkError::UnknownObject)
    ));
    assert!(matches!(
        verify_authenticated_chunk(
            &manifest,
            digest(7),
            &[8_u8; 4],
            &proof,
            &SingleLeafHasher
        ),
        Err(AuthenticatedChunkError::Verification(
            MerkleProofError::RootMismatch
        ))
    ));
}

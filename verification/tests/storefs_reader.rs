use awos::fs_core::Digest;
use awos::storefs::merkle::{MerkleHasher, MerkleProof, MerkleProofError};
use awos::storefs::trust::chunk::AuthenticatedChunkError;
use awos::storefs::trust::reader::{read_authenticated_chunk, BlockReader, ReadAuthenticatedChunkError};
use awos::storefs::trust::{authenticate_manifest, AuthenticatedManifest, ManifestAuthenticator};
use awos::storefs::wire::{encode_manifest, MANIFEST_HEADER_BYTES, OBJECT_RECORD_BYTES};
use awos::storefs::{ObjectClass, ObjectDescriptor, ObjectExtent, StoreManifest};

fn digest(seed: u8) -> Digest {
    Digest::new([seed.max(1); 32]).unwrap()
}

struct Allow;

impl ManifestAuthenticator for Allow {
    fn authenticate(&self, _canonical_manifest: &[u8]) -> bool {
        true
    }
}

struct SingleLeafHasher;

impl MerkleHasher for SingleLeafHasher {
    fn hash_leaf(&self, _leaf_index: u64, _valid_bytes: u32, bytes: &[u8]) -> Digest {
        digest(bytes.first().copied().unwrap_or(1))
    }

    fn hash_parent(&self, level: u32, left: Digest, right: Digest) -> Digest {
        let seed = left.bytes()[0] ^ right.bytes()[0] ^ (level as u8).wrapping_add(1);
        digest(seed)
    }
}

struct FakeDevice {
    expected_block: u64,
    bytes: [u8; 4096],
    fail: bool,
}

impl BlockReader for FakeDevice {
    type Error = &'static str;

    fn read_block(&self, physical_block: u64, output: &mut [u8]) -> Result<(), Self::Error> {
        if self.fail {
            return Err("device failure");
        }
        if physical_block != self.expected_block || output.len() != self.bytes.len() {
            return Err("unexpected read");
        }
        output.copy_from_slice(&self.bytes);
        Ok(())
    }
}

fn trusted_single_block_manifest(logical_bytes: u64) -> AuthenticatedManifest<1> {
    let mut manifest = StoreManifest::<1>::new(42, 64).unwrap();
    manifest
        .push(ObjectDescriptor::new(
            digest(7),
            ObjectClass::SystemComponent,
            ObjectExtent::new(8, 1, logical_bytes).unwrap(),
        ))
        .unwrap();
    let mut bytes = [0_u8; MANIFEST_HEADER_BYTES + OBJECT_RECORD_BYTES];
    let used = encode_manifest(&manifest, &mut bytes).unwrap();
    authenticate_manifest::<1, _>(&bytes[..used], 42, &Allow).unwrap()
}

#[test]
fn reader_uses_authenticated_extent_and_exposes_only_logical_bytes() {
    let manifest = trusted_single_block_manifest(4);
    let proof = MerkleProof::<0>::new(0, 1, [], 0).unwrap();
    let mut disk_block = [99_u8; 4096];
    disk_block[..4].fill(7);
    let device = FakeDevice {
        expected_block: 8,
        bytes: disk_block,
        fail: false,
    };
    let mut buffer = [0_u8; 4096];
    let chunk = read_authenticated_chunk(
        &manifest,
        digest(7),
        &proof,
        &device,
        &mut buffer,
        &SingleLeafHasher,
    )
    .unwrap();
    assert_eq!(chunk.bytes(), &[7_u8; 4]);
    assert_eq!(chunk.generation(), 42);
}

#[test]
fn reader_rejects_wrong_buffer_unknown_object_and_device_failure() {
    let manifest = trusted_single_block_manifest(4);
    let proof = MerkleProof::<0>::new(0, 1, [], 0).unwrap();
    let device = FakeDevice {
        expected_block: 8,
        bytes: [7_u8; 4096],
        fail: false,
    };
    let mut short = [0_u8; 4095];
    assert_eq!(
        read_authenticated_chunk(
            &manifest,
            digest(7),
            &proof,
            &device,
            &mut short,
            &SingleLeafHasher
        )
        .err(),
        Some(ReadAuthenticatedChunkError::BufferSize {
            expected: 4096,
            actual: 4095
        })
    );

    let mut buffer = [0_u8; 4096];
    assert!(matches!(
        read_authenticated_chunk(
            &manifest,
            digest(8),
            &proof,
            &device,
            &mut buffer,
            &SingleLeafHasher
        ),
        Err(ReadAuthenticatedChunkError::UnknownObject)
    ));

    let failing = FakeDevice {
        expected_block: 8,
        bytes: [7_u8; 4096],
        fail: true,
    };
    assert_eq!(
        read_authenticated_chunk(
            &manifest,
            digest(7),
            &proof,
            &failing,
            &mut buffer,
            &SingleLeafHasher
        )
        .err(),
        Some(ReadAuthenticatedChunkError::Device("device failure"))
    );
}

#[test]
fn reader_never_returns_corrupt_disk_bytes() {
    let manifest = trusted_single_block_manifest(4);
    let proof = MerkleProof::<0>::new(0, 1, [], 0).unwrap();
    let device = FakeDevice {
        expected_block: 8,
        bytes: [8_u8; 4096],
        fail: false,
    };
    let mut buffer = [0_u8; 4096];
    assert!(matches!(
        read_authenticated_chunk(
            &manifest,
            digest(7),
            &proof,
            &device,
            &mut buffer,
            &SingleLeafHasher
        ),
        Err(ReadAuthenticatedChunkError::Authentication(
            AuthenticatedChunkError::Verification(MerkleProofError::RootMismatch)
        ))
    ));
}

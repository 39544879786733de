use awos::fs_core::Digest;
use awos::storefs::merkle::{required_depth, verify_chunk, MerkleHasher, MerkleProof, MerkleProofError};
use awos::storefs::{ObjectClass, ObjectDescriptor, ObjectExtent};

fn digest(seed: u8) -> Digest {
    Digest::new([seed.max(1); 32]).unwrap()
}

struct TestHasher;

impl MerkleHasher for TestHasher {
    fn hash_leaf(&self, leaf_index: u64, valid_bytes: u32, bytes: &[u8]) -> Digest {
        let seed = bytes.first().copied().unwrap_or(1)
            ^ leaf_index as u8
            ^ (valid_bytes as u8).wrapping_mul(3);
        digest(seed)
    }

    fn hash_parent(&self, level: u32, left: Digest, right: Digest) -> Digest {
        let seed = left.bytes()[0] ^ right.bytes()[0] ^ (level as u8).wrapping_add(17);
        digest(seed)
    }
}

#[test]
fn required_depth_handles_even_and_odd_trees() {
    assert_eq!(required_depth(1), 0);
    assert_eq!(required_depth(2), 1);
    assert_eq!(required_depth(3), 2);
    assert_eq!(required_depth(4), 2);
    assert_eq!(required_depth(5), 3);
}

#[test]
fn two_leaf_object_verifies_each_chunk_against_same_root() {
    let hasher = TestHasher;
    let first = [4_u8; 4096];
    let second = [9_u8; 904];
    let left = hasher.hash_leaf(0, 4096, &first);
    let right = hasher.hash_leaf(1, 904, &second);
    let root = hasher.hash_parent(0, left, right);
    let descriptor = ObjectDescriptor::new(
        root,
        ObjectClass::SystemComponent,
        ObjectExtent::new(8, 2, 5000).unwrap(),
    );

    let left_proof = MerkleProof::<2>::new(0, 2, [Some(right), None], 1).unwrap();
    let right_proof = MerkleProof::<2>::new(1, 2, [Some(left), None], 1).unwrap();
    assert_eq!(
        verify_chunk(descriptor, &first, &left_proof, &hasher)
            .unwrap()
            .leaf_index(),
        0
    );
    assert_eq!(
        verify_chunk(descriptor, &second, &right_proof, &hasher)
            .unwrap()
            .leaf_index(),
        1
    );
}

#[test]
fn odd_tree_requires_canonical_duplicate_last_shape() {
    let a = digest(1);
    let b = digest(2);
    assert!(matches!(
        MerkleProof::<2>::new(2, 3, [Some(a), Some(b)], 2),
        Err(MerkleProofError::UnexpectedSibling { level: 0 })
    ));
    assert!(MerkleProof::<2>::new(2, 3, [None, Some(b)], 2).is_ok());
}

#[test]
fn verifier_rejects_padding_and_wrong_root() {
    let hasher = TestHasher;
    let bytes = [7_u8; 3];
    let leaf = hasher.hash_leaf(0, 3, &bytes);
    let descriptor = ObjectDescriptor::new(
        leaf,
        ObjectClass::Resource,
        ObjectExtent::new(8, 1, 3).unwrap(),
    );
    let proof = MerkleProof::<1>::new(0, 1, [None], 0).unwrap();

    assert!(verify_chunk(descriptor, &bytes, &proof, &hasher).is_ok());
    assert_eq!(
        verify_chunk(descriptor, &[7_u8; 4], &proof, &hasher).err(),
        Some(MerkleProofError::ChunkLengthMismatch {
            expected: 3,
            actual: 4
        })
    );

    let wrong_descriptor =
        ObjectDescriptor::new(digest(99), ObjectClass::Resource, descriptor.extent());
    assert_eq!(
        verify_chunk(wrong_descriptor, &bytes, &proof, &hasher).err(),
        Some(MerkleProofError::RootMismatch)
    );
}

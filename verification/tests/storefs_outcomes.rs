use awos::fs_core::Digest;
use awos::storefs::merkle::{chunk_outcome, MerkleProofError};
use awos::storefs::trust::{manifest_outcome, ManifestAuthenticationError};
use awos::storefs::wire::{encode_manifest, MANIFEST_HEADER_BYTES, OBJECT_RECORD_BYTES};
use awos::storefs::{
    resident_object_outcome, ObjectClass, ObjectDescriptor, ObjectExtent,
    ObjectVerificationError, StoreManifest,
};

fn digest(seed: u8) -> Digest {
    Digest::new([seed; 32]).unwrap()
}

fn descriptor() -> ObjectDescriptor {
    ObjectDescriptor::new(digest(7), ObjectClass::SystemComponent, ObjectExtent::new(8, 1, 4).unwrap())
}

#[test]
fn resident_outcome_checks_length_before_the_verdict() {
    let bytes = [1, 2, 3, 4];
    let verified = resident_object_outcome(descriptor(), &bytes, true).unwrap();
    assert_eq!(verified.bytes(), &bytes);
    assert_eq!(verified.descriptor(), descriptor());
    assert!(matches!(
        resident_object_outcome(descriptor(), &bytes, false),
        Err(ObjectVerificationError::DigestMismatch)
    ));
    assert!(matches!(
        resident_object_outcome(descriptor(), &bytes[..3], true),
        Err(ObjectVerificationError::LengthMismatch { expected: 4, actual: 3 })
    ));
}

#[test]
fn chunk_outcome_needs_the_descriptor_root() {
    let bytes = [9, 9];
    let chunk = chunk_outcome(descriptor(), &bytes, 3, digest(7)).unwrap();
    assert_eq!(chunk.leaf_index(), 3);
    assert_eq!(chunk.bytes(), &bytes);
    assert!(matches!(
        chunk_outcome(descriptor(), &bytes, 3, digest(8)),
        Err(MerkleProofError::RootMismatch)
    ));
}

#[test]
fn manifest_outcome_follows_authenticity_then_the_bytes() {
    let mut manifest = StoreManifest::<1>::new(42, 64).unwrap();
    manifest.push(descriptor()).unwrap();
    let mut bytes = [0_u8; MANIFEST_HEADER_BYTES + OBJECT_RECORD_BYTES];
    let used = encode_manifest(&manifest, &mut bytes).unwrap();
    assert!(matches!(
        manifest_outcome::<1>(&bytes[..used], 1, false),
        Err(ManifestAuthenticationError::Rejected)
    ));
    let accepted = manifest_outcome::<1>(&bytes[..used], 1, true).unwrap();
    assert_eq!(accepted.generation(), 42);
    assert_eq!(accepted.len(), 1);
    assert!(matches!(
        manifest_outcome::<1>(&bytes[..used], 43, true),
        Err(ManifestAuthenticationError::RollbackRejected { declared: 42, minimum: 43 })
    ));
}

use awos::fs_core::Digest;
use awos::storefs::trust::{
    authenticate_manifest, verify_authenticated_object, AuthenticatedObjectError,
    ManifestAuthenticationError, ManifestAuthenticator,
};
use awos::storefs::wire::{encode_manifest, MANIFEST_HEADER_BYTES, OBJECT_RECORD_BYTES};
use awos::storefs::{
    DigestVerifier, ObjectClass, ObjectDescriptor, ObjectExtent, ObjectVerificationError,
    StoreManifest,
};

fn digest(seed: u8) -> Digest {
    Digest::new([seed; 32]).unwrap()
}

fn canonical_manifest() -> ([u8; MANIFEST_HEADER_BYTES + OBJECT_RECORD_BYTES], usize) {
    let mut manifest = StoreManifest::<1>::new(42, 64).unwrap();
    manifest
        .push(ObjectDescriptor::new(
            digest(7),
            ObjectClass::SystemComponent,
            ObjectExtent::new(8, 1, 4).unwrap(),
        ))
        .unwrap();
    let mut bytes = [0_u8; MANIFEST_HEADER_BYTES + OBJECT_RECORD_BYTES];
    let used = encode_manifest(&manifest, &mut bytes).unwrap();
    (bytes, used)
}

struct Allow;
impl ManifestAuthenticator for Allow {
    fn authenticate(&self, _canonical_manifest: &[u8]) -> bool {
        true
    }
}

struct Reject;
impl ManifestAuthenticator for Reject {
    fn authenticate(&self, _canonical_manifest: &[u8]) -> bool {
        false
    }
}

struct ExactDigest;
impl DigestVerifier for ExactDigest {
    fn verify(&self, expected: Digest, bytes: &[u8]) -> bool {
        expected == digest(bytes.first().copied().unwrap_or(0))
    }
}

#[test]
fn rejected_signature_never_produces_trusted_manifest() {
    let (bytes, used) = canonical_manifest();
    assert!(matches!(
        authenticate_manifest::<1, _>(&bytes[..used], 1, &Reject),
        Err(ManifestAuthenticationError::Rejected)
    ));
}

#[test]
fn authenticated_manifest_enforces_rollback_floor() {
    let (bytes, used) = canonical_manifest();
    assert!(matches!(
        authenticate_manifest::<1, _>(&bytes[..used], 43, &Allow),
        Err(ManifestAuthenticationError::RollbackRejected {
            declared: 42,
            minimum: 43
        })
    ));
    let trusted = authenticate_manifest::<1, _>(&bytes[..used], 42, &Allow).unwrap();
    assert_eq!(trusted.generation(), 42);
    assert_eq!(trusted.len(), 1);
}

#[test]
fn object_must_be_referenced_and_digest_verified() {
    let (bytes, used) = canonical_manifest();
    let trusted = authenticate_manifest::<1, _>(&bytes[..used], 42, &Allow).unwrap();
    let object_bytes = [7_u8; 4];
    let object =
        verify_authenticated_object(&trusted, digest(7), &object_bytes, &ExactDigest).unwrap();
    assert_eq!(object.generation(), 42);
    assert_eq!(object.bytes(), &object_bytes);

    assert!(matches!(
        verify_authenticated_object(&trusted, digest(8), &object_bytes, &ExactDigest),
        Err(AuthenticatedObjectError::UnknownObject)
    ));
    assert!(matches!(
        verify_authenticated_object(&trusted, digest(7), &[8_u8; 4], &ExactDigest),
        Err(AuthenticatedObjectError::Verification(
            ObjectVerificationError::DigestMismatch
        ))
    ));
}

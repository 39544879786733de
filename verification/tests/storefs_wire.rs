use awos::fs_core::Digest;
use awos::storefs::wire::{
    decode_manifest, encode_manifest, verify_manifest_digest, ManifestDecodeError,
    MANIFEST_HEADER_BYTES, OBJECT_RECORD_BYTES,
};
use awos::storefs::{
    DigestVerifier, ManifestPlanError, ObjectClass, ObjectDescriptor, ObjectExtent, StoreManifest,
    AWSTOREFS_BLOCK_BYTES,
};

fn digest(seed: u8) -> Digest {
    Digest::new([seed; 32]).unwrap()
}

fn sample_manifest() -> StoreManifest<4> {
    let mut manifest = StoreManifest::new(42, 128).unwrap();
    manifest
        .push(ObjectDescriptor::new(
            digest(1),
            ObjectClass::Kernel,
            ObjectExtent::new(8, 1, AWSTOREFS_BLOCK_BYTES).unwrap(),
        ))
        .unwrap();
    manifest
        .push(ObjectDescriptor::new(
            digest(2),
            ObjectClass::Resource,
            ObjectExtent::new(9, 1, 7).unwrap(),
        ))
        .unwrap();
    manifest
}

#[test]
fn canonical_manifest_round_trips() {
    let manifest = sample_manifest();
    let mut bytes = [0_u8; MANIFEST_HEADER_BYTES + 4 * OBJECT_RECORD_BYTES];
    let used = encode_manifest(&manifest, &mut bytes).unwrap();
    assert_eq!(used, MANIFEST_HEADER_BYTES + 2 * OBJECT_RECORD_BYTES);
    let parsed = decode_manifest::<4>(&bytes[..used]).unwrap();
    assert_eq!(parsed.generation(), 42);
    assert_eq!(parsed.volume_blocks(), 128);
    assert_eq!(parsed.len(), 2);
    assert_eq!(parsed.object(0), manifest.object(0));
    assert_eq!(parsed.object(1), manifest.object(1));

    let mut encoded_again = [0_u8; MANIFEST_HEADER_BYTES + 4 * OBJECT_RECORD_BYTES];
    let second_used = encode_manifest(&parsed, &mut encoded_again).unwrap();
    assert_eq!(&encoded_again[..second_used], &bytes[..used]);
}

#[test]
fn parser_rejects_unknown_class_and_reserved_bytes() {
    let manifest = sample_manifest();
    let mut bytes = [0_u8; MANIFEST_HEADER_BYTES + 4 * OBJECT_RECORD_BYTES];
    let used = encode_manifest(&manifest, &mut bytes).unwrap();

    let mut unknown_class = bytes;
    unknown_class[MANIFEST_HEADER_BYTES] = 99;
    assert_eq!(
        decode_manifest::<4>(&unknown_class[..used]).err(),
        Some(ManifestDecodeError::InvalidClass(99))
    );

    let mut reserved = bytes;
    reserved[36] = 1;
    assert_eq!(
        decode_manifest::<4>(&reserved[..used]).err(),
        Some(ManifestDecodeError::NonCanonicalReservedBytes)
    );
}

#[test]
fn parser_reuses_semantic_overlap_and_bounds_validation() {
    let manifest = sample_manifest();
    let mut bytes = [0_u8; MANIFEST_HEADER_BYTES + 4 * OBJECT_RECORD_BYTES];
    let used = encode_manifest(&manifest, &mut bytes).unwrap();

    let second = MANIFEST_HEADER_BYTES + OBJECT_RECORD_BYTES;
    bytes[second + 8..second + 16].copy_from_slice(&8_u64.to_le_bytes());
    assert_eq!(
        decode_manifest::<4>(&bytes[..used]).err(),
        Some(ManifestDecodeError::InvalidPlan(
            ManifestPlanError::OverlappingExtent
        ))
    );
}

#[test]
fn parser_is_fixed_capacity_and_exact_length() {
    let manifest = sample_manifest();
    let mut bytes = [0_u8; MANIFEST_HEADER_BYTES + 4 * OBJECT_RECORD_BYTES];
    let used = encode_manifest(&manifest, &mut bytes).unwrap();
    assert_eq!(
        decode_manifest::<1>(&bytes[..used]).err(),
        Some(ManifestDecodeError::ObjectCountOverflow)
    );
    assert_eq!(
        decode_manifest::<4>(&bytes[..used - 1]).err(),
        Some(ManifestDecodeError::InvalidLength)
    );
}

struct FirstByteDigest;

impl DigestVerifier for FirstByteDigest {
    fn verify(&self, expected: Digest, bytes: &[u8]) -> bool {
        expected == digest(bytes.first().copied().unwrap_or(0))
    }
}

#[test]
fn manifest_digest_is_the_verifier_verdict_on_the_exact_bytes() {
    let manifest = sample_manifest();
    let mut bytes = [0_u8; MANIFEST_HEADER_BYTES + 4 * OBJECT_RECORD_BYTES];
    let used = encode_manifest(&manifest, &mut bytes).unwrap();
    let canonical = &bytes[..used];
    let first = canonical[0];
    assert!(verify_manifest_digest(digest(first), canonical, &FirstByteDigest));
    assert!(!verify_manifest_digest(digest(first.wrapping_add(1)), canonical, &FirstByteDigest));
    assert!(!verify_manifest_digest(digest(first), &canonical[1..], &FirstByteDigest));
}

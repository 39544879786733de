use awos::fs_core::{Digest, AWFS_CHECKPOINT_COPIES};
use awos::storefs::{
    verify_resident_object, DigestVerifier, ExtentError, ManifestPlanError, ObjectClass,
    ObjectDescriptor, ObjectExtent, ObjectVerificationError, ReadWindow, StoreManifest,
    AWSTOREFS_BLOCK_BYTES,
};

fn digest(seed: u8) -> Digest {
    Digest::new([seed; 32]).unwrap()
}

fn object(
    seed: u8,
    class: ObjectClass,
    first_block: u64,
    logical_bytes: u64,
) -> ObjectDescriptor {
    let blocks = logical_bytes.div_ceil(AWSTOREFS_BLOCK_BYTES);
    ObjectDescriptor::new(
        digest(seed),
        class,
        ObjectExtent::new(first_block, blocks, logical_bytes).unwrap(),
    )
}

#[test]
fn extent_rejects_reserved_zero_overflow_and_slack_blocks() {
    assert_eq!(
        ObjectExtent::new(0, 1, 1),
        Err(ExtentError::ReservedBlock)
    );
    assert_eq!(
        ObjectExtent::new(AWFS_CHECKPOINT_COPIES, 0, 1),
        Err(ExtentError::ZeroBlocks)
    );
    assert_eq!(
        ObjectExtent::new(AWFS_CHECKPOINT_COPIES, 1, 0),
        Err(ExtentError::ZeroLogicalBytes)
    );
    assert_eq!(
        ObjectExtent::new(u64::MAX, 2, 1),
        Err(ExtentError::BlockRangeOverflow)
    );
    assert_eq!(
        ObjectExtent::new(AWFS_CHECKPOINT_COPIES, 2, 1),
        Err(ExtentError::NonCanonicalBlockCount)
    );
}

#[test]
fn read_windows_never_expose_bytes_past_logical_eof() {
    let extent = ObjectExtent::new(AWFS_CHECKPOINT_COPIES, 2, 5000).unwrap();
    assert_eq!(
        extent.read_window(0),
        Some(ReadWindow::new(AWFS_CHECKPOINT_COPIES, 4096))
    );
    assert_eq!(
        extent.read_window(1),
        Some(ReadWindow::new(AWFS_CHECKPOINT_COPIES + 1, 904))
    );
    assert_eq!(extent.read_window(2), None);
}

#[test]
fn manifest_rejects_duplicate_digest_overlap_and_out_of_bounds() {
    let mut manifest = StoreManifest::<4>::new(42, 100).unwrap();
    let first = object(1, ObjectClass::Kernel, 10, 4096);
    manifest.push(first).unwrap();

    let duplicate = object(1, ObjectClass::Resource, 20, 4096);
    assert_eq!(
        manifest.push(duplicate),
        Err(ManifestPlanError::DuplicateDigest)
    );

    let overlapping = object(2, ObjectClass::Resource, 10, 4096);
    assert_eq!(
        manifest.push(overlapping),
        Err(ManifestPlanError::OverlappingExtent)
    );

    let outside = object(3, ObjectClass::Resource, 99, 8192);
    assert_eq!(
        manifest.push(outside),
        Err(ManifestPlanError::ObjectOutsideVolume)
    );
}

#[test]
fn manifest_lookup_is_content_addressed() {
    let mut manifest = StoreManifest::<2>::new(7, 64).unwrap();
    let kernel = object(1, ObjectClass::Kernel, 8, 4096);
    let resource = object(2, ObjectClass::Resource, 9, 20);
    manifest.push(kernel).unwrap();
    manifest.push(resource).unwrap();
    assert_eq!(manifest.find_by_digest(digest(2)), Some(resource));
    assert_eq!(manifest.find_by_digest(digest(9)), None);
}

struct ExactVerifier;

impl DigestVerifier for ExactVerifier {
    fn verify(&self, expected: Digest, bytes: &[u8]) -> bool {
        expected == digest(bytes.first().copied().unwrap_or(0))
    }
}

#[test]
fn resident_verification_requires_exact_length_and_digest_evidence() {
    let descriptor = object(7, ObjectClass::SystemComponent, 12, 4);
    let good = [7_u8; 4];
    let verified = verify_resident_object(descriptor, &good, &ExactVerifier).unwrap();
    assert_eq!(verified.descriptor(), descriptor);
    assert_eq!(verified.bytes(), &good);

    assert_eq!(
        verify_resident_object(descriptor, &[7_u8; 3], &ExactVerifier).err(),
        Some(ObjectVerificationError::LengthMismatch {
            expected: 4,
            actual: 3,
        })
    );
    assert_eq!(
        verify_resident_object(descriptor, &[8_u8; 4], &ExactVerifier).err(),
        Some(ObjectVerificationError::DigestMismatch)
    );
}

#[test]
fn digest_verification_does_not_grant_execution_authority() {
    assert!(ObjectClass::Kernel.contains_executable_code());
    assert!(ObjectClass::ApplicationPackage.contains_executable_code());
    assert!(!ObjectClass::Resource.contains_executable_code());
    // No execution-permit API exists here by design. Authenticated manifest provenance and
    // anti-rollback must be added as independent proof layers before execution is possible.
}

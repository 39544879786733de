use awos::fs_core::{
    select_checkpoint, CheckpointRecord, CheckpointSelectionError, Digest, MetadataBlockHeader,
    MetadataBlockKind, MetadataValidationError, RootPointer, VolumeId, VolumeMode,
    AWFS_DIGEST_BYTES, AWFS_MAX_PAYLOAD_BYTES, AWFS_VOLUME_ID_BYTES,
};

fn digest(seed: u8) -> Digest {
    Digest::new([seed; AWFS_DIGEST_BYTES]).unwrap()
}

fn volume(seed: u8) -> VolumeId {
    VolumeId::new([seed; AWFS_VOLUME_ID_BYTES]).unwrap()
}

fn root(block: u64, seed: u8) -> RootPointer {
    RootPointer::new(block, digest(seed)).unwrap()
}

fn checkpoint(sequence: u64, block: u64, seed: u8) -> CheckpointRecord {
    CheckpointRecord::new(
        sequence,
        volume(1),
        VolumeMode::EncryptedMutableState,
        root(block, seed),
        None,
    )
    .unwrap()
}

#[test]
fn sentinels_and_reserved_checkpoint_blocks_are_rejected() {
    assert_eq!(Digest::new([0; AWFS_DIGEST_BYTES]), None);
    assert_eq!(VolumeId::new([0; AWFS_VOLUME_ID_BYTES]), None);
    assert_eq!(RootPointer::new(0, digest(1)), None);
    assert_eq!(RootPointer::new(3, digest(1)), None);
    assert!(RootPointer::new(4, digest(1)).is_some());
    assert_eq!(
        CheckpointRecord::new(
            0,
            volume(1),
            VolumeMode::EncryptedMutableState,
            root(4, 1),
            None,
        ),
        None
    );
}

#[test]
fn newest_checkpoint_wins_when_identity_and_mode_match() {
    let records = [
        Some(checkpoint(7, 10, 1)),
        Some(checkpoint(9, 12, 2)),
        Some(checkpoint(8, 11, 3)),
        None,
    ];
    let selected = select_checkpoint(&records).unwrap();
    assert_eq!(selected.sequence(), 9);
    assert_eq!(selected.root().physical_block(), 12);
}

#[test]
fn identical_redundant_checkpoint_is_accepted() {
    let record = checkpoint(9, 12, 2);
    let records = [Some(record), Some(record), None, None];
    assert_eq!(select_checkpoint(&records), Ok(record));
}

#[test]
fn conflicting_equal_sequence_fails_closed() {
    let records = [
        Some(checkpoint(9, 12, 2)),
        Some(checkpoint(9, 13, 3)),
        None,
        None,
    ];
    assert_eq!(
        select_checkpoint(&records),
        Err(CheckpointSelectionError::ConflictingSequence { sequence: 9 })
    );
}

#[test]
fn mixed_volume_or_mode_never_gets_silently_merged() {
    let first = checkpoint(7, 10, 1);
    let other_volume = CheckpointRecord::new(
        8,
        volume(2),
        VolumeMode::EncryptedMutableState,
        root(11, 2),
        None,
    )
    .unwrap();
    assert_eq!(
        select_checkpoint(&[Some(first), Some(other_volume)]),
        Err(CheckpointSelectionError::VolumeMismatch)
    );

    let other_mode = CheckpointRecord::new(
        8,
        volume(1),
        VolumeMode::ImmutableVerifiedStore,
        root(11, 2),
        None,
    )
    .unwrap();
    assert_eq!(
        select_checkpoint(&[Some(first), Some(other_mode)]),
        Err(CheckpointSelectionError::ModeMismatch)
    );
}

#[test]
fn metadata_header_is_bounded_and_location_checked() {
    assert_eq!(
        MetadataBlockHeader::new(MetadataBlockKind::Root, 1, 1, 0, 20, 64),
        Err(MetadataValidationError::ZeroTransaction)
    );
    assert_eq!(
        MetadataBlockHeader::new(MetadataBlockKind::Root, 0, 1, 1, 20, 64),
        Err(MetadataValidationError::ZeroOwner)
    );
    assert_eq!(
        MetadataBlockHeader::new(
            MetadataBlockKind::Root,
            1,
            1,
            1,
            20,
            AWFS_MAX_PAYLOAD_BYTES + 1,
        ),
        Err(MetadataValidationError::PayloadTooLarge)
    );

    let header = MetadataBlockHeader::new(
        MetadataBlockKind::Directory,
        7,
        42,
        9,
        123,
        AWFS_MAX_PAYLOAD_BYTES,
    )
    .unwrap();
    assert_eq!(header.validate_at(123), Ok(()));
    assert_eq!(
        header.validate_at(124),
        Err(MetadataValidationError::WrongPhysicalLocation {
            expected: 123,
            actual: 124,
        })
    );
}

#[test]
fn volume_modes_encode_different_trust_policies() {
    assert!(!VolumeMode::ImmutableVerifiedStore.is_mutable());
    assert!(VolumeMode::ImmutableVerifiedStore.requires_content_authentication());
    assert!(!VolumeMode::ImmutableVerifiedStore.requires_encryption());

    assert!(VolumeMode::EncryptedMutableState.is_mutable());
    assert!(VolumeMode::EncryptedMutableState.requires_content_authentication());
    assert!(VolumeMode::EncryptedMutableState.requires_encryption());
}

#[test]
fn checkpoint_accessors_return_what_was_recorded() {
    let previous = root(10, 9);
    let record = CheckpointRecord::new(
        5,
        volume(3),
        VolumeMode::ImmutableVerifiedStore,
        root(11, 4),
        Some(previous),
    )
    .unwrap();
    assert_eq!(record.sequence(), 5);
    assert_eq!(record.volume_id(), volume(3));
    assert_eq!(record.mode(), VolumeMode::ImmutableVerifiedStore);
    assert_eq!(record.root().physical_block(), 11);
    assert_eq!(record.root().digest(), digest(4));
    assert_eq!(record.previous_root(), Some(previous));
    assert!(record.is_supported());
    assert_eq!(
        CheckpointRecord::new(6, volume(3), VolumeMode::ImmutableVerifiedStore, previous, Some(previous)),
        None
    );
}

#[test]
fn selection_with_no_records_is_unsupported() {
    let records: [Option<CheckpointRecord>; 4] = [None, None, None, None];
    assert_eq!(
        select_checkpoint(&records),
        Err(CheckpointSelectionError::NoValidCheckpoint)
    );
}

#[test]
fn selection_does_not_depend_on_copy_order() {
    let older_a = checkpoint(9, 12, 2);
    let older_b = checkpoint(9, 13, 3);
    let newest = checkpoint(10, 14, 4);
    assert_eq!(select_checkpoint(&[Some(older_a), Some(older_b), Some(newest)]), Ok(newest));
    assert_eq!(select_checkpoint(&[Some(newest), Some(older_a), Some(older_b)]), Ok(newest));
    let rival = checkpoint(10, 15, 5);
    assert_eq!(
        select_checkpoint(&[Some(newest), Some(older_a), Some(rival)]),
        Err(CheckpointSelectionError::ConflictingSequence { sequence: 10 })
    );
}

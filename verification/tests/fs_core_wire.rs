use awos::fs_core::wire::{
    decode_checkpoint_payload, encode_checkpoint_payload, CheckpointDecodeError,
};
use awos::fs_core::{CheckpointRecord, Digest, RootPointer, VolumeId, VolumeMode};

/// The flag byte value that announces a previous root.
const PREVIOUS_ROOT_PRESENT: u8 = 1;

fn digest(seed: u8) -> Digest {
    Digest::new([seed; 32]).unwrap()
}

fn record(previous: bool) -> CheckpointRecord {
    CheckpointRecord::new(
        9,
        VolumeId::new([7; 16]).unwrap(),
        VolumeMode::EncryptedMutableState,
        RootPointer::new(42, digest(1)).unwrap(),
        if previous { Some(RootPointer::new(41, digest(2)).unwrap()) } else { None },
    )
    .unwrap()
}

#[test]
fn canonical_payload_round_trips() {
    for original in [record(false), record(true)] {
        let encoded = encode_checkpoint_payload(original);
        assert_eq!(decode_checkpoint_payload(&encoded), Ok(original));
        assert_eq!(encode_checkpoint_payload(original), encoded);
    }
}

#[test]
fn parser_requires_exact_length_magic_and_version() {
    let encoded = encode_checkpoint_payload(record(false));
    assert_eq!(
        decode_checkpoint_payload(&encoded[..127]),
        Err(CheckpointDecodeError::InvalidLength)
    );

    let mut bad_magic = encoded;
    bad_magic[0] ^= 0x80;
    assert_eq!(
        decode_checkpoint_payload(&bad_magic),
        Err(CheckpointDecodeError::InvalidMagic)
    );

    let mut bad_version = encoded;
    bad_version[8..12].copy_from_slice(&2_u32.to_le_bytes());
    assert_eq!(
        decode_checkpoint_payload(&bad_version),
        Err(CheckpointDecodeError::UnsupportedVersion(2))
    );
}

#[test]
fn parser_rejects_noncanonical_reserved_and_hidden_previous_bytes() {
    let encoded = encode_checkpoint_payload(record(false));

    let mut reserved = encoded;
    reserved[14] = 1;
    assert_eq!(
        decode_checkpoint_payload(&reserved),
        Err(CheckpointDecodeError::NonCanonicalReservedBytes)
    );

    let mut hidden_previous = encoded;
    hidden_previous[80] = 1;
    assert_eq!(
        decode_checkpoint_payload(&hidden_previous),
        Err(CheckpointDecodeError::NonCanonicalReservedBytes)
    );
}

#[test]
fn parser_rejects_invalid_modes_flags_and_root_material() {
    let encoded = encode_checkpoint_payload(record(false));

    let mut bad_mode = encoded;
    bad_mode[12] = 99;
    assert_eq!(
        decode_checkpoint_payload(&bad_mode),
        Err(CheckpointDecodeError::InvalidMode(99))
    );

    let mut bad_flag = encoded;
    bad_flag[13] = 2;
    assert_eq!(
        decode_checkpoint_payload(&bad_flag),
        Err(CheckpointDecodeError::InvalidPreviousRootFlag(2))
    );

    let mut zero_digest = encoded;
    zero_digest[48..80].fill(0);
    assert_eq!(
        decode_checkpoint_payload(&zero_digest),
        Err(CheckpointDecodeError::InvalidRoot)
    );

    let mut reserved_root_block = encoded;
    reserved_root_block[40..48].copy_from_slice(&3_u64.to_le_bytes());
    assert_eq!(
        decode_checkpoint_payload(&reserved_root_block),
        Err(CheckpointDecodeError::InvalidRoot)
    );
}

#[test]
fn parser_rejects_previous_root_equal_to_current_root() {
    let current = record(false);
    let mut encoded = encode_checkpoint_payload(current);
    encoded[13] = PREVIOUS_ROOT_PRESENT;
    encoded[80..88].copy_from_slice(&current.root().physical_block().to_le_bytes());
    encoded[88..120].copy_from_slice(&current.root().digest().bytes());
    assert_eq!(
        decode_checkpoint_payload(&encoded),
        Err(CheckpointDecodeError::InvalidRecord)
    );
}

//! Canonical byte encoding of the semantic part of an AWFS checkpoint.
//!
//! Layout of the 128-byte payload:
//! `0..8` magic, `8..12` format version, `12` mode, `13` previous-root flag,
//! `14..16` reserved, `16..24` sequence, `24..40` volume id, `40..48` root
//! block, `48..80` root digest, `80..88` previous root block, `88..120`
//! previous root digest, `120..128` reserved. All integers little-endian.

use vstd::prelude::*;
use vstd::slice::slice_subrange;
use crate::generation::{any_nonzero, has_nonzero_byte};
use crate::le_bytes::{
    u32_le, u64_le, u32_bytes, u64_bytes, read_u32_le, read_u64_le, lemma_u32_round_trip,
    lemma_u64_round_trip, lemma_u32_bytes_of_read, lemma_u64_bytes_of_read,
};
use crate::fs_core::{
    AWFS_FORMAT_VERSION, AWFS_CHECKPOINT_COPIES, CheckpointRecord, Digest, RootPointer, VolumeId,
    VolumeMode, lemma_record_fields_determine, lemma_root_fields_determine,
    lemma_volume_bytes_determine,
};

verus! {

pub const CHECKPOINT_PAYLOAD_BYTES: usize = 128;

const MODE_IMMUTABLE_VERIFIED_STORE: u8 = 1;
const MODE_ENCRYPTED_MUTABLE_STATE: u8 = 2;
const PREVIOUS_ROOT_ABSENT: u8 = 0;
const PREVIOUS_ROOT_PRESENT: u8 = 1;

#[derive(Clone, Copy, Debug, PartialEq, Eq, Structural)]
pub enum CheckpointDecodeError {
    InvalidLength,
    InvalidMagic,
    UnsupportedVersion(u32),
    InvalidMode(u8),
    InvalidPreviousRootFlag(u8),
    NonCanonicalReservedBytes,
    InvalidVolumeId,
    InvalidRoot,
    InvalidPreviousRoot,
    InvalidRecord,
}

/// The magic bytes `AWFSCP01`.
pub open spec fn spec_magic() -> Seq<u8> {
    seq![0x41u8, 0x57u8, 0x46u8, 0x53u8, 0x43u8, 0x50u8, 0x30u8, 0x31u8]
}

/// `n` zero bytes.
pub open spec fn spec_zeros(n: nat) -> Seq<u8> {
    Seq::new(n, |i: int| 0u8)
}

/// The byte that encodes a volume mode.
pub open spec fn spec_mode_byte(mode: VolumeMode) -> u8 {
    match mode {
        VolumeMode::ImmutableVerifiedStore => 1u8,
        VolumeMode::EncryptedMutableState => 2u8,
    }
}

/// The mode a mode byte encodes (meaningful for the two valid bytes).
pub open spec fn spec_mode_of(b: u8) -> VolumeMode {
    if b == 1u8 {
        VolumeMode::ImmutableVerifiedStore
    } else {
        VolumeMode::EncryptedMutableState
    }
}

/// Block number followed by digest bytes.
pub open spec fn spec_root_bytes(root: RootPointer) -> Seq<u8> {
    u64_bytes(root.spec_physical_block()) + root.spec_digest().spec_bytes()
}

/// The canonical payload of a record.
pub open spec fn spec_encode(record: CheckpointRecord) -> Seq<u8> {
    spec_magic() + u32_bytes(record.spec_format_version()) + seq![
        spec_mode_byte(record.spec_mode()),
        if record.spec_previous_root() is Some {
            1u8
        } else {
            0u8
        },
        0u8,
        0u8,
    ] + u64_bytes(record.spec_sequence()) + record.spec_volume_id().spec_bytes() + spec_root_bytes(
        record.spec_root(),
    ) + match record.spec_previous_root() {
        Some(previous) => spec_root_bytes(previous),
        None => spec_zeros(40),
    } + spec_zeros(8)
}

/// Whether the root encoded at `block_off` / `digest_off` is acceptable.
pub open spec fn spec_root_ok(s: Seq<u8>, block_off: int, digest_off: int) -> bool {
    u64_le(s, block_off) >= AWFS_CHECKPOINT_COPIES && any_nonzero(
        s.subrange(digest_off, digest_off + 32),
    )
}

/// The error `decode_checkpoint_payload` reports for `s`, if any; checks
/// are made in this order.
pub open spec fn spec_decode_error(s: Seq<u8>) -> Option<CheckpointDecodeError> {
    if s.len() != CHECKPOINT_PAYLOAD_BYTES {
        Some(CheckpointDecodeError::InvalidLength)
    } else if s.subrange(0, 8) != spec_magic() {
        Some(CheckpointDecodeError::InvalidMagic)
    } else if u32_le(s, 8) != AWFS_FORMAT_VERSION {
        Some(CheckpointDecodeError::UnsupportedVersion(u32_le(s, 8)))
    } else if s[12] != 1u8 && s[12] != 2u8 {
        Some(CheckpointDecodeError::InvalidMode(s[12]))
    } else if s[13] != 0u8 && s[13] != 1u8 {
        Some(CheckpointDecodeError::InvalidPreviousRootFlag(s[13]))
    } else if any_nonzero(s.subrange(14, 16)) || any_nonzero(s.subrange(120, 128)) {
        Some(CheckpointDecodeError::NonCanonicalReservedBytes)
    } else if !any_nonzero(s.subrange(24, 40)) {
        Some(CheckpointDecodeError::InvalidVolumeId)
    } else if !spec_root_ok(s, 40, 48) {
        Some(CheckpointDecodeError::InvalidRoot)
    } else if s[13] == 1u8 && !spec_root_ok(s, 80, 88) {
        Some(CheckpointDecodeError::InvalidPreviousRoot)
    } else if s[13] == 0u8 && any_nonzero(s.subrange(80, 120)) {
        Some(CheckpointDecodeError::NonCanonicalReservedBytes)
    } else if u64_le(s, 16) == 0 || (s[13] == 1u8 && u64_le(s, 80) == u64_le(
        s,
        40,
    ) && s.subrange(88, 120) == s.subrange(48, 80)) {
        Some(CheckpointDecodeError::InvalidRecord)
    } else {
        None
    }
}

/// Whether `root` is the root encoded at `block_off` / `digest_off`.
pub open spec fn spec_root_at(s: Seq<u8>, block_off: int, digest_off: int, root: RootPointer) -> bool {
    root.spec_physical_block() == u64_le(s, block_off) && root.spec_digest().spec_bytes()
        == s.subrange(digest_off, digest_off + 32)
}

/// Whether `record` is the record that the payload `s` describes.
pub open spec fn spec_decodes_to(s: Seq<u8>, record: CheckpointRecord) -> bool {
    &&& record.spec_format_version() == AWFS_FORMAT_VERSION
    &&& record.spec_mode() == spec_mode_of(s[12])
    &&& record.spec_sequence() == u64_le(s, 16)
    &&& record.spec_volume_id().spec_bytes() == s.subrange(24, 40)
    &&& spec_root_at(s, 40, 48, record.spec_root())
    &&& (record.spec_previous_root() is Some <==> s[13] == 1u8)
    &&& record.spec_previous_root() matches Some(p) ==> spec_root_at(s, 80, 88, p)
}

/// Appends `bytes` to `out`.
fn push_bytes(out: &mut Vec<u8>, bytes: &[u8])
    ensures
        final(out)@ == old(out)@ + bytes@,
{
    let mut i: usize = 0;
    while i < bytes.len()
        invariant
            i <= bytes@.len(),
            out@ == old(out)@ + bytes@.subrange(0, i as int),
        decreases bytes@.len() - i,
    {
        out.push(bytes[i]);
        i = i + 1;
        assert(bytes@.subrange(0, i as int) =~= bytes@.subrange(0, i - 1).push(bytes@[i - 1]));
    }
    assert(bytes@.subrange(0, bytes@.len() as int) =~= bytes@);
}

/// Appends `count` zero bytes to `out`.
fn push_zeros(out: &mut Vec<u8>, count: usize)
    ensures
        final(out)@ == old(out)@ + spec_zeros(count as nat),
{
    let mut i: usize = 0;
    while i < count
        invariant
            i <= count,
            out@ == old(out)@ + spec_zeros(i as nat),
        decreases count - i,
    {
        out.push(0u8);
        i = i + 1;
        assert(spec_zeros(i as nat) =~= spec_zeros((i - 1) as nat).push(0u8));
    }
}

/// Appends the four little-endian bytes of `v`.
fn push_u32_le(out: &mut Vec<u8>, v: u32)
    ensures
        final(out)@ == old(out)@ + u32_bytes(v),
{
    out.push((v & 0xff) as u8);
    out.push(((v >> 8u32) & 0xff) as u8);
    out.push(((v >> 16u32) & 0xff) as u8);
    out.push(((v >> 24u32) & 0xff) as u8);
    assert(out@ =~= old(out)@ + u32_bytes(v));
}

/// Appends the eight little-endian bytes of `v`.
fn push_u64_le(out: &mut Vec<u8>, v: u64)
    ensures
        final(out)@ == old(out)@ + u64_bytes(v),
{
    push_u32_le(out, (v & 0xffff_ffff) as u32);
    push_u32_le(out, (v >> 32u64) as u32);
    assert(out@ =~= old(out)@ + u64_bytes(v));
}

/// Appends the block number and digest of `root`.
fn push_root(out: &mut Vec<u8>, root: RootPointer)
    ensures
        final(out)@ == old(out)@ + spec_root_bytes(root),
{
    push_u64_le(out, root.physical_block());
    let digest = root.digest().bytes();
    push_bytes(out, &digest);
    assert(out@ =~= old(out)@ + spec_root_bytes(root));
}

/// Canonically serializes the semantic portion of an AWFS checkpoint.
///
/// This payload is deliberately **not authenticated by this function**. It must be wrapped by a
/// cryptographic integrity/authentication layer before it is eligible for checkpoint selection.
pub fn encode_checkpoint_payload(record: CheckpointRecord) -> (r: [u8; CHECKPOINT_PAYLOAD_BYTES])
    ensures
        r@ == spec_encode(record),
{
    let _ = record.well_formedness();
    let mut out: Vec<u8> = Vec::new();
    out.push(0x41u8);
    out.push(0x57u8);
    out.push(0x46u8);
    out.push(0x53u8);
    out.push(0x43u8);
    out.push(0x50u8);
    out.push(0x30u8);
    out.push(0x31u8);
    assert(out@ =~= spec_magic());
    push_u32_le(&mut out, record.format_version());
    let mode_byte = match record.mode() {
        VolumeMode::ImmutableVerifiedStore => MODE_IMMUTABLE_VERIFIED_STORE,
        VolumeMode::EncryptedMutableState => MODE_ENCRYPTED_MUTABLE_STATE,
    };
    out.push(mode_byte);
    let previous = record.previous_root();
    match previous {
        Some(_) => out.push(PREVIOUS_ROOT_PRESENT),
        None => out.push(PREVIOUS_ROOT_ABSENT),
    }
    out.push(0u8);
    out.push(0u8);
    let ghost head = out@;
    push_u64_le(&mut out, record.sequence());
    let volume = record.volume_id().bytes();
    push_bytes(&mut out, &volume);
    push_root(&mut out, record.root());
    match previous {
        Some(p) => push_root(&mut out, p),
        None => push_zeros(&mut out, 40),
    }
    push_zeros(&mut out, 8);
    proof {
        assert(head =~= spec_magic() + u32_bytes(record.spec_format_version()) + seq![
            spec_mode_byte(record.spec_mode()),
            if record.spec_previous_root() is Some {
                1u8
            } else {
                0u8
            },
            0u8,
            0u8,
        ]);
        assert(out@ =~= spec_encode(record));
    }
    let mut result = [0u8; CHECKPOINT_PAYLOAD_BYTES];
    let mut i: usize = 0;
    while i < CHECKPOINT_PAYLOAD_BYTES
        invariant
            i <= CHECKPOINT_PAYLOAD_BYTES,
            out@.len() == CHECKPOINT_PAYLOAD_BYTES,
            result@.len() == CHECKPOINT_PAYLOAD_BYTES,
            forall|j: int| 0 <= j < i ==> result@[j] == out@[j],
        decreases CHECKPOINT_PAYLOAD_BYTES - i,
    {
        result[i] = out[i];
        i = i + 1;
    }
    assert(result@ =~= out@);
    result
}

/// Copies the sixteen bytes at `offset`.
fn copy_16(input: &[u8], offset: usize) -> (r: [u8; 16])
    requires
        offset + 16 <= input@.len(),
    ensures
        r@ == input@.subrange(offset as int, offset + 16),
{
    let mut out = [0u8; 16];
    let mut i: usize = 0;
    while i < 16
        invariant
            i <= 16,
            offset + 16 <= input.len(),
            out@.len() == 16,
            forall|j: int| 0 <= j < i ==> out@[j] == input@[offset + j],
        decreases 16 - i,
    {
        out[i] = input[offset + i];
        i = i + 1;
    }
    assert(out@ =~= input@.subrange(offset as int, offset + 16));
    out
}

/// Copies the thirty-two bytes at `offset`.
fn copy_32(input: &[u8], offset: usize) -> (r: [u8; 32])
    requires
        offset + 32 <= input@.len(),
    ensures
        r@ == input@.subrange(offset as int, offset + 32),
{
    let mut out = [0u8; 32];
    let mut i: usize = 0;
    while i < 32
        invariant
            i <= 32,
            offset + 32 <= input.len(),
            out@.len() == 32,
            forall|j: int| 0 <= j < i ==> out@[j] == input@[offset + j],
        decreases 32 - i,
    {
        out[i] = input[offset + i];
        i = i + 1;
    }
    assert(out@ =~= input@.subrange(offset as int, offset + 32));
    out
}

/// Decodes the root stored at `block_offset` / `digest_offset`.
fn decode_root(input: &[u8], block_offset: usize, digest_offset: usize) -> (r: Option<RootPointer>)
    requires
        block_offset + 8 <= input@.len(),
        digest_offset + 32 <= input@.len(),
    ensures
        r is Some <==> spec_root_ok(input@, block_offset as int, digest_offset as int),
        r matches Some(p) ==> spec_root_at(input@, block_offset as int, digest_offset as int, p),
{
    let physical_block = read_u64_le(input, block_offset);
    let digest_bytes = copy_32(input, digest_offset);
    let digest = match Digest::new(digest_bytes) {
        Some(d) => d,
        None => return None,
    };
    RootPointer::new(physical_block, digest)
}

/// Parses only the canonical semantic checkpoint payload.
///
/// Success means the bytes are structurally canonical and satisfy AWFS semantic invariants. It
/// does **not** prove authenticity, freshness, or that referenced blocks hash to the encoded
/// digests.
pub fn decode_checkpoint_payload(input: &[u8]) -> (r: Result<CheckpointRecord, CheckpointDecodeError>)
    ensures
        match r {
            Ok(record) => spec_decode_error(input@) is None && spec_decodes_to(input@, record),
            Err(e) => spec_decode_error(input@) == Some(e),
        },
{
    if input.len() != CHECKPOINT_PAYLOAD_BYTES {
        return Err(CheckpointDecodeError::InvalidLength);
    }
    let magic_ok = input[0] == 0x41u8 && input[1] == 0x57u8 && input[2] == 0x46u8 && input[3]
        == 0x53u8 && input[4] == 0x43u8 && input[5] == 0x50u8 && input[6] == 0x30u8 && input[7]
        == 0x31u8;
    proof {
        let head = input@.subrange(0, 8);
        assert forall|k: int| 0 <= k < 8 implies head[k] == input@[k] by {}
        if magic_ok {
            assert(head =~= spec_magic());
        } else {
            assert(head != spec_magic()) by {
                if head == spec_magic() {
                    assert(head[0] == spec_magic()[0] && head[1] == spec_magic()[1] && head[2]
                        == spec_magic()[2] && head[3] == spec_magic()[3] && head[4]
                        == spec_magic()[4] && head[5] == spec_magic()[5] && head[6]
                        == spec_magic()[6] && head[7] == spec_magic()[7]);
                }
            }
        }
    }
    if !magic_ok {
        return Err(CheckpointDecodeError::InvalidMagic);
    }
    let version = read_u32_le(input, 8);
    if version != AWFS_FORMAT_VERSION {
        return Err(CheckpointDecodeError::UnsupportedVersion(version));
    }
    let mode_byte = input[12];
    let mode = if mode_byte == MODE_IMMUTABLE_VERIFIED_STORE {
        VolumeMode::ImmutableVerifiedStore
    } else if mode_byte == MODE_ENCRYPTED_MUTABLE_STATE {
        VolumeMode::EncryptedMutableState
    } else {
        return Err(CheckpointDecodeError::InvalidMode(mode_byte));
    };
    let previous_flag = input[13];
    if previous_flag != PREVIOUS_ROOT_ABSENT && previous_flag != PREVIOUS_ROOT_PRESENT {
        return Err(CheckpointDecodeError::InvalidPreviousRootFlag(previous_flag));
    }
    if has_nonzero_byte(slice_subrange(input, 14, 16)) || has_nonzero_byte(
        slice_subrange(input, 120, 128),
    ) {
        return Err(CheckpointDecodeError::NonCanonicalReservedBytes);
    }
    let sequence = read_u64_le(input, 16);
    let volume_bytes = copy_16(input, 24);
    let volume_id = match VolumeId::new(volume_bytes) {
        Some(v) => v,
        None => return Err(CheckpointDecodeError::InvalidVolumeId),
    };
    let root = match decode_root(input, 40, 48) {
        Some(p) => p,
        None => return Err(CheckpointDecodeError::InvalidRoot),
    };
    let previous_root = if previous_flag == PREVIOUS_ROOT_PRESENT {
        match decode_root(input, 80, 88) {
            Some(p) => Some(p),
            None => return Err(CheckpointDecodeError::InvalidPreviousRoot),
        }
    } else {
        if has_nonzero_byte(slice_subrange(input, 80, 120)) {
            return Err(CheckpointDecodeError::NonCanonicalReservedBytes);
        }
        None
    };
    proof {
        match previous_root {
            Some(p) => {
                if u64_le(input@, 80) == u64_le(input@, 40) && input@.subrange(88, 120)
                    == input@.subrange(48, 80) {
                    lemma_root_fields_determine(p, root);
                }
            },
            None => {},
        }
    }
    match CheckpointRecord::new(sequence, volume_id, mode, root, previous_root) {
        Some(record) => Ok(record),
        None => Err(CheckpointDecodeError::InvalidRecord),
    }
}

/// A payload describes at most one record.
pub proof fn lemma_decoding_is_unique(s: Seq<u8>, a: CheckpointRecord, b: CheckpointRecord)
    requires
        spec_decodes_to(s, a),
        spec_decodes_to(s, b),
    ensures
        a == b,
{
    lemma_volume_bytes_determine(a.spec_volume_id(), b.spec_volume_id());
    lemma_root_fields_determine(a.spec_root(), b.spec_root());
    match (a.spec_previous_root(), b.spec_previous_root()) {
        (Some(pa), Some(pb)) => {
            lemma_root_fields_determine(pa, pb);
        },
        _ => {},
    }
    lemma_record_fields_determine(a, b);
}

/// Decoding the encoding of a valid record succeeds and gives that record
/// back: `decode(encode(r)) == Ok(r)`.
pub proof fn lemma_decode_of_encode(record: CheckpointRecord)
    requires
        record.spec_valid(),
    ensures
        spec_decode_error(spec_encode(record)) is None,
        spec_decodes_to(spec_encode(record), record),
        forall|other: CheckpointRecord| #[trigger]
            spec_decodes_to(spec_encode(record), other) ==> other == record,
{
    let s = spec_encode(record);
    let flag: u8 = if record.spec_previous_root() is Some {
        1u8
    } else {
        0u8
    };
    let a = spec_magic();
    let b = u32_bytes(record.spec_format_version());
    let c = seq![spec_mode_byte(record.spec_mode()), flag, 0u8, 0u8];
    let d = u64_bytes(record.spec_sequence());
    let e = record.spec_volume_id().spec_bytes();
    let f = spec_root_bytes(record.spec_root());
    let g = match record.spec_previous_root() {
        Some(previous) => spec_root_bytes(previous),
        None => spec_zeros(40),
    };
    let h = spec_zeros(8);
    assert(s == a + b + c + d + e + f + g + h);
    assert(s.len() == 128);
    assert(s.subrange(0, 8) =~= a);
    assert(s.subrange(8, 12) =~= b);
    lemma_u32_round_trip(record.spec_format_version(), s, 8);
    assert(s[12] == c[0] && s[13] == c[1] && s[14] == 0 && s[15] == 0);
    assert(s.subrange(16, 24) =~= d);
    lemma_u64_round_trip(record.spec_sequence(), s, 16);
    assert(s.subrange(24, 40) =~= e);
    assert(s.subrange(40, 48) =~= u64_bytes(record.spec_root().spec_physical_block()));
    lemma_u64_round_trip(record.spec_root().spec_physical_block(), s, 40);
    assert(s.subrange(48, 80) =~= record.spec_root().spec_digest().spec_bytes());
    assert(s.subrange(80, 120) =~= g);
    assert(s.subrange(120, 128) =~= h);
    assert(!any_nonzero(s.subrange(14, 16))) by {
        assert(s.subrange(14, 16) =~= seq![0u8, 0u8]);
    }
    assert(!any_nonzero(s.subrange(120, 128)));
    match record.spec_previous_root() {
        Some(previous) => {
            assert(s.subrange(80, 88) =~= u64_bytes(previous.spec_physical_block()));
            lemma_u64_round_trip(previous.spec_physical_block(), s, 80);
            assert(s.subrange(88, 120) =~= previous.spec_digest().spec_bytes());
            if u64_le(s, 80) == u64_le(s, 40) && s.subrange(88, 120) == s.subrange(48, 80) {
                lemma_root_fields_determine(previous, record.spec_root());
            }
        },
        None => {
            assert(!any_nonzero(s.subrange(80, 120)));
        },
    }
    assert forall|other: CheckpointRecord| #[trigger]
        spec_decodes_to(spec_encode(record), other) implies other == record by {
        lemma_decoding_is_unique(s, other, record);
    }
}

/// Encoding the record that a canonical payload decodes to gives the payload
/// back byte for byte: `encode(decode(s)) == s`.
pub proof fn lemma_encode_of_decode(s: Seq<u8>, record: CheckpointRecord)
    requires
        spec_decode_error(s) is None,
        spec_decodes_to(s, record),
    ensures
        spec_encode(record) == s,
{
    lemma_u32_bytes_of_read(s, 8);
    lemma_u64_bytes_of_read(s, 16);
    lemma_u64_bytes_of_read(s, 40);
    assert(spec_mode_byte(spec_mode_of(s[12])) == s[12]);
    assert(s[14] == 0 && s[15] == 0) by {
        if s[14] != 0 {
            assert(s.subrange(14, 16)[0] == s[14]);
        }
        if s[15] != 0 {
            assert(s.subrange(14, 16)[1] == s[15]);
        }
    }
    assert(s.subrange(120, 128) =~= spec_zeros(8)) by {
        assert forall|k: int| 0 <= k < 8 implies s.subrange(120, 128)[k] == 0u8 by {
            if s.subrange(120, 128)[k] != 0 {
                assert(any_nonzero(s.subrange(120, 128)));
            }
        }
    }
    match record.spec_previous_root() {
        Some(previous) => {
            lemma_u64_bytes_of_read(s, 80);
            assert(s.subrange(80, 120) =~= spec_root_bytes(previous));
        },
        None => {
            assert(s.subrange(80, 120) =~= spec_zeros(40)) by {
                assert forall|k: int| 0 <= k < 40 implies s.subrange(80, 120)[k] == 0u8 by {
                    if s.subrange(80, 120)[k] != 0 {
                        assert(any_nonzero(s.subrange(80, 120)));
                    }
                }
            }
        },
    }
    assert(s.subrange(40, 80) =~= spec_root_bytes(record.spec_root()));
    assert(s.subrange(12, 16) =~= seq![s[12], s[13], 0u8, 0u8]);
    assert(s =~= s.subrange(0, 8) + s.subrange(8, 12) + s.subrange(12, 16) + s.subrange(16, 24)
        + s.subrange(24, 40) + s.subrange(40, 80) + s.subrange(80, 120) + s.subrange(120, 128));
    assert(spec_encode(record) =~= s);
}

} // verus!

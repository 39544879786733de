//! Canonical byte encoding of an AWStoreFS manifest: a 64-byte header
//! followed by one 64-byte record per object.
//!
//! Header: `0..8` magic, `8..12` format version, `12..16` record size,
//! `16..24` generation, `24..32` volume blocks, `32..36` object count,
//! `36..64` reserved. Record: `0` class, `1..8` reserved, `8..16` first
//! block, `16..24` block count, `24..32` logical bytes, `32..64` digest.

use vstd::prelude::*;
use vstd::slice::slice_subrange;
use crate::fs_core::Digest;
use crate::generation::{any_nonzero, has_nonzero_byte};
use crate::le_bytes::{u32_le, u64_le, u32_bytes, u64_bytes, read_u32_le, read_u64_le};
use crate::storefs::{
    DigestVerifier, ManifestPlanError, ObjectClass, ObjectDescriptor, ObjectExtent, StoreManifest,
    spec_extent_error,
};

verus! {

pub const MANIFEST_FORMAT_VERSION: u32 = 1;
pub const MANIFEST_HEADER_BYTES: usize = 64;
pub const OBJECT_RECORD_BYTES: usize = 64;

#[derive(Clone, Copy, Debug, PartialEq, Eq, Structural)]
pub enum ManifestDecodeError {
    HeaderTooShort,
    InvalidMagic,
    UnsupportedVersion(u32),
    InvalidRecordSize(u32),
    NonCanonicalReservedBytes,
    ObjectCountOverflow,
    InvalidLength,
    InvalidClass(u8),
    InvalidDigest,
    InvalidExtent,
    InvalidPlan(ManifestPlanError),
}

#[derive(Clone, Copy, Debug, PartialEq, Eq, Structural)]
pub enum ManifestEncodeError {
    OutputTooSmall,
    ObjectCountOverflow,
}

/// The magic bytes `AWSMF001`.
pub open spec fn spec_manifest_magic() -> Seq<u8> {
    seq![0x41u8, 0x57u8, 0x53u8, 0x4du8, 0x46u8, 0x30u8, 0x30u8, 0x31u8]
}

/// `n` zero bytes.
pub open spec fn spec_zeros(n: nat) -> Seq<u8> {
    Seq::new(n, |i: int| 0u8)
}

/// The encoded length of a manifest of `object_count` objects.
pub fn encoded_manifest_len(object_count: usize) -> (r: Option<usize>)
    ensures
        object_count * 64 + 64 <= usize::MAX ==> r == Some((object_count * 64 + 64) as usize),
        object_count * 64 + 64 > usize::MAX ==> r is None,
{
    match object_count.checked_mul(OBJECT_RECORD_BYTES) {
        Some(n) => n.checked_add(MANIFEST_HEADER_BYTES),
        None => None,
    }
}

/// The byte that encodes an object class.
pub open spec fn spec_class_byte(class: ObjectClass) -> u8 {
    match class {
        ObjectClass::Kernel => 1,
        ObjectClass::SystemComponent => 2,
        ObjectClass::RecoveryComponent => 3,
        ObjectClass::ApplicationPackage => 4,
        ObjectClass::Resource => 5,
    }
}

/// The class a byte encodes, if any.
pub open spec fn spec_class_of(value: u8) -> Option<ObjectClass> {
    if value == 1 {
        Some(ObjectClass::Kernel)
    } else if value == 2 {
        Some(ObjectClass::SystemComponent)
    } else if value == 3 {
        Some(ObjectClass::RecoveryComponent)
    } else if value == 4 {
        Some(ObjectClass::ApplicationPackage)
    } else if value == 5 {
        Some(ObjectClass::Resource)
    } else {
        None
    }
}

fn encode_class(class: ObjectClass) -> (r: u8)
    ensures
        r == spec_class_byte(class),
{
    match class {
        ObjectClass::Kernel => 1,
        ObjectClass::SystemComponent => 2,
        ObjectClass::RecoveryComponent => 3,
        ObjectClass::ApplicationPackage => 4,
        ObjectClass::Resource => 5,
    }
}

fn decode_class(value: u8) -> (r: Result<ObjectClass, ManifestDecodeError>)
    ensures
        match spec_class_of(value) {
            Some(c) => r == Ok::<ObjectClass, ManifestDecodeError>(c),
            None => r == Err::<ObjectClass, ManifestDecodeError>(ManifestDecodeError::InvalidClass(value)),
        },
{
    if value == 1 {
        Ok(ObjectClass::Kernel)
    } else if value == 2 {
        Ok(ObjectClass::SystemComponent)
    } else if value == 3 {
        Ok(ObjectClass::RecoveryComponent)
    } else if value == 4 {
        Ok(ObjectClass::ApplicationPackage)
    } else if value == 5 {
        Ok(ObjectClass::Resource)
    } else {
        Err(ManifestDecodeError::InvalidClass(value))
    }
}

/// The 64-byte record of one object.
pub open spec fn spec_record_bytes(object: ObjectDescriptor) -> Seq<u8> {
    let extent = object.spec_extent();
    seq![spec_class_byte(object.spec_class())] + spec_zeros(7) + u64_bytes(extent.spec_first_block())
        + u64_bytes(extent.spec_block_count()) + u64_bytes(extent.spec_logical_bytes())
        + object.spec_digest().spec_bytes()
}

/// The records of the objects, one after another.
pub open spec fn spec_records_bytes(objects: Seq<ObjectDescriptor>) -> Seq<u8>
    decreases objects.len(),
{
    if objects.len() == 0 {
        Seq::empty()
    } else {
        spec_records_bytes(objects.drop_last()) + spec_record_bytes(objects.last())
    }
}

/// The canonical encoding of a manifest.
pub open spec fn spec_manifest_bytes(generation: u64, volume_blocks: u64, objects: Seq<ObjectDescriptor>) -> Seq<u8> {
    spec_manifest_magic() + u32_bytes(1) + u32_bytes(64) + u64_bytes(generation) + u64_bytes(
        volume_blocks,
    ) + u32_bytes(objects.len() as u32) + spec_zeros(28) + spec_records_bytes(objects)
}

/// Appends `bytes` to `out`.
fn push_bytes(out: &mut Vec<u8>, bytes: &[u8])
    ensures
        final(out)@ == old(out)@ + bytes@,
{
    let mut i: usize = 0;
    while i < bytes.len()
        invariant
            i <= bytes@.len(),
            out@ == old(out)@ + bytes@.subrange(0, i as int),
        decreases bytes@.len() - i,
    {
        out.push(bytes[i]);
        i = i + 1;
        assert(bytes@.subrange(0, i as int) =~= bytes@.subrange(0, i - 1).push(bytes@[i - 1]));
    }
    assert(bytes@.subrange(0, bytes@.len() as int) =~= bytes@);
}

/// Appends `count` zero bytes to `out`.
fn push_zeros(out: &mut Vec<u8>, count: usize)
    ensures
        final(out)@ == old(out)@ + spec_zeros(count as nat),
{
    let mut i: usize = 0;
    while i < count
        invariant
            i <= count,
            out@ == old(out)@ + spec_zeros(i as nat),
        decreases count - i,
    {
        out.push(0u8);
        i = i + 1;
        assert(spec_zeros(i as nat) =~= spec_zeros((i - 1) as nat).push(0u8));
    }
}

/// Appends the four little-endian bytes of `v`.
fn push_u32(out: &mut Vec<u8>, v: u32)
    ensures
        final(out)@ == old(out)@ + u32_bytes(v),
{
    out.push((v & 0xff) as u8);
    out.push(((v >> 8u32) & 0xff) as u8);
    out.push(((v >> 16u32) & 0xff) as u8);
    out.push(((v >> 24u32) & 0xff) as u8);
    assert(out@ =~= old(out)@ + u32_bytes(v));
}

/// Appends the eight little-endian bytes of `v`.
fn push_u64(out: &mut Vec<u8>, v: u64)
    ensures
        final(out)@ == old(out)@ + u64_bytes(v),
{
    push_u32(out, (v & 0xffff_ffff) as u32);
    push_u32(out, (v >> 32u64) as u32);
    assert(out@ =~= old(out)@ + u64_bytes(v));
}

/// The canonical bytes of a manifest.
fn manifest_bytes<const OBJECTS: usize>(manifest: &StoreManifest<OBJECTS>) -> (r: Vec<u8>)
    requires
        manifest.spec_objects().len() <= u32::MAX,
    ensures
        r@ == spec_manifest_bytes(
            manifest.spec_generation(),
            manifest.spec_volume_blocks(),
            manifest.spec_objects(),
        ),
{
    let mut out: Vec<u8> = Vec::new();
    out.push(0x41u8);
    out.push(0x57u8);
    out.push(0x53u8);
    out.push(0x4du8);
    out.push(0x46u8);
    out.push(0x30u8);
    out.push(0x30u8);
    out.push(0x31u8);
    assert(out@ =~= spec_manifest_magic());
    push_u32(&mut out, MANIFEST_FORMAT_VERSION);
    push_u32(&mut out, OBJECT_RECORD_BYTES as u32);
    push_u64(&mut out, manifest.generation());
    push_u64(&mut out, manifest.volume_blocks());
    let count = manifest.len();
    push_u32(&mut out, count as u32);
    push_zeros(&mut out, 28);
    let ghost header = out@;
    let ghost objects = manifest.spec_objects();
    let mut index: usize = 0;
    assert(objects.subrange(0, 0) =~= Seq::<ObjectDescriptor>::empty());
    while index < count
        invariant
            index <= count,
            count == objects.len(),
            objects == manifest.spec_objects(),
            out@ == header + spec_records_bytes(objects.subrange(0, index as int)),
        decreases count - index,
    {
        let object = match manifest.object(index) {
            Some(o) => o,
            None => {
                index = index + 1;
                continue;
            },
        };
        let ghost before = out@;
        out.push(encode_class(object.class()));
        push_zeros(&mut out, 7);
        let extent = object.extent();
        push_u64(&mut out, extent.first_block());
        push_u64(&mut out, extent.block_count());
        push_u64(&mut out, extent.logical_bytes());
        let digest = object.digest().bytes();
        push_bytes(&mut out, &digest);
        proof {
            assert(out@ =~= before + spec_record_bytes(object));
            assert(objects.subrange(0, index + 1).drop_last() =~= objects.subrange(0, index as int));
            assert(objects.subrange(0, index + 1).last() == object);
            assert(out@ =~= header + spec_records_bytes(objects.subrange(0, index + 1)));
        }
        index = index + 1;
    }
    assert(objects.subrange(0, count as int) =~= objects);
    out
}

/// Canonically encodes a structural AWStoreFS manifest into caller-provided storage.
///
/// The resulting bytes are not signed or authenticated here.
pub fn encode_manifest<const OBJECTS: usize>(manifest: &StoreManifest<OBJECTS>, output: &mut [u8]) -> (r:
    Result<usize, ManifestEncodeError>)
    ensures
        final(output)@.len() == old(output)@.len(),
        manifest.spec_objects().len() > u32::MAX || manifest.spec_objects().len() * 64 + 64 > usize::MAX
            ==> r == Err::<usize, ManifestEncodeError>(ManifestEncodeError::ObjectCountOverflow)
            && final(output)@ == old(output)@,
        manifest.spec_objects().len() <= u32::MAX && manifest.spec_objects().len() * 64 + 64
            <= usize::MAX ==> {
            let required: int = (manifest.spec_objects().len() * 64 + 64) as int;
            &&& old(output)@.len() < required ==> r == Err::<usize, ManifestEncodeError>(
                ManifestEncodeError::OutputTooSmall,
            ) && final(output)@ == old(output)@
            &&& old(output)@.len() >= required ==> r == Ok::<usize, ManifestEncodeError>(
                required as usize,
            ) && final(output)@.subrange(0, required) == spec_manifest_bytes(
                manifest.spec_generation(),
                manifest.spec_volume_blocks(),
                manifest.spec_objects(),
            ) && final(output)@.subrange(required, old(output)@.len() as int) == old(output)@.subrange(
                required,
                old(output)@.len() as int,
            )
        },
{
    let len = manifest.len();
    if len > u32::MAX as usize {
        return Err(ManifestEncodeError::ObjectCountOverflow);
    }
    let required = match encoded_manifest_len(len) {
        Some(n) => n,
        None => return Err(ManifestEncodeError::ObjectCountOverflow),
    };
    if output.len() < required {
        return Err(ManifestEncodeError::OutputTooSmall);
    }
    let bytes = manifest_bytes(manifest);
    proof {
        lemma_manifest_bytes_len(
            manifest.spec_generation(),
            manifest.spec_volume_blocks(),
            manifest.spec_objects(),
        );
    }
    let mut i: usize = 0;
    while i < required
        invariant
            i <= required <= output@.len(),
            bytes@.len() == required,
            output@.len() == old(output)@.len(),
            forall|k: int| 0 <= k < i ==> output@[k] == bytes@[k],
            forall|k: int| required <= k < output@.len() ==> output@[k] == old(output)@[k],
        decreases required - i,
    {
        output[i] = bytes[i];
        i = i + 1;
    }
    assert(output@.subrange(0, required as int) =~= bytes@);
    assert(output@.subrange(required as int, output@.len() as int) =~= old(output)@.subrange(
        required as int,
        old(output)@.len() as int,
    ));
    Ok(required)
}

proof fn lemma_records_bytes_len(objects: Seq<ObjectDescriptor>)
    ensures
        spec_records_bytes(objects).len() == objects.len() * 64,
    decreases objects.len(),
{
    if objects.len() > 0 {
        lemma_records_bytes_len(objects.drop_last());
        objects.last().spec_digest().lemma_bytes_len();
    }
}

proof fn lemma_manifest_bytes_len(generation: u64, volume_blocks: u64, objects: Seq<ObjectDescriptor>)
    ensures
        spec_manifest_bytes(generation, volume_blocks, objects).len() == 64 + objects.len() * 64,
{
    lemma_records_bytes_len(objects);
}

/// Offset of record `i`.
pub open spec fn spec_rec_base(i: int) -> int {
    64 + 64 * i
}

/// The digest bytes of record `i`.
pub open spec fn spec_rec_digest(input: Seq<u8>, i: int) -> Seq<u8> {
    input.subrange(spec_rec_base(i) + 32, spec_rec_base(i) + 64)
}

pub open spec fn spec_rec_first(input: Seq<u8>, i: int) -> u64 {
    u64_le(input, spec_rec_base(i) + 8)
}

pub open spec fn spec_rec_count(input: Seq<u8>, i: int) -> u64 {
    u64_le(input, spec_rec_base(i) + 16)
}

pub open spec fn spec_rec_logical(input: Seq<u8>, i: int) -> u64 {
    u64_le(input, spec_rec_base(i) + 24)
}

/// Whether the extents of records `j` and `i` share a block.
pub open spec fn spec_rec_overlap(input: Seq<u8>, j: int, i: int) -> bool {
    spec_rec_first(input, j) < spec_rec_first(input, i) + spec_rec_count(input, i) && spec_rec_first(
        input,
        i,
    ) < spec_rec_first(input, j) + spec_rec_count(input, j)
}

/// The first conflict of record `i` with records `j..i`.
pub open spec fn spec_rec_conflict(input: Seq<u8>, i: int, j: int) -> Option<ManifestPlanError>
    decreases i - j,
{
    if j < 0 || j >= i {
        None
    } else if spec_rec_digest(input, j) == spec_rec_digest(input, i) {
        Some(ManifestPlanError::DuplicateDigest)
    } else if spec_rec_overlap(input, j, i) {
        Some(ManifestPlanError::OverlappingExtent)
    } else {
        spec_rec_conflict(input, i, j + 1)
    }
}

/// Why record `i` is refused, if it is: its own checks, then the plan's.
pub open spec fn spec_rec_error(input: Seq<u8>, volume_blocks: u64, capacity: int, i: int) -> Option<
    ManifestDecodeError,
> {
    let base = spec_rec_base(i);
    if spec_class_of(input[base]) is None {
        Some(ManifestDecodeError::InvalidClass(input[base]))
    } else if any_nonzero(input.subrange(base + 1, base + 8)) {
        Some(ManifestDecodeError::NonCanonicalReservedBytes)
    } else if spec_extent_error(spec_rec_first(input, i), spec_rec_count(input, i), spec_rec_logical(input, i))
        is Some {
        Some(ManifestDecodeError::InvalidExtent)
    } else if !any_nonzero(spec_rec_digest(input, i)) {
        Some(ManifestDecodeError::InvalidDigest)
    } else if spec_rec_first(input, i) + spec_rec_count(input, i) > volume_blocks {
        Some(ManifestDecodeError::InvalidPlan(ManifestPlanError::ObjectOutsideVolume))
    } else {
        match spec_rec_conflict(input, i, 0) {
            Some(e) => Some(ManifestDecodeError::InvalidPlan(e)),
            None => if i >= capacity {
                Some(ManifestDecodeError::InvalidPlan(ManifestPlanError::Capacity))
            } else {
                None
            },
        }
    }
}

/// The first refused record from `i` on.
pub open spec fn spec_records_error(input: Seq<u8>, volume_blocks: u64, capacity: int, i: int, count: int) -> Option<
    ManifestDecodeError,
>
    decreases count - i,
{
    if i < 0 || i >= count {
        None
    } else {
        match spec_rec_error(input, volume_blocks, capacity, i) {
            Some(e) => Some(e),
            None => spec_records_error(input, volume_blocks, capacity, i + 1, count),
        }
    }
}

/// Why `decode_manifest` with room for `capacity` objects refuses `input`,
/// if it does.
pub open spec fn spec_manifest_decode_error(input: Seq<u8>, capacity: int) -> Option<ManifestDecodeError> {
    let count = u32_le(input, 32);
    if input.len() < 64 {
        Some(ManifestDecodeError::HeaderTooShort)
    } else if input.subrange(0, 8) != spec_manifest_magic() {
        Some(ManifestDecodeError::InvalidMagic)
    } else if u32_le(input, 8) != 1 {
        Some(ManifestDecodeError::UnsupportedVersion(u32_le(input, 8)))
    } else if u32_le(input, 12) != 64 {
        Some(ManifestDecodeError::InvalidRecordSize(u32_le(input, 12)))
    } else if any_nonzero(input.subrange(36, 64)) {
        Some(ManifestDecodeError::NonCanonicalReservedBytes)
    } else if count > capacity {
        Some(ManifestDecodeError::ObjectCountOverflow)
    } else if count * 64 + 64 > usize::MAX {
        Some(ManifestDecodeError::ObjectCountOverflow)
    } else if input.len() != count * 64 + 64 {
        Some(ManifestDecodeError::InvalidLength)
    } else if u64_le(input, 16) == 0 {
        Some(ManifestDecodeError::InvalidPlan(ManifestPlanError::ZeroGeneration))
    } else if u64_le(input, 24) <= 4 {
        Some(ManifestDecodeError::InvalidPlan(ManifestPlanError::VolumeTooSmall))
    } else {
        spec_records_error(input, u64_le(input, 24), capacity, 0, count as int)
    }
}

/// Whether `object` is the object record `i` describes.
pub open spec fn spec_record_is(input: Seq<u8>, i: int, object: ObjectDescriptor) -> bool {
    &&& spec_class_of(input[spec_rec_base(i)]) == Some(object.spec_class())
    &&& object.spec_extent().spec_first_block() == spec_rec_first(input, i)
    &&& object.spec_extent().spec_block_count() == spec_rec_count(input, i)
    &&& object.spec_extent().spec_logical_bytes() == spec_rec_logical(input, i)
    &&& object.spec_digest().spec_bytes() == spec_rec_digest(input, i)
}

/// With the earlier objects decoded from the earlier records, the plan's
/// conflict check on the objects is the conflict check on the records.
proof fn lemma_conflict_matches(
    input: Seq<u8>,
    objects: Seq<ObjectDescriptor>,
    object: ObjectDescriptor,
    i: int,
    j: int,
)
    requires
        0 <= j <= i,
        objects.len() == i,
        forall|k: int| 0 <= k < i ==> spec_record_is(input, k, #[trigger] objects[k]),
        spec_record_is(input, i, object),
    ensures
        crate::storefs::spec_first_conflict(objects, object, j) == spec_rec_conflict(input, i, j),
    decreases i - j,
{
    if j < i {
        lemma_conflict_matches(input, objects, object, i, j + 1);
        assert(spec_record_is(input, j, objects[j]));
        if spec_rec_digest(input, j) == spec_rec_digest(input, i) {
            crate::fs_core::lemma_digest_bytes_determine(objects[j].spec_digest(), object.spec_digest());
        }
    }
}

/// Parses a canonical structural manifest into a fixed-capacity semantic plan.
///
/// This parser deliberately does not authenticate the manifest.
pub fn decode_manifest<const OBJECTS: usize>(input: &[u8]) -> (r: Result<StoreManifest<OBJECTS>, ManifestDecodeError>)
    ensures
        match r {
            Ok(m) => {
                &&& spec_manifest_decode_error(input@, OBJECTS as int) is None
                &&& m.spec_generation() == u64_le(input@, 16)
                &&& m.spec_volume_blocks() == u64_le(input@, 24)
                &&& m.spec_objects().len() == u32_le(input@, 32)
                &&& forall|k: int|
                    0 <= k < m.spec_objects().len() ==> spec_record_is(input@, k, #[trigger] m.spec_objects()[k])
            },
            Err(e) => spec_manifest_decode_error(input@, OBJECTS as int) == Some(e),
        },
{
    if input.len() < MANIFEST_HEADER_BYTES {
        return Err(ManifestDecodeError::HeaderTooShort);
    }
    let magic_ok = input[0] == 0x41u8 && input[1] == 0x57u8 && input[2] == 0x53u8 && input[3]
        == 0x4du8 && input[4] == 0x46u8 && input[5] == 0x30u8 && input[6] == 0x30u8 && input[7]
        == 0x31u8;
    proof {
        let head = input@.subrange(0, 8);
        assert forall|k: int| 0 <= k < 8 implies head[k] == input@[k] by {}
        if magic_ok {
            assert(head =~= spec_manifest_magic());
        } else {
            assert(head != spec_manifest_magic()) by {
                if head == spec_manifest_magic() {
                    assert(head[0] == spec_manifest_magic()[0] && head[1] == spec_manifest_magic()[1]
                        && head[2] == spec_manifest_magic()[2] && head[3] == spec_manifest_magic()[3]
                        && head[4] == spec_manifest_magic()[4] && head[5] == spec_manifest_magic()[5]
                        && head[6] == spec_manifest_magic()[6] && head[7] == spec_manifest_magic()[7]);
                }
            }
        }
    }
    if !magic_ok {
        return Err(ManifestDecodeError::InvalidMagic);
    }
    let version = read_u32_le(input, 8);
    if version != MANIFEST_FORMAT_VERSION {
        return Err(ManifestDecodeError::UnsupportedVersion(version));
    }
    let record_size = read_u32_le(input, 12);
    if record_size != 64u32 {
        return Err(ManifestDecodeError::InvalidRecordSize(record_size));
    }
    if has_nonzero_byte(slice_subrange(input, 36, 64)) {
        return Err(ManifestDecodeError::NonCanonicalReservedBytes);
    }
    let generation = read_u64_le(input, 16);
    let volume_blocks = read_u64_le(input, 24);
    let object_count = read_u32_le(input, 32) as usize;
    if object_count > OBJECTS {
        return Err(ManifestDecodeError::ObjectCountOverflow);
    }
    let expected_len = match encoded_manifest_len(object_count) {
        Some(n) => n,
        None => return Err(ManifestDecodeError::ObjectCountOverflow),
    };
    if input.len() != expected_len {
        return Err(ManifestDecodeError::InvalidLength);
    }
    let mut manifest = match StoreManifest::<OBJECTS>::new(generation, volume_blocks) {
        Ok(m) => m,
        Err(e) => return Err(ManifestDecodeError::InvalidPlan(e)),
    };
    let mut index: usize = 0;
    while index < object_count
        invariant
            index <= object_count <= OBJECTS,
            input.len() == object_count * 64 + 64,
            volume_blocks == u64_le(input@, 24),
            generation == u64_le(input@, 16),
            object_count == u32_le(input@, 32),
            spec_manifest_decode_error(input@, OBJECTS as int) == spec_records_error(
                input@,
                volume_blocks,
                OBJECTS as int,
                0,
                object_count as int,
            ),
            manifest.spec_generation() == generation,
            manifest.spec_volume_blocks() == volume_blocks,
            manifest.spec_objects().len() == index,
            forall|k: int| 0 <= k < index ==> spec_record_is(input@, k, #[trigger] manifest.spec_objects()[k]),
            spec_records_error(input@, volume_blocks, OBJECTS as int, 0, object_count as int)
                == spec_records_error(input@, volume_blocks, OBJECTS as int, index as int, object_count as int),
        decreases object_count - index,
    {
        let base = MANIFEST_HEADER_BYTES + index * OBJECT_RECORD_BYTES;
        let class = match decode_class(input[base]) {
            Ok(c) => c,
            Err(e) => return Err(e),
        };
        if has_nonzero_byte(slice_subrange(input, base + 1, base + 8)) {
            return Err(ManifestDecodeError::NonCanonicalReservedBytes);
        }
        let first_block = read_u64_le(input, base + 8);
        let block_count = read_u64_le(input, base + 16);
        let logical_bytes = read_u64_le(input, base + 24);
        let extent = match ObjectExtent::new(first_block, block_count, logical_bytes) {
            Ok(e) => e,
            Err(_) => return Err(ManifestDecodeError::InvalidExtent),
        };
        let mut digest_bytes = [0u8; 32];
        let mut k: usize = 0;
        while k < 32
            invariant
                k <= 32,
                base + 64 <= input.len(),
                digest_bytes@.len() == 32,
                forall|t: int| 0 <= t < k ==> digest_bytes@[t] == input@[base + 32 + t],
            decreases 32 - k,
        {
            digest_bytes[k] = input[base + 32 + k];
            k = k + 1;
        }
        assert(digest_bytes@ =~= input@.subrange(base + 32, base + 64));
        let digest = match Digest::new(digest_bytes) {
            Some(d) => d,
            None => return Err(ManifestDecodeError::InvalidDigest),
        };
        let object = ObjectDescriptor::new(digest, class, extent);
        proof {
            lemma_conflict_matches(input@, manifest.spec_objects(), object, index as int, 0);
        }
        let ghost before = manifest.spec_objects();
        match manifest.push(object) {
            Ok(()) => {},
            Err(e) => return Err(ManifestDecodeError::InvalidPlan(e)),
        }
        proof {
            assert forall|t: int| 0 <= t < index + 1 implies spec_record_is(
                input@,
                t,
                #[trigger] manifest.spec_objects()[t],
            ) by {
                if t < index {
                    assert(manifest.spec_objects()[t] == before[t]);
                }
            }
        }
        index = index + 1;
    }
    Ok(manifest)
}

/// Checks exact canonical manifest bytes against a digest through a
/// caller-supplied cryptographic boundary: the verifier's verdict on exactly
/// these bytes is the answer.
pub fn verify_manifest_digest<V: DigestVerifier>(expected: Digest, canonical_manifest: &[u8], verifier: &V) -> (r:
    bool)
    ensures
        r == verifier.spec_verify(expected, canonical_manifest@),
{
    verifier.verify(expected, canonical_manifest)
}

} // verus!

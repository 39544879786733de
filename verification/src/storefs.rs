//! AWStoreFS: a read-only, content-addressed object store. This module holds
//! object extents, descriptors and the manifest plan that places them on a
//! volume.

pub mod merkle;
pub mod trust;
pub mod wire;

use vstd::prelude::*;
use crate::fs_core::{AWFS_CHECKPOINT_COPIES, Digest};

verus! {

pub const AWSTOREFS_BLOCK_BYTES: u64 = 4096;

#[derive(Clone, Copy, Debug, PartialEq, Eq, Structural)]
pub enum ObjectClass {
    Kernel,
    SystemComponent,
    RecoveryComponent,
    ApplicationPackage,
    Resource,
}

impl ObjectClass {
    /// Every class but plain resources carries executable code.
    pub fn contains_executable_code(self) -> (r: bool)
        ensures
            r == (self != ObjectClass::Resource),
    {
        match self {
            ObjectClass::Resource => false,
            _ => true,
        }
    }
}

#[derive(Clone, Copy, Debug, PartialEq, Eq, Structural)]
pub enum ExtentError {
    ReservedBlock,
    ZeroBlocks,
    ZeroLogicalBytes,
    BlockRangeOverflow,
    CapacityOverflow,
    NonCanonicalBlockCount,
}

/// Why `ObjectExtent::new` refuses these arguments, if it does.
pub open spec fn spec_extent_error(first_block: u64, block_count: u64, logical_bytes: u64) -> Option<ExtentError> {
    if first_block < AWFS_CHECKPOINT_COPIES {
        Some(ExtentError::ReservedBlock)
    } else if block_count == 0 {
        Some(ExtentError::ZeroBlocks)
    } else if logical_bytes == 0 {
        Some(ExtentError::ZeroLogicalBytes)
    } else if first_block + block_count > u64::MAX {
        Some(ExtentError::BlockRangeOverflow)
    } else if block_count * AWSTOREFS_BLOCK_BYTES > u64::MAX {
        Some(ExtentError::CapacityOverflow)
    } else if logical_bytes > block_count * AWSTOREFS_BLOCK_BYTES {
        Some(ExtentError::NonCanonicalBlockCount)
    } else if logical_bytes + (AWSTOREFS_BLOCK_BYTES - 1) > u64::MAX {
        Some(ExtentError::CapacityOverflow)
    } else if (logical_bytes + (AWSTOREFS_BLOCK_BYTES - 1)) / (AWSTOREFS_BLOCK_BYTES as int)
        != block_count {
        Some(ExtentError::NonCanonicalBlockCount)
    } else {
        None
    }
}

/// The blocks of one object: outside the checkpoint copies, exactly as many
/// blocks as its logical bytes need.
#[derive(Clone, Copy, Debug, PartialEq, Eq, Structural)]
pub struct ObjectExtent {
    first_block: u64,
    block_count: u64,
    logical_bytes: u64,
}

impl ObjectExtent {
    pub closed spec fn spec_first_block(self) -> u64 {
        self.first_block
    }

    pub closed spec fn spec_block_count(self) -> u64 {
        self.block_count
    }

    pub closed spec fn spec_logical_bytes(self) -> u64 {
        self.logical_bytes
    }

    /// One past the last block.
    pub open spec fn spec_end(self) -> int {
        self.spec_first_block() + self.spec_block_count()
    }

    #[verifier::type_invariant]
    closed spec fn canonical(self) -> bool {
        spec_extent_error(self.first_block, self.block_count, self.logical_bytes) is None
    }

    pub fn new(first_block: u64, block_count: u64, logical_bytes: u64) -> (r: Result<Self, ExtentError>)
        ensures
            match r {
                Ok(e) => spec_extent_error(first_block, block_count, logical_bytes) is None
                    && e.spec_first_block() == first_block && e.spec_block_count() == block_count
                    && e.spec_logical_bytes() == logical_bytes,
                Err(err) => spec_extent_error(first_block, block_count, logical_bytes) == Some(err),
            },
    {
        if first_block < AWFS_CHECKPOINT_COPIES {
            return Err(ExtentError::ReservedBlock);
        }
        if block_count == 0 {
            return Err(ExtentError::ZeroBlocks);
        }
        if logical_bytes == 0 {
            return Err(ExtentError::ZeroLogicalBytes);
        }
        if first_block.checked_add(block_count).is_none() {
            return Err(ExtentError::BlockRangeOverflow);
        }
        let capacity = match block_count.checked_mul(AWSTOREFS_BLOCK_BYTES) {
            Some(c) => c,
            None => return Err(ExtentError::CapacityOverflow),
        };
        if logical_bytes > capacity {
            return Err(ExtentError::NonCanonicalBlockCount);
        }
        let rounded = match logical_bytes.checked_add(AWSTOREFS_BLOCK_BYTES - 1) {
            Some(v) => v,
            None => return Err(ExtentError::CapacityOverflow),
        };
        let required_blocks = rounded / AWSTOREFS_BLOCK_BYTES;
        if required_blocks != block_count {
            return Err(ExtentError::NonCanonicalBlockCount);
        }
        Ok(Self { first_block, block_count, logical_bytes })
    }

    pub fn first_block(self) -> (r: u64)
        ensures
            r == self.spec_first_block(),
    {
        self.first_block
    }

    pub fn block_count(self) -> (r: u64)
        ensures
            r == self.spec_block_count(),
    {
        self.block_count
    }

    pub fn logical_bytes(self) -> (r: u64)
        ensures
            r == self.spec_logical_bytes(),
    {
        self.logical_bytes
    }

    /// Every extent is one `new` accepts.
    pub fn is_canonical(self) -> (r: bool)
        ensures
            r,
            spec_extent_error(self.spec_first_block(), self.spec_block_count(), self.spec_logical_bytes())
                is None,
    {
        proof {
            use_type_invariant(self);
        }
        true
    }

    pub fn end_block_exclusive(self) -> (r: u64)
        ensures
            r == self.spec_end(),
    {
        proof {
            use_type_invariant(self);
        }
        self.first_block + self.block_count
    }

    /// Whether the two extents share a block.
    pub fn overlaps(self, other: Self) -> (r: bool)
        ensures
            r == (self.spec_first_block() < other.spec_end() && other.spec_first_block()
                < self.spec_end()),
    {
        self.first_block < other.end_block_exclusive() && other.first_block < self.end_block_exclusive()
    }

    /// Where object block `object_block_index` lies and how many of its bytes
    /// belong to the object.
    pub fn read_window(self, object_block_index: u64) -> (r: Option<ReadWindow>)
        ensures
            object_block_index >= self.spec_block_count() ==> r is None,
            object_block_index < self.spec_block_count() ==> (r matches Some(w)
                && w.spec_physical_block() == self.spec_first_block() + object_block_index
                && w.spec_valid_bytes() == spec_min(
                self.spec_logical_bytes() - object_block_index * AWSTOREFS_BLOCK_BYTES,
                AWSTOREFS_BLOCK_BYTES as int,
            ) && 1 <= w.spec_valid_bytes() && object_block_index * AWSTOREFS_BLOCK_BYTES
                + w.spec_valid_bytes() <= self.spec_logical_bytes()),
    {
        proof {
            use_type_invariant(self);
        }
        if object_block_index >= self.block_count {
            return None;
        }
        let physical_block = self.first_block + object_block_index;
        assert(object_block_index * 4096 < self.block_count * 4096) by (nonlinear_arith)
            requires
                object_block_index < self.block_count,
        ;
        assert(object_block_index * 4096 < self.logical_bytes) by (nonlinear_arith)
            requires
                object_block_index < self.block_count,
                (self.logical_bytes + 4095) / 4096 == self.block_count,
        ;
        let consumed = object_block_index * AWSTOREFS_BLOCK_BYTES;
        let remaining = self.logical_bytes - consumed;
        let valid = if remaining < AWSTOREFS_BLOCK_BYTES {
            remaining
        } else {
            AWSTOREFS_BLOCK_BYTES
        };
        Some(ReadWindow { physical_block, valid_bytes: valid as u32 })
    }
}

/// The smaller of two integers.
pub open spec fn spec_min(a: int, b: int) -> int {
    if a < b {
        a
    } else {
        b
    }
}

/// One object block as read from disk: where it is and how many of its
/// bytes are the object's.
#[derive(Clone, Copy, Debug, PartialEq, Eq, Structural)]
pub struct ReadWindow {
    physical_block: u64,
    valid_bytes: u32,
}

impl ReadWindow {
    pub closed spec fn spec_physical_block(self) -> u64 {
        self.physical_block
    }

    pub closed spec fn spec_valid_bytes(self) -> u32 {
        self.valid_bytes
    }

    /// A window with the given fields.
    pub fn new(physical_block: u64, valid_bytes: u32) -> (r: Self)
        ensures
            r.spec_physical_block() == physical_block,
            r.spec_valid_bytes() == valid_bytes,
    {
        ReadWindow { physical_block, valid_bytes }
    }

    pub fn physical_block(self) -> (r: u64)
        ensures
            r == self.spec_physical_block(),
    {
        self.physical_block
    }

    pub fn valid_bytes(self) -> (r: u32)
        ensures
            r == self.spec_valid_bytes(),
    {
        self.valid_bytes
    }
}

/// An object: its content digest, class and extent.
#[derive(Clone, Copy, Debug, PartialEq, Eq)]
pub struct ObjectDescriptor {
    digest: Digest,
    class: ObjectClass,
    extent: ObjectExtent,
}

impl ObjectDescriptor {
    pub closed spec fn spec_digest(self) -> Digest {
        self.digest
    }

    pub closed spec fn spec_class(self) -> ObjectClass {
        self.class
    }

    pub closed spec fn spec_extent(self) -> ObjectExtent {
        self.extent
    }

    pub fn new(digest: Digest, class: ObjectClass, extent: ObjectExtent) -> (r: Self)
        ensures
            r.spec_digest() == digest,
            r.spec_class() == class,
            r.spec_extent() == extent,
    {
        Self { digest, class, extent }
    }

    pub fn digest(self) -> (r: Digest)
        ensures
            r == self.spec_digest(),
    {
        self.digest
    }

    pub fn class(self) -> (r: ObjectClass)
        ensures
            r == self.spec_class(),
    {
        self.class
    }

    pub fn extent(self) -> (r: ObjectExtent)
        ensures
            r == self.spec_extent(),
    {
        self.extent
    }
}

/// Two descriptors with the same fields are the same descriptor.
pub proof fn lemma_descriptor_fields_determine(a: ObjectDescriptor, b: ObjectDescriptor)
    requires
        a.spec_digest() == b.spec_digest(),
        a.spec_class() == b.spec_class(),
        a.spec_extent() == b.spec_extent(),
    ensures
        a == b,
{
}

#[derive(Clone, Copy, Debug, PartialEq, Eq, Structural)]
pub enum ManifestPlanError {
    ZeroGeneration,
    VolumeTooSmall,
    Capacity,
    DuplicateDigest,
    OverlappingExtent,
    ObjectOutsideVolume,
}

/// Whether two extents share a block.
pub open spec fn spec_extents_overlap(a: ObjectExtent, b: ObjectExtent) -> bool {
    a.spec_first_block() < b.spec_end() && b.spec_first_block() < a.spec_end()
}

/// Why a manifest of volume `volume_blocks` holding `objects`, with room for
/// `capacity` objects, refuses `object`, if it does; the checks go in this
/// order, earlier objects first.
pub open spec fn spec_push_error(
    objects: Seq<ObjectDescriptor>,
    volume_blocks: u64,
    capacity: int,
    object: ObjectDescriptor,
) -> Option<ManifestPlanError> {
    if object.spec_extent().spec_end() > volume_blocks {
        Some(ManifestPlanError::ObjectOutsideVolume)
    } else {
        match spec_first_conflict(objects, object, 0) {
            Some(e) => Some(e),
            None => if objects.len() >= capacity {
                Some(ManifestPlanError::Capacity)
            } else {
                None
            },
        }
    }
}

/// The first conflict of `object` with the objects from `i` on.
pub open spec fn spec_first_conflict(objects: Seq<ObjectDescriptor>, object: ObjectDescriptor, i: int) -> Option<
    ManifestPlanError,
>
    decreases objects.len() - i,
{
    if i < 0 || i >= objects.len() {
        None
    } else if objects[i].spec_digest() == object.spec_digest() {
        Some(ManifestPlanError::DuplicateDigest)
    } else if spec_extents_overlap(objects[i].spec_extent(), object.spec_extent()) {
        Some(ManifestPlanError::OverlappingExtent)
    } else {
        spec_first_conflict(objects, object, i + 1)
    }
}

/// Objects a plan may hold: at most `capacity` of them, each inside a volume
/// of `volume_blocks` blocks, with pairwise distinct digests and pairwise
/// disjoint extents.
pub open spec fn spec_valid_objects(objects: Seq<ObjectDescriptor>, volume_blocks: u64, capacity: int) -> bool {
    &&& objects.len() <= capacity
    &&& forall|i: int| 0 <= i < objects.len() ==> #[trigger] objects[i].spec_extent().spec_end() <= volume_blocks
    &&& forall|i: int, j: int|
        0 <= i < j < objects.len() ==> #[trigger] objects[i].spec_digest() != #[trigger] objects[j].spec_digest()
    &&& forall|i: int, j: int|
        0 <= i < j < objects.len() ==> !spec_extents_overlap(
            #[trigger] objects[i].spec_extent(),
            #[trigger] objects[j].spec_extent(),
        )
}

/// Every push keeps the plan invariant: objects a plan may hold, with an
/// object that `push` admits appended, are again objects a plan may hold.
pub proof fn lemma_push_keeps_valid_objects(
    objects: Seq<ObjectDescriptor>,
    volume_blocks: u64,
    capacity: int,
    object: ObjectDescriptor,
)
    requires
        spec_valid_objects(objects, volume_blocks, capacity),
        spec_push_error(objects, volume_blocks, capacity, object) is None,
    ensures
        spec_valid_objects(objects.push(object), volume_blocks, capacity),
{
    lemma_no_conflict(objects, object, 0);
    let grown = objects.push(object);
    assert forall|a: int, b: int| 0 <= a < b < grown.len() implies !spec_extents_overlap(
        #[trigger] grown[a].spec_extent(),
        #[trigger] grown[b].spec_extent(),
    ) by {
        if b < objects.len() {
            assert(grown[a] == objects[a] && grown[b] == objects[b]);
            assert(!spec_extents_overlap(objects[a].spec_extent(), objects[b].spec_extent()));
        } else {
            assert(grown[a] == objects[a] && grown[b] == object);
            assert(objects[a].spec_digest() != object.spec_digest());
        }
    }
    assert forall|a: int, b: int| 0 <= a < b < grown.len() implies #[trigger] grown[a].spec_digest()
        != #[trigger] grown[b].spec_digest() by {
        if b < objects.len() {
            assert(grown[a] == objects[a] && grown[b] == objects[b]);
            assert(objects[a].spec_digest() != objects[b].spec_digest());
            assert(!spec_extents_overlap(objects[a].spec_extent(), objects[b].spec_extent()));
        } else {
            assert(grown[a] == objects[a] && grown[b] == object);
            assert(objects[a].spec_digest() != object.spec_digest());
        }
    }
    assert forall|k: int| 0 <= k < grown.len() implies #[trigger] grown[k].spec_extent().spec_end()
        <= volume_blocks by {
        if k < objects.len() {
            assert(grown[k] == objects[k]);
        }
    }
}

/// The first `n` slots, unwrapped.
pub open spec fn spec_unwrap_prefix(slots: Seq<Option<ObjectDescriptor>>, n: usize) -> Seq<ObjectDescriptor> {
    Seq::new(n as nat, |i: int| slots[i]->Some_0)
}

/// Semantic, read-only AWStoreFS manifest plan.
///
/// This type validates layout invariants only. It does not prove that a manifest was signed, that
/// its generation is fresh, or that object bytes match their digests.
pub struct StoreManifest<const OBJECTS: usize> {
    generation: u64,
    volume_blocks: u64,
    objects: [Option<ObjectDescriptor>; OBJECTS],
    len: usize,
}

impl<const OBJECTS: usize> StoreManifest<OBJECTS> {
    pub closed spec fn spec_generation(&self) -> u64 {
        self.generation
    }

    pub closed spec fn spec_volume_blocks(&self) -> u64 {
        self.volume_blocks
    }

    /// The objects, in the order they were added.
    pub closed spec fn spec_objects(&self) -> Seq<ObjectDescriptor> {
        spec_unwrap_prefix(self.objects@, self.len)
    }

    /// The plan's invariant: a nonzero generation, a volume larger than the
    /// checkpoint area, at most `OBJECTS` objects, each inside the volume,
    /// with pairwise distinct digests and pairwise disjoint extents.
    pub open spec fn spec_valid_plan(&self) -> bool {
        &&& self.spec_generation() != 0
        &&& self.spec_volume_blocks() > AWFS_CHECKPOINT_COPIES
        &&& spec_valid_objects(self.spec_objects(), self.spec_volume_blocks(), OBJECTS as int)
    }

    #[verifier::type_invariant]
    closed spec fn wf(&self) -> bool {
        &&& self.len <= OBJECTS
        &&& forall|i: int| 0 <= i < self.len ==> (#[trigger] self.objects@[i]) is Some
        &&& self.spec_valid_plan()
    }

    /// Every manifest satisfies its plan invariant.
    pub fn plan_is_valid(&self) -> (r: bool)
        ensures
            r,
            self.spec_valid_plan(),
    {
        proof {
            use_type_invariant(self);
        }
        true
    }

    pub fn new(generation: u64, volume_blocks: u64) -> (r: Result<Self, ManifestPlanError>)
        ensures
            generation == 0 ==> r == Err::<Self, ManifestPlanError>(ManifestPlanError::ZeroGeneration),
            generation != 0 && volume_blocks <= AWFS_CHECKPOINT_COPIES ==> r == Err::<
                Self,
                ManifestPlanError,
            >(ManifestPlanError::VolumeTooSmall),
            r is Ok <==> generation != 0 && volume_blocks > AWFS_CHECKPOINT_COPIES,
            r matches Ok(m) ==> m.spec_generation() == generation && m.spec_volume_blocks() == volume_blocks
                && m.spec_objects() == Seq::<ObjectDescriptor>::empty(),
    {
        if generation == 0 {
            return Err(ManifestPlanError::ZeroGeneration);
        }
        if volume_blocks <= AWFS_CHECKPOINT_COPIES {
            return Err(ManifestPlanError::VolumeTooSmall);
        }
        let objects: [Option<ObjectDescriptor>; OBJECTS] = vstd::array::array_fill_for_copy_types(None);
        let m = Self { generation, volume_blocks, objects, len: 0 };
        assert(m.spec_objects() =~= Seq::<ObjectDescriptor>::empty());
        Ok(m)
    }

    pub fn generation(&self) -> (r: u64)
        ensures
            r == self.spec_generation(),
    {
        self.generation
    }

    pub fn volume_blocks(&self) -> (r: u64)
        ensures
            r == self.spec_volume_blocks(),
    {
        self.volume_blocks
    }

    pub fn len(&self) -> (r: usize)
        ensures
            r == self.spec_objects().len(),
    {
        self.len
    }

    pub fn is_empty(&self) -> (r: bool)
        ensures
            r == (self.spec_objects().len() == 0),
    {
        self.len == 0
    }

    /// The object at `index`, in the order objects were added.
    pub fn object(&self, index: usize) -> (r: Option<ObjectDescriptor>)
        ensures
            index < self.spec_objects().len() ==> r == Some(self.spec_objects()[index as int]),
            index >= self.spec_objects().len() ==> r is None,
    {
        proof {
            use_type_invariant(self);
        }
        if index >= self.len {
            return None;
        }
        self.objects[index]
    }

    /// Adds an object, refusing one outside the volume, one whose digest is
    /// already present, one whose extent overlaps another's, and one past
    /// capacity.
    pub fn push(&mut self, object: ObjectDescriptor) -> (r: Result<(), ManifestPlanError>)
        ensures
            r is Ok <==> spec_push_error(old(self).spec_objects(), old(self).spec_volume_blocks(), OBJECTS as int, object) is None,
            r matches Err(e) ==> spec_push_error(old(self).spec_objects(), old(self).spec_volume_blocks(), OBJECTS as int, object) == Some(e)
                && final(self).spec_objects() == old(self).spec_objects(),
            r is Ok ==> final(self).spec_objects() == old(self).spec_objects().push(object),
            final(self).spec_generation() == old(self).spec_generation(),
            final(self).spec_volume_blocks() == old(self).spec_volume_blocks(),
    {
        proof {
            use_type_invariant(&*self);
        }
        let ghost objects = self.spec_objects();
        assert(self.spec_valid_plan());
        if object.extent().end_block_exclusive() > self.volume_blocks {
            return Err(ManifestPlanError::ObjectOutsideVolume);
        }
        let mut i: usize = 0;
        while i < self.len
            invariant
                i <= self.len <= OBJECTS,
                objects == self.spec_objects(),
                objects == old(self).spec_objects(),
                self.volume_blocks == old(self).spec_volume_blocks(),
                object.spec_extent().spec_end() <= self.volume_blocks,
                forall|k: int| 0 <= k < self.len ==> (#[trigger] self.objects@[k]) is Some,
                spec_first_conflict(objects, object, 0) == spec_first_conflict(objects, object, i as int),
            decreases self.len - i,
        {
            let existing = match self.objects[i] {
                Some(e) => e,
                None => {
                    i = i + 1;
                    continue;
                },
            };
            assert(existing == objects[i as int]);
            if existing.digest().equals(&object.digest()) {
                return Err(ManifestPlanError::DuplicateDigest);
            }
            if existing.extent().overlaps(object.extent()) {
                return Err(ManifestPlanError::OverlappingExtent);
            }
            i = i + 1;
        }
        if self.len >= OBJECTS {
            return Err(ManifestPlanError::Capacity);
        }
        proof {
            lemma_push_keeps_valid_objects(objects, self.volume_blocks, OBJECTS as int, object);
        }
        let mut objects_array = self.objects;
        objects_array[self.len] = Some(object);
        let new_len = self.len + 1;
        proof {
            assert(spec_unwrap_prefix(objects_array@, new_len) =~= objects.push(object));
        }
        let updated = Self {
            generation: self.generation,
            volume_blocks: self.volume_blocks,
            objects: objects_array,
            len: new_len,
        };
        assert(updated.spec_objects() =~= objects.push(object));
        *self = updated;
        Ok(())
    }

    /// The first object, in order, with this digest.
    pub fn find_by_digest(&self, digest: Digest) -> (r: Option<ObjectDescriptor>)
        ensures
            r == spec_find_by_digest(self.spec_objects(), digest, 0),
    {
        proof {
            use_type_invariant(self);
        }
        let ghost objects = self.spec_objects();
        let mut i: usize = 0;
        while i < self.len
            invariant
                i <= self.len <= OBJECTS,
                objects == self.spec_objects(),
                forall|k: int| 0 <= k < self.len ==> (#[trigger] self.objects@[k]) is Some,
                spec_find_by_digest(objects, digest, 0) == spec_find_by_digest(objects, digest, i as int),
            decreases self.len - i,
        {
            if let Some(existing) = self.objects[i] {
                assert(existing == objects[i as int]);
                if existing.digest().equals(&digest) {
                    return Some(existing);
                }
            }
            i = i + 1;
        }
        None
    }
}

/// The first object from `i` on whose digest is `digest`.
pub open spec fn spec_find_by_digest(objects: Seq<ObjectDescriptor>, digest: Digest, i: int) -> Option<
    ObjectDescriptor,
>
    decreases objects.len() - i,
{
    if i < 0 || i >= objects.len() {
        None
    } else if objects[i].spec_digest() == digest {
        Some(objects[i])
    } else {
        spec_find_by_digest(objects, digest, i + 1)
    }
}

/// Without a conflict, adding `object` keeps digests distinct and extents
/// disjoint.
proof fn lemma_no_conflict(objects: Seq<ObjectDescriptor>, object: ObjectDescriptor, i: int)
    requires
        0 <= i,
        spec_first_conflict(objects, object, i) is None,
    ensures
        forall|k: int|
            i <= k < objects.len() ==> #[trigger] objects[k].spec_digest() != object.spec_digest()
                && !spec_extents_overlap(objects[k].spec_extent(), object.spec_extent()),
    decreases objects.len() - i,
{
    if i < objects.len() {
        lemma_no_conflict(objects, object, i + 1);
        assert(objects[i].spec_digest() != object.spec_digest());
        assert(!spec_extents_overlap(objects[i].spec_extent(), object.spec_extent()));
    }
}

/// Trust boundary implemented by a cryptographic layer outside AWStoreFS.
///
/// Implementations must compare `bytes` against `expected` using the digest algorithm fixed by an
/// authenticated manifest policy. The verdict is named by `spec_verify`, which each
/// implementation defines: it is a function of the verifier, the expected digest and the bytes.
pub trait DigestVerifier {
    /// Whether this verifier accepts `bytes` as matching `expected`. An
    /// implementation that does not define it has some fixed, unstated verdict.
    open spec fn spec_verify(&self, expected: Digest, bytes: Seq<u8>) -> bool {
        arbitrary()
    }

    fn verify(&self, expected: Digest, bytes: &[u8]) -> (r: bool)
        ensures
            r == self.spec_verify(expected, bytes@),
    ;
}

#[derive(Clone, Copy, Debug, PartialEq, Eq, Structural)]
pub enum ObjectVerificationError {
    ObjectTooLargeForAddressSpace,
    LengthMismatch { expected: u64, actual: usize },
    DigestMismatch,
}

/// Resident object bytes that matched their descriptor's digest.
///
/// This proof is intentionally insufficient to authorize execution.
pub struct VerifiedObject<'a> {
    descriptor: ObjectDescriptor,
    bytes: &'a [u8],
}

impl<'a> VerifiedObject<'a> {
    pub closed spec fn spec_descriptor(&self) -> ObjectDescriptor {
        self.descriptor
    }

    pub closed spec fn spec_bytes(&self) -> Seq<u8> {
        self.bytes@
    }

    pub fn descriptor(&self) -> (r: ObjectDescriptor)
        ensures
            r == self.spec_descriptor(),
    {
        self.descriptor
    }

    pub fn bytes(&self) -> (r: &'a [u8])
        ensures
            r@ == self.spec_bytes(),
    {
        self.bytes
    }
}

/// Why resident bytes cannot even be compared with a descriptor's digest, if
/// they cannot: the object must fit the address space and the bytes must have
/// its exact logical length.
pub open spec fn spec_object_length_error(descriptor: ObjectDescriptor, bytes: Seq<u8>) -> Option<
    ObjectVerificationError,
> {
    let expected = descriptor.spec_extent().spec_logical_bytes();
    if expected > usize::MAX {
        Some(ObjectVerificationError::ObjectTooLargeForAddressSpace)
    } else if bytes.len() != expected {
        Some(ObjectVerificationError::LengthMismatch { expected, actual: bytes.len() as usize })
    } else {
        None
    }
}

/// The outcome of checking resident bytes, given whether the verifier accepted
/// them: a length error first, then the verifier's verdict.
pub fn resident_object_outcome<'a>(
    descriptor: ObjectDescriptor,
    bytes: &'a [u8],
    digest_matches: bool,
) -> (r: Result<VerifiedObject<'a>, ObjectVerificationError>)
    ensures
        match spec_object_length_error(descriptor, bytes@) {
            Some(e) => r == Err::<VerifiedObject<'a>, ObjectVerificationError>(e),
            None => if digest_matches {
                (r matches Ok(v) && v.spec_descriptor() == descriptor && v.spec_bytes() == bytes@)
            } else {
                r == Err::<VerifiedObject<'a>, ObjectVerificationError>(
                    ObjectVerificationError::DigestMismatch,
                )
            },
        },
{
    let expected = descriptor.extent().logical_bytes();
    if expected > usize::MAX as u64 {
        return Err(ObjectVerificationError::ObjectTooLargeForAddressSpace);
    }
    if bytes.len() != expected as usize {
        return Err(ObjectVerificationError::LengthMismatch { expected, actual: bytes.len() });
    }
    if !digest_matches {
        return Err(ObjectVerificationError::DigestMismatch);
    }
    Ok(VerifiedObject { descriptor, bytes })
}

/// Checks that resident bytes have the descriptor's exact length and digest.
///
/// Length errors are decided here; for bytes of the right length the outcome
/// is the verifier's verdict on the descriptor's digest and exactly these bytes.
pub fn verify_resident_object<'a, V: DigestVerifier>(
    descriptor: ObjectDescriptor,
    bytes: &'a [u8],
    verifier: &V,
) -> (r: Result<VerifiedObject<'a>, ObjectVerificationError>)
    ensures
        match spec_object_length_error(descriptor, bytes@) {
            Some(e) => r == Err::<VerifiedObject<'a>, ObjectVerificationError>(e),
            None => if verifier.spec_verify(descriptor.spec_digest(), bytes@) {
                (r matches Ok(v) && v.spec_descriptor() == descriptor && v.spec_bytes() == bytes@)
            } else {
                r == Err::<VerifiedObject<'a>, ObjectVerificationError>(
                    ObjectVerificationError::DigestMismatch,
                )
            },
        },
{
    let expected = descriptor.extent().logical_bytes();
    if expected > usize::MAX as u64 || bytes.len() != expected as usize {
        return resident_object_outcome(descriptor, bytes, false);
    }
    let digest_matches = verifier.verify(descriptor.digest(), bytes);
    resident_object_outcome(descriptor, bytes, digest_matches)
}

} // verus!

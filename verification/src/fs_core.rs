//! AWFS semantic core: identities, checkpoint records and their selection,
//! and metadata block headers.

pub mod wire;

use vstd::prelude::*;
use crate::generation::{any_nonzero, has_nonzero_byte};

verus! {

pub const AWFS_BLOCK_SIZE: u32 = 4096;
pub const AWFS_DIGEST_BYTES: usize = 32;
pub const AWFS_VOLUME_ID_BYTES: usize = 16;
pub const AWFS_FORMAT_VERSION: u32 = 1;
pub const AWFS_CHECKPOINT_COPIES: u64 = 4;
pub const AWFS_CANONICAL_HEADER_BYTES: u32 = 128;
pub const AWFS_MAX_PAYLOAD_BYTES: u32 = 3968;

/// Content digest; never all zero.
#[derive(Clone, Copy, Debug, PartialEq, Eq)]
pub struct Digest([u8; AWFS_DIGEST_BYTES]);

impl Digest {
    /// The digest bytes.
    pub closed spec fn spec_bytes(self) -> Seq<u8> {
        self.0@
    }

    /// Thirty-two bytes, not all zero.
    pub open spec fn spec_valid(self) -> bool {
        self.spec_bytes().len() == AWFS_DIGEST_BYTES && any_nonzero(self.spec_bytes())
    }

    /// A digest is thirty-two bytes long.
    pub proof fn lemma_bytes_len(self)
        ensures
            self.spec_bytes().len() == AWFS_DIGEST_BYTES,
    {
    }

    #[verifier::type_invariant]
    closed spec fn nonzero(self) -> bool {
        any_nonzero(self.0@)
    }

    pub fn new(bytes: [u8; AWFS_DIGEST_BYTES]) -> (r: Option<Self>)
        ensures
            r is Some <==> any_nonzero(bytes@),
            r matches Some(d) ==> d.spec_bytes() == bytes@,
    {
        if has_nonzero_byte(&bytes) {
            Some(Self(bytes))
        } else {
            None
        }
    }

    pub fn bytes(self) -> (r: [u8; AWFS_DIGEST_BYTES])
        ensures
            r@ == self.spec_bytes(),
            r@.len() == AWFS_DIGEST_BYTES,
            any_nonzero(r@),
    {
        proof {
            use_type_invariant(&self);
        }
        self.0
    }

    /// Compares two digests byte for byte.
    pub fn equals(&self, other: &Self) -> (r: bool)
        ensures
            r == (*self == *other),
    {
        let mut i: usize = 0;
        while i < AWFS_DIGEST_BYTES
            invariant
                i <= AWFS_DIGEST_BYTES,
                forall|j: int| 0 <= j < i ==> self.0@[j] == other.0@[j],
            decreases AWFS_DIGEST_BYTES - i,
        {
            if self.0[i] != other.0[i] {
                return false;
            }
            i = i + 1;
        }
        assert(self.0 =~= other.0);
        true
    }
}

/// Two digests are the same exactly when their bytes are.
pub proof fn lemma_digest_bytes_determine(a: Digest, b: Digest)
    requires
        a.spec_bytes() == b.spec_bytes(),
    ensures
        a == b,
{
    assert(a.0 =~= b.0);
}

/// Volume identity; never all zero.
#[derive(Clone, Copy, Debug, PartialEq, Eq)]
pub struct VolumeId([u8; AWFS_VOLUME_ID_BYTES]);

impl VolumeId {
    /// The identity bytes.
    pub closed spec fn spec_bytes(self) -> Seq<u8> {
        self.0@
    }

    /// Sixteen bytes, not all zero.
    pub open spec fn spec_valid(self) -> bool {
        self.spec_bytes().len() == AWFS_VOLUME_ID_BYTES && any_nonzero(self.spec_bytes())
    }

    #[verifier::type_invariant]
    closed spec fn nonzero(self) -> bool {
        any_nonzero(self.0@)
    }

    pub fn new(bytes: [u8; AWFS_VOLUME_ID_BYTES]) -> (r: Option<Self>)
        ensures
            r is Some <==> any_nonzero(bytes@),
            r matches Some(v) ==> v.spec_bytes() == bytes@,
    {
        if has_nonzero_byte(&bytes) {
            Some(Self(bytes))
        } else {
            None
        }
    }

    pub fn bytes(self) -> (r: [u8; AWFS_VOLUME_ID_BYTES])
        ensures
            r@ == self.spec_bytes(),
            r@.len() == AWFS_VOLUME_ID_BYTES,
            any_nonzero(r@),
    {
        proof {
            use_type_invariant(&self);
        }
        self.0
    }

    /// Compares two volume identities byte for byte.
    pub fn equals(&self, other: &Self) -> (r: bool)
        ensures
            r == (*self == *other),
    {
        let mut i: usize = 0;
        while i < AWFS_VOLUME_ID_BYTES
            invariant
                i <= AWFS_VOLUME_ID_BYTES,
                forall|j: int| 0 <= j < i ==> self.0@[j] == other.0@[j],
            decreases AWFS_VOLUME_ID_BYTES - i,
        {
            if self.0[i] != other.0[i] {
                return false;
            }
            i = i + 1;
        }
        assert(self.0 =~= other.0);
        true
    }
}

/// Two volume identities are the same exactly when their bytes are.
pub proof fn lemma_volume_bytes_determine(a: VolumeId, b: VolumeId)
    requires
        a.spec_bytes() == b.spec_bytes(),
    ensures
        a == b,
{
    assert(a.0 =~= b.0);
}

#[derive(Clone, Copy, Debug, PartialEq, Eq, Structural)]
pub enum VolumeMode {
    ImmutableVerifiedStore,
    EncryptedMutableState,
}

impl VolumeMode {
    pub fn is_mutable(self) -> (r: bool)
        ensures
            r == (self == VolumeMode::EncryptedMutableState),
    {
        match self {
            VolumeMode::EncryptedMutableState => true,
            VolumeMode::ImmutableVerifiedStore => false,
        }
    }

    pub fn requires_content_authentication(self) -> (r: bool)
        ensures
            r,
    {
        true
    }

    pub fn requires_encryption(self) -> (r: bool)
        ensures
            r == (self == VolumeMode::EncryptedMutableState),
    {
        match self {
            VolumeMode::EncryptedMutableState => true,
            VolumeMode::ImmutableVerifiedStore => false,
        }
    }
}

/// Location and digest of a filesystem root, outside the checkpoint copies.
#[derive(Clone, Copy, Debug, PartialEq, Eq)]
pub struct RootPointer {
    physical_block: u64,
    digest: Digest,
}

impl RootPointer {
    pub closed spec fn spec_physical_block(self) -> u64 {
        self.physical_block
    }

    pub closed spec fn spec_digest(self) -> Digest {
        self.digest
    }

    /// Outside the checkpoint copies, with a valid digest.
    pub open spec fn spec_valid(self) -> bool {
        self.spec_physical_block() >= AWFS_CHECKPOINT_COPIES && self.spec_digest().spec_valid()
    }

    #[verifier::type_invariant]
    closed spec fn outside_checkpoints(self) -> bool {
        self.physical_block >= AWFS_CHECKPOINT_COPIES
    }

    pub fn new(physical_block: u64, digest: Digest) -> (r: Option<Self>)
        ensures
            r is Some <==> physical_block >= AWFS_CHECKPOINT_COPIES,
            r matches Some(p) ==> p.spec_physical_block() == physical_block && p.spec_digest()
                == digest,
    {
        if physical_block < AWFS_CHECKPOINT_COPIES {
            return None;
        }
        Some(Self { physical_block, digest })
    }

    pub fn physical_block(self) -> (r: u64)
        ensures
            r == self.spec_physical_block(),
            r >= AWFS_CHECKPOINT_COPIES,
    {
        proof {
            use_type_invariant(&self);
        }
        self.physical_block
    }

    pub fn digest(self) -> (r: Digest)
        ensures
            r == self.spec_digest(),
    {
        self.digest
    }

    /// Compares two root pointers field by field.
    pub fn equals(&self, other: &Self) -> (r: bool)
        ensures
            r == (*self == *other),
    {
        self.physical_block == other.physical_block && self.digest.equals(&other.digest)
    }
}

/// One checkpoint: the newest committed root of a volume.
#[derive(Clone, Copy, Debug, PartialEq, Eq)]
pub struct CheckpointRecord {
    format_version: u32,
    sequence: u64,
    volume_id: VolumeId,
    mode: VolumeMode,
    root: RootPointer,
    previous_root: Option<RootPointer>,
}

impl CheckpointRecord {
    pub closed spec fn spec_format_version(self) -> u32 {
        self.format_version
    }

    pub closed spec fn spec_sequence(self) -> u64 {
        self.sequence
    }

    pub closed spec fn spec_volume_id(self) -> VolumeId {
        self.volume_id
    }

    pub closed spec fn spec_mode(self) -> VolumeMode {
        self.mode
    }

    pub closed spec fn spec_root(self) -> RootPointer {
        self.root
    }

    pub closed spec fn spec_previous_root(self) -> Option<RootPointer> {
        self.previous_root
    }

    /// The record a successful `new` builds from its arguments.
    pub closed spec fn spec_build(
        sequence: u64,
        volume_id: VolumeId,
        mode: VolumeMode,
        root: RootPointer,
        previous_root: Option<RootPointer>,
    ) -> Self {
        CheckpointRecord { format_version: AWFS_FORMAT_VERSION, sequence, volume_id, mode, root, previous_root }
    }

    /// Every record is of the current format, has a nonzero sequence, and a
    /// previous root that differs from its root.
    pub open spec fn spec_well_formed(self) -> bool {
        &&& self.spec_format_version() == AWFS_FORMAT_VERSION
        &&& self.spec_sequence() != 0
        &&& self.spec_previous_root() != Some(self.spec_root())
    }

    /// The record is well formed, and its identity and roots are ones their
    /// constructors accept.
    pub open spec fn spec_valid(self) -> bool {
        &&& self.spec_well_formed()
        &&& self.spec_volume_id().spec_valid()
        &&& self.spec_root().spec_valid()
        &&& self.spec_previous_root() matches Some(p) ==> p.spec_valid()
    }

    #[verifier::type_invariant]
    closed spec fn well_formed(self) -> bool {
        &&& self.format_version == AWFS_FORMAT_VERSION
        &&& self.sequence != 0
        &&& self.previous_root != Some(self.root)
    }

    pub fn new(
        sequence: u64,
        volume_id: VolumeId,
        mode: VolumeMode,
        root: RootPointer,
        previous_root: Option<RootPointer>,
    ) -> (r: Option<Self>)
        ensures
            r is Some <==> sequence != 0 && previous_root != Some(root),
            r matches Some(c) ==> c == Self::spec_build(sequence, volume_id, mode, root, previous_root),
            r matches Some(c) ==> c.spec_sequence() == sequence && c.spec_volume_id() == volume_id
                && c.spec_mode() == mode && c.spec_root() == root && c.spec_previous_root()
                == previous_root && c.spec_format_version() == AWFS_FORMAT_VERSION,
    {
        if sequence == 0 {
            return None;
        }
        if let Some(previous) = previous_root {
            if previous.equals(&root) {
                return None;
            }
        }
        Some(
            Self {
                format_version: AWFS_FORMAT_VERSION,
                sequence,
                volume_id,
                mode,
                root,
                previous_root,
            },
        )
    }

    pub fn format_version(self) -> (r: u32)
        ensures
            r == self.spec_format_version(),
    {
        self.format_version
    }

    pub fn sequence(self) -> (r: u64)
        ensures
            r == self.spec_sequence(),
    {
        self.sequence
    }

    pub fn volume_id(self) -> (r: VolumeId)
        ensures
            r == self.spec_volume_id(),
    {
        self.volume_id
    }

    pub fn mode(self) -> (r: VolumeMode)
        ensures
            r == self.spec_mode(),
    {
        self.mode
    }

    pub fn root(self) -> (r: RootPointer)
        ensures
            r == self.spec_root(),
    {
        self.root
    }

    pub fn previous_root(self) -> (r: Option<RootPointer>)
        ensures
            r == self.spec_previous_root(),
    {
        self.previous_root
    }

    /// Every record satisfies its well-formedness invariant, and each of its
    /// parts is one its own constructor accepts.
    pub fn well_formedness(&self) -> (r: bool)
        ensures
            r == self.spec_well_formed(),
            r,
            self.spec_valid(),
    {
        proof {
            use_type_invariant(self);
            use_type_invariant(&self.volume_id);
            use_type_invariant(&self.root);
            use_type_invariant(&self.root.digest);
        }
        if let Some(previous) = self.previous_root {
            proof {
                use_type_invariant(&previous);
                use_type_invariant(&previous.digest);
            }
        }
        true
    }

    pub fn is_supported(self) -> (r: bool)
        ensures
            r == (self.spec_format_version() == AWFS_FORMAT_VERSION && self.spec_sequence() != 0),
    {
        self.format_version == AWFS_FORMAT_VERSION && self.sequence != 0
    }

    /// Compares two records field by field.
    pub fn equals(&self, other: &Self) -> (r: bool)
        ensures
            r == (*self == *other),
    {
        let prev_equal = match (self.previous_root, other.previous_root) {
            (None, None) => true,
            (Some(a), Some(b)) => a.equals(&b),
            _ => false,
        };
        self.format_version == other.format_version && self.sequence == other.sequence
            && self.volume_id.equals(&other.volume_id) && self.mode == other.mode
            && self.root.equals(&other.root) && prev_equal
    }
}

/// Two records with the same fields are the same record.
pub proof fn lemma_record_fields_determine(a: CheckpointRecord, b: CheckpointRecord)
    requires
        a.spec_format_version() == b.spec_format_version(),
        a.spec_sequence() == b.spec_sequence(),
        a.spec_volume_id() == b.spec_volume_id(),
        a.spec_mode() == b.spec_mode(),
        a.spec_root() == b.spec_root(),
        a.spec_previous_root() == b.spec_previous_root(),
    ensures
        a == b,
{
}

/// Two root pointers with the same block and digest bytes are the same.
pub proof fn lemma_root_fields_determine(a: RootPointer, b: RootPointer)
    requires
        a.spec_physical_block() == b.spec_physical_block(),
        a.spec_digest().spec_bytes() == b.spec_digest().spec_bytes(),
    ensures
        a == b,
{
    lemma_digest_bytes_determine(a.digest, b.digest);
}

#[derive(Clone, Copy, Debug, PartialEq, Eq, Structural)]
pub enum CheckpointSelectionError {
    NoValidCheckpoint,
    ConflictingSequence { sequence: u64 },
    VolumeMismatch,
    ModeMismatch,
}

/// Copy `i` holds a checkpoint of the supported format with a nonzero sequence.
pub open spec fn copy_supported(s: Seq<Option<CheckpointRecord>>, i: int) -> bool {
    &&& 0 <= i < s.len()
    &&& s[i] is Some
    &&& s[i]->Some_0.spec_format_version() == AWFS_FORMAT_VERSION
    &&& s[i]->Some_0.spec_sequence() != 0
}

/// Some copy is supported.
pub open spec fn any_supported(s: Seq<Option<CheckpointRecord>>) -> bool {
    exists|i: int| #[trigger] copy_supported(s, i)
}

/// All supported copies name one volume.
pub open spec fn volumes_agree(s: Seq<Option<CheckpointRecord>>) -> bool {
    forall|i: int, j: int| #[trigger] copy_supported(s, i) && #[trigger] copy_supported(s, j)
        ==> s[i]->Some_0.spec_volume_id() == s[j]->Some_0.spec_volume_id()
}

/// All supported copies are of one mode.
pub open spec fn modes_agree(s: Seq<Option<CheckpointRecord>>) -> bool {
    forall|i: int, j: int| #[trigger] copy_supported(s, i) && #[trigger] copy_supported(s, j)
        ==> s[i]->Some_0.spec_mode() == s[j]->Some_0.spec_mode()
}

/// No supported copy has a sequence above `sequence`.
pub open spec fn none_newer(s: Seq<Option<CheckpointRecord>>, sequence: u64) -> bool {
    forall|j: int| #[trigger] copy_supported(s, j) ==> s[j]->Some_0.spec_sequence() <= sequence
}

/// `c` is the newest checkpoint: a supported copy, no copy is newer, and every
/// copy as new as it is that very record.
pub open spec fn is_newest(s: Seq<Option<CheckpointRecord>>, c: CheckpointRecord) -> bool {
    &&& exists|k: int| #[trigger] copy_supported(s, k) && s[k]->Some_0 == c
    &&& none_newer(s, c.spec_sequence())
    &&& forall|j: int| #[trigger] copy_supported(s, j) && s[j]->Some_0.spec_sequence() == c.spec_sequence()
        ==> s[j]->Some_0 == c
}

/// Two different supported copies claim the newest sequence, `sequence`.
pub open spec fn conflict_at_newest(s: Seq<Option<CheckpointRecord>>, sequence: u64) -> bool {
    &&& exists|i: int, j: int|
        #[trigger] copy_supported(s, i) && #[trigger] copy_supported(s, j)
            && s[i]->Some_0.spec_sequence() == sequence && s[j]->Some_0.spec_sequence() == sequence
            && s[i]->Some_0 != s[j]->Some_0
    &&& none_newer(s, sequence)
}

/// What selection answers, whatever the order of the copies: no checkpoint
/// when none is supported; a volume mismatch, then a mode mismatch, when the
/// supported copies disagree; otherwise the newest checkpoint, or a conflict
/// when two different copies claim the newest sequence.
pub open spec fn selection_answers(
    s: Seq<Option<CheckpointRecord>>,
    r: Result<CheckpointRecord, CheckpointSelectionError>,
) -> bool {
    if !any_supported(s) {
        r == Err::<CheckpointRecord, CheckpointSelectionError>(CheckpointSelectionError::NoValidCheckpoint)
    } else if !volumes_agree(s) {
        r == Err::<CheckpointRecord, CheckpointSelectionError>(CheckpointSelectionError::VolumeMismatch)
    } else if !modes_agree(s) {
        r == Err::<CheckpointRecord, CheckpointSelectionError>(CheckpointSelectionError::ModeMismatch)
    } else {
        match r {
            Ok(c) => is_newest(s, c),
            Err(CheckpointSelectionError::ConflictingSequence { sequence }) => conflict_at_newest(s, sequence),
            Err(_) => false,
        }
    }
}

/// Selects the newest valid checkpoint without guessing through ambiguous state.
///
/// Equal sequence numbers are accepted only when the records are identical. If two records claim
/// the same newest sequence but point at different roots, the filesystem must enter recovery.
pub fn select_checkpoint<const COPIES: usize>(records: &[Option<CheckpointRecord>; COPIES]) -> (r: Result<
    CheckpointRecord,
    CheckpointSelectionError,
>)
    ensures
        selection_answers(records@, r),
{
    let ghost s = records@;
    // The first supported copy.
    let mut first: Option<CheckpointRecord> = None;
    let mut f: usize = 0;
    while f < COPIES
        invariant_except_break
            first is None,
        invariant
            s == records@,
            s.len() == COPIES,
            f <= COPIES,
            forall|j: int| 0 <= j < f ==> !copy_supported(s, j),
        ensures
            match first {
                Some(c) => f < COPIES && copy_supported(s, f as int) && s[f as int]->Some_0 == c,
                None => forall|j: int| 0 <= j < COPIES ==> !copy_supported(s, j),
            },
        decreases COPIES - f,
    {
        match records[f] {
            Some(record) => {
                if record.is_supported() {
                    first = Some(record);
                    break;
                }
            },
            None => {},
        }
        f = f + 1;
    }
    let first = match first {
        Some(record) => record,
        None => {
            return Err(CheckpointSelectionError::NoValidCheckpoint);
        },
    };
    // Every supported copy must name the first one's volume, then its mode.
    let mut i: usize = 0;
    while i < COPIES
        invariant
            s == records@,
            s.len() == COPIES,
            i <= COPIES,
            f < COPIES && copy_supported(s, f as int) && s[f as int]->Some_0 == first,
            forall|j: int| 0 <= j < i && copy_supported(s, j) ==> s[j]->Some_0.spec_volume_id() == first.spec_volume_id(),
        decreases COPIES - i,
    {
        if let Some(record) = records[i] {
            if record.is_supported() && !record.volume_id().equals(&first.volume_id()) {
                assert(copy_supported(s, i as int));
                return Err(CheckpointSelectionError::VolumeMismatch);
            }
        }
        i = i + 1;
    }
    let mut i: usize = 0;
    while i < COPIES
        invariant
            s == records@,
            s.len() == COPIES,
            i <= COPIES,
            f < COPIES && copy_supported(s, f as int) && s[f as int]->Some_0 == first,
            volumes_agree(s),
            forall|j: int| 0 <= j < i && copy_supported(s, j) ==> s[j]->Some_0.spec_mode() == first.spec_mode(),
        decreases COPIES - i,
    {
        if let Some(record) = records[i] {
            if record.is_supported() && record.mode() != first.mode() {
                assert(copy_supported(s, i as int));
                return Err(CheckpointSelectionError::ModeMismatch);
            }
        }
        i = i + 1;
    }
    // The newest supported copy, the first of its sequence.
    let mut best = first;
    let mut b: usize = f;
    let mut i: usize = 0;
    while i < COPIES
        invariant
            s == records@,
            s.len() == COPIES,
            i <= COPIES,
            volumes_agree(s),
            modes_agree(s),
            b < COPIES && copy_supported(s, b as int) && s[b as int]->Some_0 == best,
            forall|j: int| 0 <= j < i && copy_supported(s, j) ==> s[j]->Some_0.spec_sequence() <= best.spec_sequence(),
        decreases COPIES - i,
    {
        if let Some(record) = records[i] {
            if record.is_supported() && record.sequence() > best.sequence() {
                best = record;
                b = i;
            }
        }
        i = i + 1;
    }
    // Any other copy claiming that sequence is a conflict.
    let mut i: usize = 0;
    while i < COPIES
        invariant
            s == records@,
            s.len() == COPIES,
            i <= COPIES,
            volumes_agree(s),
            modes_agree(s),
            b < COPIES && copy_supported(s, b as int) && s[b as int]->Some_0 == best,
            none_newer(s, best.spec_sequence()),
            forall|j: int| 0 <= j < i && copy_supported(s, j) && s[j]->Some_0.spec_sequence() == best.spec_sequence()
                ==> s[j]->Some_0 == best,
        decreases COPIES - i,
    {
        if let Some(record) = records[i] {
            if record.is_supported() && record.sequence() == best.sequence() && !record.equals(&best) {
                assert(copy_supported(s, i as int));
                assert(conflict_at_newest(s, best.spec_sequence()));
                return Err(CheckpointSelectionError::ConflictingSequence { sequence: best.sequence() });
            }
        }
        i = i + 1;
    }
    Ok(best)
}

#[derive(Clone, Copy, Debug, PartialEq, Eq, Structural)]
pub enum MetadataBlockKind {
    Root,
    ObjectIndex,
    Directory,
    Inode,
    ExtentMap,
    AllocationMap,
    SnapshotIndex,
}

#[derive(Clone, Copy, Debug, PartialEq, Eq, Structural)]
pub enum MetadataValidationError {
    ZeroTransaction,
    ZeroOwner,
    PayloadTooLarge,
    WrongPhysicalLocation { expected: u64, actual: u64 },
}

/// Semantic header shared by AWFS metadata blocks.
///
/// This is deliberately not an on-disk layout. Canonical byte encoding is a
/// separate parser/serializer so malformed disk bytes can never be interpreted
/// by reinterpreting memory as a structure.
#[derive(Clone, Copy, Debug, PartialEq, Eq, Structural)]
pub struct MetadataBlockHeader {
    kind: MetadataBlockKind,
    owner: u64,
    logical_id: u64,
    transaction: u64,
    expected_physical_block: u64,
    payload_len: u32,
}

impl MetadataBlockHeader {
    pub closed spec fn spec_kind(self) -> MetadataBlockKind {
        self.kind
    }

    pub closed spec fn spec_owner(self) -> u64 {
        self.owner
    }

    pub closed spec fn spec_logical_id(self) -> u64 {
        self.logical_id
    }

    pub closed spec fn spec_transaction(self) -> u64 {
        self.transaction
    }

    pub closed spec fn spec_expected_physical_block(self) -> u64 {
        self.expected_physical_block
    }

    pub closed spec fn spec_payload_len(self) -> u32 {
        self.payload_len
    }

    pub fn new(
        kind: MetadataBlockKind,
        owner: u64,
        logical_id: u64,
        transaction: u64,
        expected_physical_block: u64,
        payload_len: u32,
    ) -> (r: Result<Self, MetadataValidationError>)
        ensures
            transaction == 0 ==> r == Err::<Self, _>(MetadataValidationError::ZeroTransaction),
            transaction != 0 && owner == 0 ==> r == Err::<Self, _>(MetadataValidationError::ZeroOwner),
            transaction != 0 && owner != 0 && payload_len > AWFS_MAX_PAYLOAD_BYTES ==> r == Err::<
                Self,
                _,
            >(MetadataValidationError::PayloadTooLarge),
            r is Ok <==> transaction != 0 && owner != 0 && payload_len <= AWFS_MAX_PAYLOAD_BYTES,
            r matches Ok(h) ==> h.spec_kind() == kind && h.spec_owner() == owner && h.spec_logical_id()
                == logical_id && h.spec_transaction() == transaction && h.spec_expected_physical_block()
                == expected_physical_block && h.spec_payload_len() == payload_len,
    {
        if transaction == 0 {
            return Err(MetadataValidationError::ZeroTransaction);
        }
        if owner == 0 {
            return Err(MetadataValidationError::ZeroOwner);
        }
        if payload_len > AWFS_MAX_PAYLOAD_BYTES {
            return Err(MetadataValidationError::PayloadTooLarge);
        }
        Ok(Self { kind, owner, logical_id, transaction, expected_physical_block, payload_len })
    }

    pub fn kind(self) -> (r: MetadataBlockKind)
        ensures
            r == self.spec_kind(),
    {
        self.kind
    }

    pub fn owner(self) -> (r: u64)
        ensures
            r == self.spec_owner(),
    {
        self.owner
    }

    pub fn logical_id(self) -> (r: u64)
        ensures
            r == self.spec_logical_id(),
    {
        self.logical_id
    }

    pub fn transaction(self) -> (r: u64)
        ensures
            r == self.spec_transaction(),
    {
        self.transaction
    }

    pub fn expected_physical_block(self) -> (r: u64)
        ensures
            r == self.spec_expected_physical_block(),
    {
        self.expected_physical_block
    }

    pub fn payload_len(self) -> (r: u32)
        ensures
            r == self.spec_payload_len(),
    {
        self.payload_len
    }

    pub fn validate_at(self, actual_physical_block: u64) -> (r: Result<(), MetadataValidationError>)
        ensures
            r is Ok <==> actual_physical_block == self.spec_expected_physical_block(),
            r is Err ==> r == Err::<(), _>(
                MetadataValidationError::WrongPhysicalLocation {
                    expected: self.spec_expected_physical_block(),
                    actual: actual_physical_block,
                },
            ),
    {
        if actual_physical_block != self.expected_physical_block {
            return Err(
                MetadataValidationError::WrongPhysicalLocation {
                    expected: self.expected_physical_block,
                    actual: actual_physical_block,
                },
            );
        }
        Ok(())
    }
}

/// Selection has one answer for a set of copies: two answers that both meet
/// `selection_answers` are the same.
pub proof fn lemma_selection_is_determined(
    s: Seq<Option<CheckpointRecord>>,
    r1: Result<CheckpointRecord, CheckpointSelectionError>,
    r2: Result<CheckpointRecord, CheckpointSelectionError>,
)
    requires
        selection_answers(s, r1),
        selection_answers(s, r2),
    ensures
        r1 == r2,
{
    if any_supported(s) && volumes_agree(s) && modes_agree(s) {
        match (r1, r2) {
            (Ok(a), Ok(b)) => {
                let ka = choose|k: int| #[trigger] copy_supported(s, k) && s[k]->Some_0 == a;
                let kb = choose|k: int| #[trigger] copy_supported(s, k) && s[k]->Some_0 == b;
                assert(s[kb]->Some_0.spec_sequence() <= a.spec_sequence());
                assert(s[ka]->Some_0.spec_sequence() <= b.spec_sequence());
            },
            (Ok(a), Err(e)) => {
                let sequence = e->ConflictingSequence_sequence;
                let (i, j) = choose|i: int, j: int|
                    #[trigger] copy_supported(s, i) && #[trigger] copy_supported(s, j)
                        && s[i]->Some_0.spec_sequence() == sequence && s[j]->Some_0.spec_sequence() == sequence
                        && s[i]->Some_0 != s[j]->Some_0;
                let ka = choose|k: int| #[trigger] copy_supported(s, k) && s[k]->Some_0 == a;
                assert(s[ka]->Some_0.spec_sequence() <= sequence);
            },
            (Err(e), Ok(a)) => {
                let sequence = e->ConflictingSequence_sequence;
                let (i, j) = choose|i: int, j: int|
                    #[trigger] copy_supported(s, i) && #[trigger] copy_supported(s, j)
                        && s[i]->Some_0.spec_sequence() == sequence && s[j]->Some_0.spec_sequence() == sequence
                        && s[i]->Some_0 != s[j]->Some_0;
                let ka = choose|k: int| #[trigger] copy_supported(s, k) && s[k]->Some_0 == a;
                assert(s[ka]->Some_0.spec_sequence() <= sequence);
            },
            (Err(e1), Err(e2)) => {
                let s1 = e1->ConflictingSequence_sequence;
                let s2 = e2->ConflictingSequence_sequence;
                let (i, j) = choose|i: int, j: int|
                    #[trigger] copy_supported(s, i) && #[trigger] copy_supported(s, j)
                        && s[i]->Some_0.spec_sequence() == s1 && s[j]->Some_0.spec_sequence() == s1
                        && s[i]->Some_0 != s[j]->Some_0;
                let (k, l) = choose|i: int, j: int|
                    #[trigger] copy_supported(s, i) && #[trigger] copy_supported(s, j)
                        && s[i]->Some_0.spec_sequence() == s2 && s[j]->Some_0.spec_sequence() == s2
                        && s[i]->Some_0 != s[j]->Some_0;
                assert(s[i]->Some_0.spec_sequence() <= s2);
                assert(s[k]->Some_0.spec_sequence() <= s1);
            },
        }
    }
}

/// Every supported copy of `s` is also, somewhere, a supported copy of `t`.
pub open spec fn supported_within(s: Seq<Option<CheckpointRecord>>, t: Seq<Option<CheckpointRecord>>) -> bool {
    forall|i: int| #[trigger] copy_supported(s, i) ==> exists|j: int| #[trigger] copy_supported(t, j) && t[j] == s[i]
}

proof fn lemma_any_within(s: Seq<Option<CheckpointRecord>>, t: Seq<Option<CheckpointRecord>>)
    requires
        supported_within(s, t),
        any_supported(s),
    ensures
        any_supported(t),
{
    let i = choose|i: int| #[trigger] copy_supported(s, i);
    let j = choose|j: int| #[trigger] copy_supported(t, j) && t[j] == s[i];
}

proof fn lemma_agreement_within(s: Seq<Option<CheckpointRecord>>, t: Seq<Option<CheckpointRecord>>)
    requires
        supported_within(t, s),
    ensures
        volumes_agree(s) ==> volumes_agree(t),
        modes_agree(s) ==> modes_agree(t),
{
    if volumes_agree(s) {
        assert forall|a: int, b: int| #[trigger] copy_supported(t, a) && #[trigger] copy_supported(t, b)
            implies t[a]->Some_0.spec_volume_id() == t[b]->Some_0.spec_volume_id() by {
            let x = choose|i: int| #[trigger] copy_supported(s, i) && s[i] == t[a];
            let y = choose|i: int| #[trigger] copy_supported(s, i) && s[i] == t[b];
        }
    }
    if modes_agree(s) {
        assert forall|a: int, b: int| #[trigger] copy_supported(t, a) && #[trigger] copy_supported(t, b)
            implies t[a]->Some_0.spec_mode() == t[b]->Some_0.spec_mode() by {
            let x = choose|i: int| #[trigger] copy_supported(s, i) && s[i] == t[a];
            let y = choose|i: int| #[trigger] copy_supported(s, i) && s[i] == t[b];
        }
    }
}

proof fn lemma_none_newer_within(s: Seq<Option<CheckpointRecord>>, t: Seq<Option<CheckpointRecord>>, q: u64)
    requires
        supported_within(t, s),
        none_newer(s, q),
    ensures
        none_newer(t, q),
{
    assert forall|x: int| #[trigger] copy_supported(t, x) implies t[x]->Some_0.spec_sequence() <= q by {
        let y = choose|i: int| #[trigger] copy_supported(s, i) && s[i] == t[x];
    }
}

proof fn lemma_newest_within(s: Seq<Option<CheckpointRecord>>, t: Seq<Option<CheckpointRecord>>, c: CheckpointRecord)
    requires
        supported_within(s, t),
        supported_within(t, s),
        is_newest(s, c),
    ensures
        is_newest(t, c),
{
    let k = choose|k: int| #[trigger] copy_supported(s, k) && s[k]->Some_0 == c;
    let k2 = choose|j: int| #[trigger] copy_supported(t, j) && t[j] == s[k];
    assert(copy_supported(t, k2) && t[k2]->Some_0 == c);
    lemma_none_newer_within(s, t, c.spec_sequence());
    assert forall|j: int| #[trigger] copy_supported(t, j) && t[j]->Some_0.spec_sequence() == c.spec_sequence()
        implies t[j]->Some_0 == c by {
        let x = choose|i: int| #[trigger] copy_supported(s, i) && s[i] == t[j];
    }
}

proof fn lemma_conflict_within(s: Seq<Option<CheckpointRecord>>, t: Seq<Option<CheckpointRecord>>, q: u64)
    requires
        supported_within(s, t),
        supported_within(t, s),
        conflict_at_newest(s, q),
    ensures
        conflict_at_newest(t, q),
{
    let (i, j) = choose|i: int, j: int|
        #[trigger] copy_supported(s, i) && #[trigger] copy_supported(s, j)
            && s[i]->Some_0.spec_sequence() == q && s[j]->Some_0.spec_sequence() == q
            && s[i]->Some_0 != s[j]->Some_0;
    let a = choose|a: int| #[trigger] copy_supported(t, a) && t[a] == s[i];
    let b = choose|b: int| #[trigger] copy_supported(t, b) && t[b] == s[j];
    assert(copy_supported(t, a) && copy_supported(t, b) && t[a]->Some_0.spec_sequence() == q
        && t[b]->Some_0.spec_sequence() == q && t[a]->Some_0 != t[b]->Some_0);
    lemma_none_newer_within(s, t, q);
}

/// The order of the copies does not matter: two lists holding the same
/// supported records, in any order and any number of times, get the same
/// answer.
pub proof fn lemma_selection_ignores_order(
    s: Seq<Option<CheckpointRecord>>,
    t: Seq<Option<CheckpointRecord>>,
    r: Result<CheckpointRecord, CheckpointSelectionError>,
)
    requires
        supported_within(s, t),
        supported_within(t, s),
        selection_answers(s, r),
    ensures
        selection_answers(t, r),
{
    if any_supported(s) {
        lemma_any_within(s, t);
    }
    if any_supported(t) {
        lemma_any_within(t, s);
    }
    lemma_agreement_within(s, t);
    lemma_agreement_within(t, s);
    if any_supported(s) && volumes_agree(s) && modes_agree(s) {
        match r {
            Ok(c) => lemma_newest_within(s, t, c),
            Err(CheckpointSelectionError::ConflictingSequence { sequence }) => lemma_conflict_within(s, t, sequence),
            Err(_) => {},
        }
    }
}

} // verus!

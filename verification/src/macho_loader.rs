//! Load planning for a Mach-O main executable: its segments, checked for
//! bounds, protections and overlap, and its `LC_MAIN` entry point.

use vstd::prelude::*;
use vstd::slice::slice_subrange;
use crate::le_bytes::{u32_le, u64_le, read_u32_le, read_u64_le, lemma_u32_le_subrange};
use crate::macho::{
    CpuType, MachSlice, ParseError, select_mach_o_64, validate_main_executable,
    spec_select_mach_o_64, spec_validate_main_executable,
};

verus! {

const MACH_HEADER_64_SIZE: usize = 32;
const LOAD_COMMAND_HEADER_SIZE: usize = 8;
pub const SEGMENT_COMMAND_64_SIZE: usize = 72;
pub const SECTION_64_SIZE: usize = 80;
pub const ENTRY_POINT_COMMAND_SIZE: usize = 24;

pub const LC_SEGMENT_64: u32 = 0x19;
pub const LC_MAIN: u32 = 0x8000_0028;

pub const VM_PROT_READ: u32 = 0x1;
pub const VM_PROT_WRITE: u32 = 0x2;
pub const VM_PROT_EXECUTE: u32 = 0x4;
pub const MH_PIE: u32 = 0x0020_0000;

#[derive(Clone, Copy, Debug, PartialEq, Eq, Structural)]
pub enum LoaderError {
    Mach(ParseError),
    IntegerOverflow,
    SliceOutOfBounds,
    LoadCommandOutOfBounds { index: u32 },
    LoadCommandTooSmall { index: u32, size: u32 },
    SegmentCommandTooSmall { index: u32, size: u32 },
    SegmentCommandSizeMismatch { index: u32, declared: u32, expected: usize },
    SegmentFileOutOfBounds { index: u32 },
    SegmentFileLargerThanVm { index: u32 },
    SegmentVmRangeOverflow { index: u32 },
    SegmentProtectionEscalation { index: u32 },
    WritableExecutableSegment { index: u32 },
    SegmentFileOverlap { first: u32, second: u32 },
    SegmentVmOverlap { first: u32, second: u32 },
    MainCommandTooSmall { index: u32, size: u32 },
    DuplicateMainCommand,
    MissingMainCommand,
    EntryPointOutOfBounds,
    EntryPointNotExecutable,
    AmbiguousEntryPoint,
}

impl LoaderError {
    /// Wraps a Mach-O header error.
    pub fn from_parse(value: ParseError) -> (r: Self)
        ensures
            r == LoaderError::Mach(value),
    {
        LoaderError::Mach(value)
    }
}

/// One `LC_SEGMENT_64` command.
#[derive(Clone, Copy, Debug, PartialEq, Eq)]
pub struct Segment64 {
    pub command_index: u32,
    pub name: [u8; 16],
    pub vm_address: u64,
    pub vm_size: u64,
    pub file_offset: u64,
    pub file_size: u64,
    pub max_protection: u32,
    pub initial_protection: u32,
    pub section_count: u32,
    pub flags: u32,
}

/// The numeric fields of a segment command, and where the command starts in
/// the image (its name is the sixteen bytes eight past that).
#[derive(Clone, Copy, Debug, PartialEq, Eq, Structural)]
pub struct SegmentFields {
    pub command_index: u32,
    pub command_offset: usize,
    pub vm_address: u64,
    pub vm_size: u64,
    pub file_offset: u64,
    pub file_size: u64,
    pub max_protection: u32,
    pub initial_protection: u32,
    pub section_count: u32,
    pub flags: u32,
}

/// Whether `seg` is the segment whose fields are `f` in `image`.
pub open spec fn spec_segment_is(seg: Segment64, f: SegmentFields, image: Seq<u8>) -> bool {
    &&& seg.command_index == f.command_index
    &&& seg.name@ == image.subrange(f.command_offset + 8, f.command_offset + 24)
    &&& seg.vm_address == f.vm_address
    &&& seg.vm_size == f.vm_size
    &&& seg.file_offset == f.file_offset
    &&& seg.file_size == f.file_size
    &&& seg.max_protection == f.max_protection
    &&& seg.initial_protection == f.initial_protection
    &&& seg.section_count == f.section_count
    &&& seg.flags == f.flags
}

pub open spec fn spec_is_executable(initial_protection: u32) -> bool {
    initial_protection & VM_PROT_EXECUTE != 0
}

pub open spec fn spec_is_writable(initial_protection: u32) -> bool {
    initial_protection & VM_PROT_WRITE != 0
}

/// Whether a nonempty file range that does not wrap holds `offset`.
pub open spec fn spec_contains_file_offset(file_offset: u64, file_size: u64, offset: u64) -> bool {
    file_size != 0 && file_offset + file_size <= u64::MAX && file_offset <= offset && offset
        < file_offset + file_size
}

/// The virtual address of a file offset inside the segment, if it is inside
/// and the address fits.
pub open spec fn spec_entry_vm_address(vm_address: u64, file_offset: u64, file_size: u64, offset: u64) -> Option<u64> {
    if !spec_contains_file_offset(file_offset, file_size, offset) {
        None
    } else if vm_address + (offset - file_offset) > u64::MAX {
        None
    } else {
        Some((vm_address + (offset - file_offset)) as u64)
    }
}

impl Segment64 {
    pub fn is_executable(self) -> (r: bool)
        ensures
            r == spec_is_executable(self.initial_protection),
    {
        self.initial_protection & VM_PROT_EXECUTE != 0
    }

    pub fn is_writable(self) -> (r: bool)
        ensures
            r == spec_is_writable(self.initial_protection),
    {
        self.initial_protection & VM_PROT_WRITE != 0
    }

    pub fn contains_file_offset(self, offset: u64) -> (r: bool)
        ensures
            r == spec_contains_file_offset(self.file_offset, self.file_size, offset),
    {
        if self.file_size == 0 {
            return false;
        }
        match self.file_offset.checked_add(self.file_size) {
            Some(end) => offset >= self.file_offset && offset < end,
            None => false,
        }
    }

    pub fn entry_vm_address(self, file_offset: u64) -> (r: Option<u64>)
        ensures
            r == spec_entry_vm_address(self.vm_address, self.file_offset, self.file_size, file_offset),
    {
        if !self.contains_file_offset(file_offset) {
            return None;
        }
        let delta = file_offset - self.file_offset;
        self.vm_address.checked_add(delta)
    }
}

/// The plan for loading a main executable.
#[derive(Clone, Copy, Debug, PartialEq, Eq, Structural)]
pub struct ExecutablePlan {
    pub slice: MachSlice,
    pub entry_file_offset: u64,
    pub entry_vm_address: u64,
    pub stack_size: u64,
    pub segment_count: u32,
    pub position_independent: bool,
}

/// The bytes of the selected image inside the whole file, or why they cannot
/// be taken.
pub open spec fn spec_selected_image(s: Seq<u8>, slice: MachSlice) -> Result<Seq<u8>, LoaderError> {
    if slice.offset + slice.size > usize::MAX {
        Err(LoaderError::IntegerOverflow)
    } else if slice.offset + slice.size > s.len() {
        Err(LoaderError::SliceOutOfBounds)
    } else {
        Ok(s.subrange(slice.offset as int, slice.offset + slice.size))
    }
}

fn selected_image<'a>(bytes: &'a [u8], slice: MachSlice) -> (r: Result<&'a [u8], LoaderError>)
    ensures
        match r {
            Ok(image) => spec_selected_image(bytes@, slice) == Ok::<Seq<u8>, LoaderError>(image@),
            Err(e) => spec_selected_image(bytes@, slice) == Err::<Seq<u8>, LoaderError>(e),
        },
{
    if slice.offset > usize::MAX - slice.size {
        return Err(LoaderError::IntegerOverflow);
    }
    let end = slice.offset + slice.size;
    if end > bytes.len() {
        return Err(LoaderError::SliceOutOfBounds);
    }
    Ok(slice_subrange(bytes, slice.offset, end))
}

/// The load command at `cursor` (command `index`): its identifier, size and
/// end, or why it is refused.
pub open spec fn spec_command_bounds(image: Seq<u8>, cursor: int, commands_end: int, index: u32) -> Result<
    (u32, u32, int),
    LoaderError,
> {
    if cursor + 8 > usize::MAX {
        Err(LoaderError::IntegerOverflow)
    } else if cursor + 8 > commands_end {
        Err(LoaderError::LoadCommandOutOfBounds { index })
    } else {
        let size = u32_le(image, cursor + 4);
        if size < 8 {
            Err(LoaderError::LoadCommandTooSmall { index, size })
        } else if cursor + size > usize::MAX {
            Err(LoaderError::IntegerOverflow)
        } else if cursor + size > commands_end {
            Err(LoaderError::LoadCommandOutOfBounds { index })
        } else {
            Ok((u32_le(image, cursor), size, cursor + size))
        }
    }
}

fn command_bounds(image: &[u8], cursor: usize, commands_end: usize, index: u32) -> (r: Result<
    (u32, u32, usize),
    LoaderError,
>)
    requires
        commands_end <= image@.len(),
    ensures
        match r {
            Ok((c, s, e)) => spec_command_bounds(image@, cursor as int, commands_end as int, index)
                == Ok::<(u32, u32, int), LoaderError>((c, s, e as int)),
            Err(err) => spec_command_bounds(image@, cursor as int, commands_end as int, index) == Err::<
                (u32, u32, int),
                LoaderError,
            >(err),
        },
{
    if cursor > usize::MAX - LOAD_COMMAND_HEADER_SIZE {
        return Err(LoaderError::IntegerOverflow);
    }
    if cursor + LOAD_COMMAND_HEADER_SIZE > commands_end {
        return Err(LoaderError::LoadCommandOutOfBounds { index });
    }
    let command = read_u32_le(image, cursor);
    let size = read_u32_le(image, cursor + 4);
    if size < 8u32 {
        return Err(LoaderError::LoadCommandTooSmall { index, size });
    }
    if cursor > usize::MAX - size as usize {
        return Err(LoaderError::IntegerOverflow);
    }
    let end = cursor + size as usize;
    if end > commands_end {
        return Err(LoaderError::LoadCommandOutOfBounds { index });
    }
    Ok((command, size, end))
}

/// What `validate_segment` answers for a segment of an image of `image_len`
/// bytes.
pub open spec fn spec_validate_segment(f: SegmentFields, image_len: int) -> Result<(), LoaderError> {
    let index = f.command_index;
    if f.file_offset + f.file_size > u64::MAX {
        Err(LoaderError::IntegerOverflow)
    } else if f.file_offset + f.file_size > image_len {
        Err(LoaderError::SegmentFileOutOfBounds { index })
    } else if f.file_size > f.vm_size {
        Err(LoaderError::SegmentFileLargerThanVm { index })
    } else if f.vm_address + f.vm_size > u64::MAX {
        Err(LoaderError::SegmentVmRangeOverflow { index })
    } else if spec_is_executable(f.initial_protection) && spec_is_writable(f.initial_protection) {
        Err(LoaderError::WritableExecutableSegment { index })
    } else if f.initial_protection & !f.max_protection != 0 {
        Err(LoaderError::SegmentProtectionEscalation { index })
    } else {
        Ok(())
    }
}

fn validate_segment(image: &[u8], segment: Segment64, f: Ghost<SegmentFields>) -> (r: Result<
    (),
    LoaderError,
>)
    requires
        spec_segment_is(segment, f@, image@),
    ensures
        r == spec_validate_segment(f@, image@.len() as int),
{
    let index = segment.command_index;
    let file_end = match segment.file_offset.checked_add(segment.file_size) {
        Some(e) => e,
        None => return Err(LoaderError::IntegerOverflow),
    };
    if file_end > image.len() as u64 {
        return Err(LoaderError::SegmentFileOutOfBounds { index });
    }
    if segment.file_size > segment.vm_size {
        return Err(LoaderError::SegmentFileLargerThanVm { index });
    }
    if segment.vm_address.checked_add(segment.vm_size).is_none() {
        return Err(LoaderError::SegmentVmRangeOverflow { index });
    }
    if segment.is_executable() && segment.is_writable() {
        return Err(LoaderError::WritableExecutableSegment { index });
    }
    if segment.initial_protection & !segment.max_protection != 0 {
        return Err(LoaderError::SegmentProtectionEscalation { index });
    }
    Ok(())
}

/// The fields of the segment command at `cursor`, or why it is refused.
/// The command header is known to lie inside the image.
pub open spec fn spec_parse_segment(image: Seq<u8>, cursor: int, index: u32) -> Result<SegmentFields, LoaderError> {
    let size = u32_le(image, cursor + 4);
    let section_count = u32_le(image, cursor + 64);
    if size < 72 {
        Err(LoaderError::SegmentCommandTooSmall { index, size })
    } else if section_count * 80 > usize::MAX || 72 + section_count * 80 > usize::MAX {
        Err(LoaderError::IntegerOverflow)
    } else if size != 72 + section_count * 80 {
        Err(
            LoaderError::SegmentCommandSizeMismatch {
                index,
                declared: size,
                expected: (72 + section_count * 80) as usize,
            },
        )
    } else {
        let f = SegmentFields {
            command_index: index,
            command_offset: cursor as usize,
            vm_address: u64_le(image, cursor + 24),
            vm_size: u64_le(image, cursor + 32),
            file_offset: u64_le(image, cursor + 40),
            file_size: u64_le(image, cursor + 48),
            max_protection: u32_le(image, cursor + 56),
            initial_protection: u32_le(image, cursor + 60),
            section_count,
            flags: u32_le(image, cursor + 68),
        };
        match spec_validate_segment(f, image.len() as int) {
            Err(e) => Err(e),
            Ok(()) => Ok(f),
        }
    }
}

/// Whether an exec segment result is the spec segment result.
pub open spec fn spec_result_is(x: Result<Segment64, LoaderError>, y: Result<SegmentFields, LoaderError>, image: Seq<u8>) -> bool {
    match (x, y) {
        (Ok(seg), Ok(f)) => spec_segment_is(seg, f, image),
        (Err(a), Err(b)) => a == b,
        _ => false,
    }
}

fn parse_segment(image: &[u8], cursor: usize, index: u32) -> (r: Result<Segment64, LoaderError>)
    requires
        cursor + 8 <= image.len(),
        cursor + u32_le(image@, cursor + 4) <= image.len(),
    ensures
        spec_result_is(r, spec_parse_segment(image@, cursor as int, index), image@),
{
    let size = read_u32_le(image, cursor + 4);
    if size < 72u32 {
        return Err(LoaderError::SegmentCommandTooSmall { index, size });
    }
    let section_count = read_u32_le(image, cursor + 64);
    let section_bytes = match (section_count as usize).checked_mul(SECTION_64_SIZE) {
        Some(n) => n,
        None => return Err(LoaderError::IntegerOverflow),
    };
    if section_bytes > usize::MAX - SEGMENT_COMMAND_64_SIZE {
        return Err(LoaderError::IntegerOverflow);
    }
    let expected = SEGMENT_COMMAND_64_SIZE + section_bytes;
    if size as usize != expected {
        return Err(LoaderError::SegmentCommandSizeMismatch { index, declared: size, expected });
    }
    let mut name = [0u8; 16];
    let mut k: usize = 0;
    while k < 16
        invariant
            k <= 16,
            cursor + 72 <= image.len(),
            name@.len() == 16,
            forall|j: int| 0 <= j < k ==> name@[j] == image@[cursor + 8 + j],
        decreases 16 - k,
    {
        name[k] = image[cursor + 8 + k];
        k = k + 1;
    }
    assert(name@ =~= image@.subrange(cursor + 8, cursor + 24));
    let segment = Segment64 {
        command_index: index,
        name,
        vm_address: read_u64_le(image, cursor + 24),
        vm_size: read_u64_le(image, cursor + 32),
        file_offset: read_u64_le(image, cursor + 40),
        file_size: read_u64_le(image, cursor + 48),
        max_protection: read_u32_le(image, cursor + 56),
        initial_protection: read_u32_le(image, cursor + 60),
        section_count,
        flags: read_u32_le(image, cursor + 68),
    };
    let ghost f = SegmentFields {
        command_index: index,
        command_offset: cursor,
        vm_address: segment.vm_address,
        vm_size: segment.vm_size,
        file_offset: segment.file_offset,
        file_size: segment.file_size,
        max_protection: segment.max_protection,
        initial_protection: segment.initial_protection,
        section_count,
        flags: segment.flags,
    };
    match validate_segment(image, segment, Ghost(f)) {
        Ok(()) => Ok(segment),
        Err(e) => Err(e),
    }
}

/// The segments (or refusals) a walk over the load commands from `cursor`
/// (command `index` of `count`) yields, in order. A command that cannot be
/// bounded ends the walk; a segment that fails its own checks does not.
pub open spec fn spec_segment_items(
    image: Seq<u8>,
    cursor: int,
    commands_end: int,
    index: u32,
    count: u32,
) -> Seq<Result<SegmentFields, LoaderError>>
    decreases count - index,
{
    if index >= count {
        Seq::empty()
    } else {
        match spec_command_bounds(image, cursor, commands_end, index) {
            Err(e) => seq![Err(e)],
            Ok((command, _size, end)) => if command == LC_SEGMENT_64 {
                seq![spec_parse_segment(image, cursor, index)] + spec_segment_items(
                    image,
                    end,
                    commands_end,
                    (index + 1) as u32,
                    count,
                )
            } else {
                spec_segment_items(image, end, commands_end, (index + 1) as u32, count)
            },
        }
    }
}

/// Iterates the segment commands of an image in command order.
#[derive(Clone, Copy, Debug)]
pub struct SegmentIter<'a> {
    image: &'a [u8],
    cursor: usize,
    commands_end: usize,
    next_index: u32,
    command_count: u32,
    failed: bool,
}

impl<'a> SegmentIter<'a> {
    #[verifier::type_invariant]
    spec fn wf(&self) -> bool {
        self.commands_end <= self.image@.len()
    }

    pub closed spec fn spec_image(&self) -> Seq<u8> {
        self.image@
    }

    /// What the walk still has to yield.
    pub closed spec fn spec_remaining(&self) -> Seq<Result<SegmentFields, LoaderError>> {
        if self.failed {
            Seq::empty()
        } else {
            spec_segment_items(
                self.image@,
                self.cursor as int,
                self.commands_end as int,
                self.next_index,
                self.command_count,
            )
        }
    }

    /// Returns the next segment, or `None` once the commands run out.
    pub fn next(&mut self) -> (r: Option<Result<Segment64, LoaderError>>)
        ensures
            final(self).spec_image() == old(self).spec_image(),
            old(self).spec_remaining().len() == 0 ==> r is None && final(self).spec_remaining().len()
                == 0,
            old(self).spec_remaining().len() > 0 ==> (r matches Some(x) && spec_result_is(
                x,
                old(self).spec_remaining()[0],
                old(self).spec_image(),
            ) && final(self).spec_remaining() == old(self).spec_remaining().drop_first()),
    {
        proof {
            use_type_invariant(&*self);
        }
        if self.failed {
            return None;
        }
        while self.next_index < self.command_count
            invariant
                !self.failed,
                self.commands_end <= self.image@.len(),
                self.image == old(self).image,
                self.spec_remaining() == old(self).spec_remaining(),
            decreases self.command_count - self.next_index,
        {
            let index = self.next_index;
            let bounds = command_bounds(self.image, self.cursor, self.commands_end, index);
            let (command, _size, end) = match bounds {
                Ok(v) => v,
                Err(e) => {
                    self.failed = true;
                    assert(old(self).spec_remaining() =~= seq![Err::<SegmentFields, LoaderError>(e)]);
                    return Some(Err(e));
                },
            };
            let cursor = self.cursor;
            self.cursor = end;
            self.next_index = index + 1;
            if command == LC_SEGMENT_64 {
                let r = parse_segment(self.image, cursor, index);
                assert(old(self).spec_remaining().drop_first() =~= self.spec_remaining());
                return Some(r);
            }
        }
        None
    }
}

/// The segments of the selected image, or why its command region cannot be
/// walked.
pub open spec fn spec_segments(s: Seq<u8>, slice: MachSlice) -> Result<Seq<Result<SegmentFields, LoaderError>>, LoaderError> {
    match spec_selected_image(s, slice) {
        Err(e) => Err(e),
        Ok(image) => if 32 + slice.header.command_bytes > usize::MAX {
            Err(LoaderError::IntegerOverflow)
        } else if 32 + slice.header.command_bytes > image.len() {
            Err(LoaderError::SliceOutOfBounds)
        } else {
            Ok(
                spec_segment_items(
                    image,
                    32,
                    32 + slice.header.command_bytes,
                    0,
                    slice.header.command_count,
                ),
            )
        },
    }
}

/// Starts a walk over the segments of the selected image.
pub fn segments<'a>(bytes: &'a [u8], slice: MachSlice) -> (r: Result<SegmentIter<'a>, LoaderError>)
    ensures
        match r {
            Ok(it) => spec_segments(bytes@, slice) == Ok::<_, LoaderError>(it.spec_remaining())
                && spec_selected_image(bytes@, slice) == Ok::<Seq<u8>, LoaderError>(it.spec_image()),
            Err(e) => spec_segments(bytes@, slice) == Err::<Seq<Result<SegmentFields, LoaderError>>, LoaderError>(e),
        },
{
    let image = match selected_image(bytes, slice) {
        Ok(i) => i,
        Err(e) => return Err(e),
    };
    if slice.header.command_bytes as usize > usize::MAX - MACH_HEADER_64_SIZE {
        return Err(LoaderError::IntegerOverflow);
    }
    let commands_end = MACH_HEADER_64_SIZE + slice.header.command_bytes as usize;
    if commands_end > image.len() {
        return Err(LoaderError::SliceOutOfBounds);
    }
    Ok(
        SegmentIter {
            image,
            cursor: MACH_HEADER_64_SIZE,
            commands_end,
            next_index: 0,
            command_count: slice.header.command_count,
            failed: false,
        },
    )
}

/// Whether two ranges share a byte; an empty range overlaps nothing and a
/// range that wraps overlaps everything.
pub open spec fn spec_ranges_overlap(start_a: u64, size_a: u64, start_b: u64, size_b: u64) -> bool {
    if size_a == 0 || size_b == 0 {
        false
    } else if start_a + size_a > u64::MAX || start_b + size_b > u64::MAX {
        true
    } else {
        start_a < start_b + size_b && start_b < start_a + size_a
    }
}

fn ranges_overlap(start_a: u64, size_a: u64, start_b: u64, size_b: u64) -> (r: bool)
    ensures
        r == spec_ranges_overlap(start_a, size_a, start_b, size_b),
{
    if size_a == 0 || size_b == 0 {
        return false;
    }
    let end_a = match start_a.checked_add(size_a) {
        Some(e) => e,
        None => return true,
    };
    let end_b = match start_b.checked_add(size_b) {
        Some(e) => e,
        None => return true,
    };
    start_a < end_b && start_b < end_a
}

/// Compares segment `first` with every later-numbered segment from item `j`
/// on.
pub open spec fn spec_overlap_inner(
    items: Seq<Result<SegmentFields, LoaderError>>,
    first: SegmentFields,
    j: int,
) -> Result<(), LoaderError>
    decreases items.len() - j,
{
    if j < 0 || j >= items.len() {
        Ok(())
    } else {
        match items[j] {
            Err(e) => Err(e),
            Ok(second) => if second.command_index <= first.command_index {
                spec_overlap_inner(items, first, j + 1)
            } else if spec_ranges_overlap(
                first.file_offset,
                first.file_size,
                second.file_offset,
                second.file_size,
            ) {
                Err(
                    LoaderError::SegmentFileOverlap {
                        first: first.command_index,
                        second: second.command_index,
                    },
                )
            } else if spec_ranges_overlap(
                first.vm_address,
                first.vm_size,
                second.vm_address,
                second.vm_size,
            ) {
                Err(
                    LoaderError::SegmentVmOverlap {
                        first: first.command_index,
                        second: second.command_index,
                    },
                )
            } else {
                spec_overlap_inner(items, first, j + 1)
            },
        }
    }
}

/// Checks every pair of segments from item `i` on.
pub open spec fn spec_overlap_outer(items: Seq<Result<SegmentFields, LoaderError>>, i: int) -> Result<
    (),
    LoaderError,
>
    decreases items.len() - i,
{
    if i < 0 || i >= items.len() {
        Ok(())
    } else {
        match items[i] {
            Err(e) => Err(e),
            Ok(first) => match spec_overlap_inner(items, first, 0) {
                Err(e) => Err(e),
                Ok(()) => spec_overlap_outer(items, i + 1),
            },
        }
    }
}

/// What `validate_segment_overlaps` answers.
pub open spec fn spec_validate_segment_overlaps(s: Seq<u8>, slice: MachSlice) -> Result<(), LoaderError> {
    match spec_segments(s, slice) {
        Err(e) => Err(e),
        Ok(items) => spec_overlap_outer(items, 0),
    }
}

/// Compares one segment with every later-numbered segment of the image.
fn check_against_later(
    bytes: &[u8],
    slice: MachSlice,
    first: Segment64,
    first_fields: Ghost<SegmentFields>,
    items: Ghost<Seq<Result<SegmentFields, LoaderError>>>,
) -> (r: Result<(), LoaderError>)
    requires
        spec_segments(bytes@, slice) == Ok::<_, LoaderError>(items@),
        spec_selected_image(bytes@, slice) matches Ok(image) && spec_segment_is(first, first_fields@, image),
    ensures
        r == spec_overlap_inner(items@, first_fields@, 0),
{
    let mut inner = match segments(bytes, slice) {
        Ok(it) => it,
        Err(e) => return Err(e),
    };
    let ghost mut j: int = 0;
    loop
        invariant
            0 <= j <= items@.len(),
            inner.spec_remaining() == items@.subrange(j, items@.len() as int),
            spec_selected_image(bytes@, slice) == Ok::<Seq<u8>, LoaderError>(inner.spec_image()),
            spec_segment_is(first, first_fields@, inner.spec_image()),
            spec_overlap_inner(items@, first_fields@, 0) == spec_overlap_inner(items@, first_fields@, j),
        decreases inner.spec_remaining().len(),
    {
        let second_item = inner.next();
        match second_item {
            None => {
                return Ok(());
            },
            Some(Err(e)) => {
                return Err(e);
            },
            Some(Ok(second)) => {
                proof {
                    j = j + 1;
                }
                if second.command_index > first.command_index {
                    if ranges_overlap(
                        first.file_offset,
                        first.file_size,
                        second.file_offset,
                        second.file_size,
                    ) {
                        return Err(
                            LoaderError::SegmentFileOverlap {
                                first: first.command_index,
                                second: second.command_index,
                            },
                        );
                    }
                    if ranges_overlap(first.vm_address, first.vm_size, second.vm_address, second.vm_size) {
                        return Err(
                            LoaderError::SegmentVmOverlap {
                                first: first.command_index,
                                second: second.command_index,
                            },
                        );
                    }
                }
            },
        }
    }
}

fn validate_segment_overlaps(bytes: &[u8], slice: MachSlice) -> (r: Result<(), LoaderError>)
    ensures
        r == spec_validate_segment_overlaps(bytes@, slice),
{
    let mut outer = match segments(bytes, slice) {
        Ok(it) => it,
        Err(e) => return Err(e),
    };
    let ghost items = outer.spec_remaining();
    let ghost mut i: int = 0;
    loop
        invariant
            0 <= i <= items.len(),
            outer.spec_remaining() == items.subrange(i, items.len() as int),
            spec_selected_image(bytes@, slice) == Ok::<Seq<u8>, LoaderError>(outer.spec_image()),
            spec_segments(bytes@, slice) == Ok::<_, LoaderError>(items),
            spec_overlap_outer(items, 0) == spec_overlap_outer(items, i),
        decreases outer.spec_remaining().len(),
    {
        let item = outer.next();
        match item {
            None => {
                return Ok(());
            },
            Some(Err(e)) => {
                return Err(e);
            },
            Some(Ok(first)) => {
                let ghost first_fields = items[i]->Ok_0;
                match check_against_later(bytes, slice, first, Ghost(first_fields), Ghost(items)) {
                    Ok(()) => {},
                    Err(e) => return Err(e),
                }
                proof {
                    i = i + 1;
                }
            },
        }
    }
}

/// The walk over the load commands that checks every segment, counts them
/// and finds the single `LC_MAIN` (its entry offset and stack size).
pub open spec fn spec_main_walk(
    image: Seq<u8>,
    cursor: int,
    commands_end: int,
    index: u32,
    count: u32,
    main: Option<(u64, u64)>,
    segment_count: u32,
) -> Result<(Option<(u64, u64)>, u32), LoaderError>
    decreases count - index,
{
    if index >= count {
        Ok((main, segment_count))
    } else {
        match spec_command_bounds(image, cursor, commands_end, index) {
            Err(e) => Err(e),
            Ok((command, size, end)) => if command == LC_SEGMENT_64 {
                match spec_parse_segment(image, cursor, index) {
                    Err(e) => Err(e),
                    Ok(_) => if segment_count + 1 > u32::MAX {
                        Err(LoaderError::IntegerOverflow)
                    } else {
                        spec_main_walk(
                            image,
                            end,
                            commands_end,
                            (index + 1) as u32,
                            count,
                            main,
                            (segment_count + 1) as u32,
                        )
                    },
                }
            } else if command == LC_MAIN {
                if main is Some {
                    Err(LoaderError::DuplicateMainCommand)
                } else if size < 24 {
                    Err(LoaderError::MainCommandTooSmall { index, size })
                } else {
                    spec_main_walk(
                        image,
                        end,
                        commands_end,
                        (index + 1) as u32,
                        count,
                        Some((u64_le(image, cursor + 8), u64_le(image, cursor + 16))),
                        segment_count,
                    )
                }
            } else {
                spec_main_walk(image, end, commands_end, (index + 1) as u32, count, main, segment_count)
            },
        }
    }
}

fn main_walk(image: &[u8], commands_end: usize, count: u32) -> (r: Result<(Option<(u64, u64)>, u32), LoaderError>)
    requires
        commands_end <= image@.len(),
    ensures
        match r {
            Ok(v) => spec_main_walk(image@, 32, commands_end as int, 0, count, None, 0) == Ok::<_, LoaderError>(v),
            Err(e) => spec_main_walk(image@, 32, commands_end as int, 0, count, None, 0) == Err::<
                (Option<(u64, u64)>, u32),
                LoaderError,
            >(e),
        },
{
    let mut cursor: usize = MACH_HEADER_64_SIZE;
    let mut main: Option<(u64, u64)> = None;
    let mut segment_count: u32 = 0;
    let mut index: u32 = 0;
    while index < count
        invariant
            commands_end <= image@.len(),
            index <= count,
            spec_main_walk(image@, 32, commands_end as int, 0, count, None, 0) == spec_main_walk(
                image@,
                cursor as int,
                commands_end as int,
                index,
                count,
                main,
                segment_count,
            ),
        decreases count - index,
    {
        let (command, size, end) = match command_bounds(image, cursor, commands_end, index) {
            Ok(v) => v,
            Err(e) => return Err(e),
        };
        if command == LC_SEGMENT_64 {
            match parse_segment(image, cursor, index) {
                Ok(_) => {},
                Err(e) => return Err(e),
            }
            if segment_count == u32::MAX {
                return Err(LoaderError::IntegerOverflow);
            }
            segment_count = segment_count + 1;
        } else if command == LC_MAIN {
            if main.is_some() {
                return Err(LoaderError::DuplicateMainCommand);
            }
            if size < 24u32 {
                return Err(LoaderError::MainCommandTooSmall { index, size });
            }
            main = Some((read_u64_le(image, cursor + 8), read_u64_le(image, cursor + 16)));
        }
        cursor = end;
        index = index + 1;
    }
    Ok((main, segment_count))
}

/// Looks for the executable segment holding the entry offset from item `i`
/// on, refusing a second one.
pub open spec fn spec_entry_scan(
    items: Seq<Result<SegmentFields, LoaderError>>,
    i: int,
    entry: u64,
    found: Option<u64>,
) -> Result<Option<u64>, LoaderError>
    decreases items.len() - i,
{
    if i < 0 || i >= items.len() {
        Ok(found)
    } else {
        match items[i] {
            Err(e) => Err(e),
            Ok(seg) => if !spec_is_executable(seg.initial_protection) || !spec_contains_file_offset(
                seg.file_offset,
                seg.file_size,
                entry,
            ) {
                spec_entry_scan(items, i + 1, entry, found)
            } else {
                match spec_entry_vm_address(seg.vm_address, seg.file_offset, seg.file_size, entry) {
                    None => Err(LoaderError::EntryPointOutOfBounds),
                    Some(address) => if found is Some {
                        Err(LoaderError::AmbiguousEntryPoint)
                    } else {
                        spec_entry_scan(items, i + 1, entry, Some(address))
                    },
                }
            },
        }
    }
}

fn entry_scan(bytes: &[u8], slice: MachSlice, entry: u64, items: Ghost<Seq<Result<SegmentFields, LoaderError>>>) -> (r:
    Result<Option<u64>, LoaderError>)
    requires
        spec_segments(bytes@, slice) == Ok::<_, LoaderError>(items@),
    ensures
        r == spec_entry_scan(items@, 0, entry, None),
{
    let mut it = match segments(bytes, slice) {
        Ok(it) => it,
        Err(e) => return Err(e),
    };
    let mut found: Option<u64> = None;
    let ghost mut i: int = 0;
    loop
        invariant
            0 <= i <= items@.len(),
            it.spec_remaining() == items@.subrange(i, items@.len() as int),
            spec_entry_scan(items@, 0, entry, None) == spec_entry_scan(items@, i, entry, found),
        decreases it.spec_remaining().len(),
    {
        let item = it.next();
        match item {
            None => {
                return Ok(found);
            },
            Some(Err(e)) => {
                return Err(e);
            },
            Some(Ok(segment)) => {
                proof {
                    i = i + 1;
                }
                if segment.is_executable() && segment.contains_file_offset(entry) {
                    let address = match segment.entry_vm_address(entry) {
                        Some(a) => a,
                        None => return Err(LoaderError::EntryPointOutOfBounds),
                    };
                    if found.is_some() {
                        return Err(LoaderError::AmbiguousEntryPoint);
                    }
                    found = Some(address);
                }
            },
        }
    }
}

/// What `plan_executable` answers for a file and a target CPU.
pub open spec fn spec_plan_executable(s: Seq<u8>, target: CpuType) -> Result<ExecutablePlan, LoaderError> {
    match spec_select_mach_o_64(s, target) {
        Err(e) => Err(LoaderError::Mach(e)),
        Ok(slice) => match spec_validate_main_executable(slice.header) {
            Err(e) => Err(LoaderError::Mach(e)),
            Ok(()) => match spec_selected_image(s, slice) {
                Err(e) => Err(e),
                Ok(image) => match spec_validate_segment_overlaps(s, slice) {
                    Err(e) => Err(e),
                    Ok(()) => {
                        let commands_end = 32 + slice.header.command_bytes;
                        if commands_end > usize::MAX {
                            Err(LoaderError::IntegerOverflow)
                        } else if commands_end > image.len() {
                            Err(LoaderError::SliceOutOfBounds)
                        } else {
                            match spec_main_walk(
                                image,
                                32,
                                commands_end,
                                0,
                                slice.header.command_count,
                                None,
                                0,
                            ) {
                                Err(e) => Err(e),
                                Ok((None, _)) => Err(LoaderError::MissingMainCommand),
                                Ok((Some((entry, stack_size)), segment_count)) => if entry >= image.len() {
                                    Err(LoaderError::EntryPointOutOfBounds)
                                } else {
                                    match spec_segments(s, slice) {
                                        Err(e) => Err(e),
                                        Ok(items) => match spec_entry_scan(items, 0, entry, None) {
                                            Err(e) => Err(e),
                                            Ok(None) => Err(LoaderError::EntryPointNotExecutable),
                                            Ok(Some(entry_vm_address)) => Ok(
                                                ExecutablePlan {
                                                    slice,
                                                    entry_file_offset: entry,
                                                    entry_vm_address,
                                                    stack_size,
                                                    segment_count,
                                                    position_independent: slice.header.flags & MH_PIE
                                                        != 0,
                                                },
                                            ),
                                        },
                                    }
                                },
                            }
                        }
                    },
                },
            },
        },
    }
}

/// Plans loading the main executable for `target`: selects and checks the
/// image, checks every segment and their overlap, and locates the entry
/// point in exactly one executable segment.
pub fn plan_executable(bytes: &[u8], target: CpuType) -> (r: Result<ExecutablePlan, LoaderError>)
    ensures
        r == spec_plan_executable(bytes@, target),
{
    let slice = match select_mach_o_64(bytes, target) {
        Ok(s) => s,
        Err(e) => return Err(LoaderError::from_parse(e)),
    };
    match validate_main_executable(slice.header) {
        Ok(()) => {},
        Err(e) => return Err(LoaderError::from_parse(e)),
    }
    let image = match selected_image(bytes, slice) {
        Ok(i) => i,
        Err(e) => return Err(e),
    };
    match validate_segment_overlaps(bytes, slice) {
        Ok(()) => {},
        Err(e) => return Err(e),
    }
    if slice.header.command_bytes as usize > usize::MAX - MACH_HEADER_64_SIZE {
        return Err(LoaderError::IntegerOverflow);
    }
    let commands_end = MACH_HEADER_64_SIZE + slice.header.command_bytes as usize;
    if commands_end > image.len() {
        return Err(LoaderError::SliceOutOfBounds);
    }
    let (main, segment_count) = match main_walk(image, commands_end, slice.header.command_count) {
        Ok(v) => v,
        Err(e) => return Err(e),
    };
    let (entry_file_offset, stack_size) = match main {
        Some(m) => m,
        None => return Err(LoaderError::MissingMainCommand),
    };
    if entry_file_offset >= image.len() as u64 {
        return Err(LoaderError::EntryPointOutOfBounds);
    }
    let ghost items = spec_segments(bytes@, slice)->Ok_0;
    let entry_vm_address = match entry_scan(bytes, slice, entry_file_offset, Ghost(items)) {
        Ok(Some(a)) => a,
        Ok(None) => return Err(LoaderError::EntryPointNotExecutable),
        Err(e) => return Err(e),
    };
    Ok(
        ExecutablePlan {
            slice,
            entry_file_offset,
            entry_vm_address,
            stack_size,
            segment_count,
            position_independent: slice.header.flags & MH_PIE != 0,
        },
    )
}

/// Whether item `k` is an executable segment that holds `entry`.
pub open spec fn spec_entry_hit(items: Seq<Result<SegmentFields, LoaderError>>, k: int, entry: u64) -> bool {
    &&& items[k] is Ok
    &&& spec_is_executable(items[k]->Ok_0.initial_protection)
    &&& spec_contains_file_offset(items[k]->Ok_0.file_offset, items[k]->Ok_0.file_size, entry)
}

proof fn lemma_inner_ok(items: Seq<Result<SegmentFields, LoaderError>>, first: SegmentFields, j: int)
    requires
        0 <= j,
        spec_overlap_inner(items, first, j) is Ok,
    ensures
        forall|m: int|
            #![trigger items[m]]
            j <= m < items.len() ==> items[m] is Ok && (items[m]->Ok_0.command_index > first.command_index
                ==> !spec_ranges_overlap(
                first.file_offset,
                first.file_size,
                items[m]->Ok_0.file_offset,
                items[m]->Ok_0.file_size,
            ) && !spec_ranges_overlap(
                first.vm_address,
                first.vm_size,
                items[m]->Ok_0.vm_address,
                items[m]->Ok_0.vm_size,
            )),
    decreases items.len() - j,
{
    if j < items.len() {
        lemma_inner_ok(items, first, j + 1);
    }
}

proof fn lemma_outer_ok(items: Seq<Result<SegmentFields, LoaderError>>, i: int)
    requires
        0 <= i,
        spec_overlap_outer(items, i) is Ok,
    ensures
        forall|k: int|
            #![trigger items[k]]
            i <= k < items.len() ==> items[k] is Ok && spec_overlap_inner(items, items[k]->Ok_0, 0) is Ok,
    decreases items.len() - i,
{
    if i < items.len() {
        lemma_outer_ok(items, i + 1);
    }
}

proof fn lemma_items_validated(image: Seq<u8>, cursor: int, commands_end: int, index: u32, count: u32)
    ensures
        forall|k: int|
            #![trigger spec_segment_items(image, cursor, commands_end, index, count)[k]]
            0 <= k < spec_segment_items(image, cursor, commands_end, index, count).len()
                && spec_segment_items(image, cursor, commands_end, index, count)[k] is Ok
                ==> spec_validate_segment(
                spec_segment_items(image, cursor, commands_end, index, count)[k]->Ok_0,
                image.len() as int,
            ) is Ok,
    decreases count - index,
{
    if index < count {
        match spec_command_bounds(image, cursor, commands_end, index) {
            Err(_) => {},
            Ok((command, _size, end)) => {
                lemma_items_validated(image, end, commands_end, (index + 1) as u32, count);
                let rest = spec_segment_items(image, end, commands_end, (index + 1) as u32, count);
                let all = spec_segment_items(image, cursor, commands_end, index, count);
                if command == LC_SEGMENT_64 {
                    assert forall|k: int|
                        #![trigger all[k]]
                        0 <= k < all.len() && all[k] is Ok implies spec_validate_segment(
                            all[k]->Ok_0,
                            image.len() as int,
                        ) is Ok by {
                        if k > 0 {
                            assert(all[k] == rest[k - 1]);
                        }
                    }
                }
            },
        }
    }
}

proof fn lemma_entry_scan(items: Seq<Result<SegmentFields, LoaderError>>, i: int, entry: u64, found: Option<u64>)
    requires
        0 <= i,
        spec_entry_scan(items, i, entry, found) is Ok,
    ensures
        ({
            let r = spec_entry_scan(items, i, entry, found)->Ok_0;
            &&& found is Some ==> r == found && forall|k: int| i <= k < items.len() ==> !spec_entry_hit(items, k, entry)
            &&& forall|k: int|
                i <= k < items.len() && spec_entry_hit(items, k, entry) ==> r == spec_entry_vm_address(
                    items[k]->Ok_0.vm_address,
                    items[k]->Ok_0.file_offset,
                    items[k]->Ok_0.file_size,
                    entry,
                ) && forall|k2: int| i <= k2 < items.len() && spec_entry_hit(items, k2, entry) ==> k2 == k
            &&& (found is None && r is Some) ==> exists|k: int| i <= k < items.len() && spec_entry_hit(items, k, entry)
        }),
    decreases items.len() - i,
{
    if i < items.len() {
        match items[i] {
            Err(_) => {},
            Ok(seg) => {
                if !spec_is_executable(seg.initial_protection) || !spec_contains_file_offset(
                    seg.file_offset,
                    seg.file_size,
                    entry,
                ) {
                    lemma_entry_scan(items, i + 1, entry, found);
                } else {
                    let address = spec_entry_vm_address(seg.vm_address, seg.file_offset, seg.file_size, entry)->0;
                    lemma_entry_scan(items, i + 1, entry, Some(address));
                    assert(spec_entry_hit(items, i, entry));
                }
            },
        }
    }
}

/// A planned executable is safe to map: every segment passed its own checks
/// (in particular none is both writable and executable, none grants more
/// than its maximum protection), no two segments overlap in the file or in
/// memory, and the entry point lies in exactly one executable segment, whose
/// mapping gives the planned entry address.
pub proof fn lemma_plan_is_safe(s: Seq<u8>, target: CpuType)
    requires
        spec_plan_executable(s, target) is Ok,
    ensures
        ({
            let plan = spec_plan_executable(s, target)->Ok_0;
            let image = spec_selected_image(s, plan.slice)->Ok_0;
            let items = spec_segments(s, plan.slice)->Ok_0;
            &&& forall|k: int|
                #![trigger items[k]]
                0 <= k < items.len() ==> items[k] is Ok && spec_validate_segment(
                    items[k]->Ok_0,
                    image.len() as int,
                ) is Ok
            &&& forall|k: int, m: int|
                #![trigger items[k], items[m]]
                0 <= k < items.len() && 0 <= m < items.len() && items[k]->Ok_0.command_index
                    < items[m]->Ok_0.command_index ==> !spec_ranges_overlap(
                    items[k]->Ok_0.file_offset,
                    items[k]->Ok_0.file_size,
                    items[m]->Ok_0.file_offset,
                    items[m]->Ok_0.file_size,
                ) && !spec_ranges_overlap(
                    items[k]->Ok_0.vm_address,
                    items[k]->Ok_0.vm_size,
                    items[m]->Ok_0.vm_address,
                    items[m]->Ok_0.vm_size,
                )
            &&& exists|k: int|
                0 <= k < items.len() && spec_entry_hit(items, k, plan.entry_file_offset)
                    && spec_entry_vm_address(
                    items[k]->Ok_0.vm_address,
                    items[k]->Ok_0.file_offset,
                    items[k]->Ok_0.file_size,
                    plan.entry_file_offset,
                ) == Some(plan.entry_vm_address)
            &&& forall|k: int, m: int|
                0 <= k < items.len() && 0 <= m < items.len() && spec_entry_hit(
                    items,
                    k,
                    plan.entry_file_offset,
                ) && spec_entry_hit(items, m, plan.entry_file_offset) ==> k == m
        }),
{
    let plan = spec_plan_executable(s, target)->Ok_0;
    let slice = plan.slice;
    let image = spec_selected_image(s, slice)->Ok_0;
    let items = spec_segments(s, slice)->Ok_0;
    lemma_outer_ok(items, 0);
    lemma_items_validated(image, 32, 32 + slice.header.command_bytes, 0, slice.header.command_count);
    assert forall|k: int, m: int|
        #![trigger items[k], items[m]]
        0 <= k < items.len() && 0 <= m < items.len() && items[k]->Ok_0.command_index
            < items[m]->Ok_0.command_index implies !spec_ranges_overlap(
            items[k]->Ok_0.file_offset,
            items[k]->Ok_0.file_size,
            items[m]->Ok_0.file_offset,
            items[m]->Ok_0.file_size,
        ) && !spec_ranges_overlap(
            items[k]->Ok_0.vm_address,
            items[k]->Ok_0.vm_size,
            items[m]->Ok_0.vm_address,
            items[m]->Ok_0.vm_size,
        ) by {
        lemma_inner_ok(items, items[k]->Ok_0, 0);
    }
    lemma_entry_scan(items, 0, plan.entry_file_offset, None);
}

} // verus!

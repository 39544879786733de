//! The dynamic-linking load commands of a Mach-O image: the libraries it
//! loads, its run paths and its dynamic linker.

use vstd::prelude::*;
use vstd::slice::slice_subrange;
use crate::le_bytes::{u32_le, read_u32_le, lemma_u32_le_subrange};
use crate::macho::MachSlice;

verus! {

const MACH_HEADER_64_SIZE: usize = 32;
const LOAD_COMMAND_HEADER_SIZE: usize = 8;
pub const DYLINKER_COMMAND_SIZE: usize = 12;
pub const RPATH_COMMAND_SIZE: usize = 12;
pub const DYLIB_COMMAND_SIZE: usize = 24;

pub const LC_LOAD_DYLIB: u32 = 0x0c;
pub const LC_LOAD_DYLINKER: u32 = 0x0e;
pub const LC_LOAD_WEAK_DYLIB: u32 = 0x8000_0018;
pub const LC_RPATH: u32 = 0x8000_001c;
pub const LC_REEXPORT_DYLIB: u32 = 0x8000_001f;
pub const LC_LAZY_LOAD_DYLIB: u32 = 0x20;
pub const LC_LOAD_UPWARD_DYLIB: u32 = 0x8000_0023;

#[allow(inconsistent_fields)]
#[derive(Clone, Copy, Debug, PartialEq, Eq, Structural)]
pub enum DyldError {
    IntegerOverflow,
    SliceOutOfBounds,
    LoadCommandOutOfBounds { index: u32 },
    LoadCommandTooSmall { index: u32, size: u32 },
    CommandTooSmall { index: u32, command: u32, size: usize, minimum: usize },
    StringOffsetOutOfBounds { index: u32, offset: u32, minimum: usize, size: usize },
    UnterminatedPath { index: u32 },
    EmptyPath { index: u32 },
    DuplicateDynamicLinker,
}

#[derive(Clone, Copy, Debug, PartialEq, Eq, Structural)]
pub enum DylibKind {
    Required,
    Weak,
    Reexport,
    Lazy,
    Upward,
}

/// One library the image loads.
#[derive(Clone, Copy, Debug, PartialEq, Eq)]
pub struct Dylib<'a> {
    pub command_index: u32,
    pub kind: DylibKind,
    pub path: &'a [u8],
    pub timestamp: u32,
    pub current_version: u32,
    pub compatibility_version: u32,
}

/// One run-path search entry.
#[derive(Clone, Copy, Debug, PartialEq, Eq)]
pub struct RunPath<'a> {
    pub command_index: u32,
    pub path: &'a [u8],
}

/// The bytes of the selected image inside the whole file, or why they cannot
/// be taken.
pub open spec fn spec_selected_image(s: Seq<u8>, slice: MachSlice) -> Result<Seq<u8>, DyldError> {
    if slice.offset + slice.size > usize::MAX {
        Err(DyldError::IntegerOverflow)
    } else if slice.offset + slice.size > s.len() {
        Err(DyldError::SliceOutOfBounds)
    } else {
        Ok(s.subrange(slice.offset as int, slice.offset + slice.size))
    }
}

/// The load commands of the selected image: the image, where its command
/// region ends, and how many commands it holds; or why they cannot be
/// walked.
pub open spec fn spec_commands(s: Seq<u8>, slice: MachSlice) -> Result<(Seq<u8>, int), DyldError> {
    match spec_selected_image(s, slice) {
        Err(e) => Err(e),
        Ok(image) => if 32 + slice.header.command_bytes > usize::MAX {
            Err(DyldError::IntegerOverflow)
        } else if 32 + slice.header.command_bytes > image.len() {
            Err(DyldError::SliceOutOfBounds)
        } else {
            Ok((image, 32 + slice.header.command_bytes))
        },
    }
}

/// The load command at `cursor` (command `index`): its identifier and where
/// it ends, or why it is refused.
pub open spec fn spec_command_step(image: Seq<u8>, cursor: int, commands_end: int, index: u32) -> Result<
    (u32, int),
    DyldError,
> {
    if cursor + 8 > usize::MAX {
        Err(DyldError::IntegerOverflow)
    } else if cursor + 8 > commands_end {
        Err(DyldError::LoadCommandOutOfBounds { index })
    } else {
        let size = u32_le(image, cursor + 4);
        if size < 8 {
            Err(DyldError::LoadCommandTooSmall { index, size })
        } else if cursor + size > usize::MAX {
            Err(DyldError::IntegerOverflow)
        } else if cursor + size > commands_end {
            Err(DyldError::LoadCommandOutOfBounds { index })
        } else {
            Ok((u32_le(image, cursor), cursor + size))
        }
    }
}

#[derive(Clone, Copy, Debug)]
struct LoadCommand<'a> {
    index: u32,
    command: u32,
    bytes: &'a [u8],
}

/// Walks the load commands one at a time, stopping after the first error.
#[derive(Clone, Copy, Debug)]
struct CommandIter<'a> {
    image: &'a [u8],
    cursor: usize,
    commands_end: usize,
    next_index: u32,
    command_count: u32,
    failed: bool,
}

impl<'a> CommandIter<'a> {
    #[verifier::type_invariant]
    spec fn wf(&self) -> bool {
        &&& self.commands_end <= self.image@.len()
        &&& self.cursor <= self.commands_end
    }

    spec fn exhausted(&self) -> bool {
        self.failed || self.next_index >= self.command_count
    }

    fn next(&mut self) -> (r: Option<Result<LoadCommand<'a>, DyldError>>)
        ensures
            final(self).image == old(self).image,
            final(self).commands_end == old(self).commands_end,
            final(self).command_count == old(self).command_count,
            old(self).exhausted() ==> r is None && *final(self) == *old(self),
            !old(self).exhausted() ==> match spec_command_step(
                old(self).image@,
                old(self).cursor as int,
                old(self).commands_end as int,
                old(self).next_index,
            ) {
                Ok((command, end)) => {
                    &&& r matches Some(Ok(c)) && c.index == old(self).next_index && c.command == command
                        && c.bytes@ == old(self).image@.subrange(old(self).cursor as int, end)
                    &&& final(self).cursor == end
                    &&& final(self).next_index == old(self).next_index + 1
                    &&& !final(self).failed
                },
                Err(e) => r == Some(Err::<LoadCommand<'a>, DyldError>(e)) && final(self).failed
                    && final(self).next_index == old(self).next_index,
            },
    {
        proof {
            use_type_invariant(&*self);
        }
        if self.failed || self.next_index >= self.command_count {
            return None;
        }
        let index = self.next_index;
        if self.cursor > usize::MAX - LOAD_COMMAND_HEADER_SIZE {
            self.failed = true;
            return Some(Err(DyldError::IntegerOverflow));
        }
        if self.cursor + LOAD_COMMAND_HEADER_SIZE > self.commands_end {
            self.failed = true;
            return Some(Err(DyldError::LoadCommandOutOfBounds { index }));
        }
        let command = read_u32_le(self.image, self.cursor);
        let size = read_u32_le(self.image, self.cursor + 4);
        if size < 8u32 {
            self.failed = true;
            return Some(Err(DyldError::LoadCommandTooSmall { index, size }));
        }
        if self.cursor > usize::MAX - size as usize {
            self.failed = true;
            return Some(Err(DyldError::IntegerOverflow));
        }
        let end = self.cursor + size as usize;
        if end > self.commands_end {
            self.failed = true;
            return Some(Err(DyldError::LoadCommandOutOfBounds { index }));
        }
        let bytes = slice_subrange(self.image, self.cursor, end);
        self.cursor = end;
        self.next_index = index + 1;
        Some(Ok(LoadCommand { index, command, bytes }))
    }
}

fn commands<'a>(bytes: &'a [u8], slice: MachSlice) -> (r: Result<CommandIter<'a>, DyldError>)
    ensures
        match r {
            Ok(it) => {
                &&& spec_commands(bytes@, slice) == Ok::<(Seq<u8>, int), DyldError>(
                    (it.image@, it.commands_end as int),
                )
                &&& it.cursor == 32
                &&& it.next_index == 0
                &&& it.command_count == slice.header.command_count
                &&& !it.failed
            },
            Err(e) => spec_commands(bytes@, slice) == Err::<(Seq<u8>, int), DyldError>(e),
        },
{
    if slice.offset > usize::MAX - slice.size {
        return Err(DyldError::IntegerOverflow);
    }
    let end = slice.offset + slice.size;
    if end > bytes.len() {
        return Err(DyldError::SliceOutOfBounds);
    }
    let image = slice_subrange(bytes, slice.offset, end);
    if slice.header.command_bytes as usize > usize::MAX - MACH_HEADER_64_SIZE {
        return Err(DyldError::IntegerOverflow);
    }
    let commands_end = MACH_HEADER_64_SIZE + slice.header.command_bytes as usize;
    if commands_end > image.len() {
        return Err(DyldError::SliceOutOfBounds);
    }
    Ok(
        CommandIter {
            image,
            cursor: MACH_HEADER_64_SIZE,
            commands_end,
            next_index: 0,
            command_count: slice.header.command_count,
            failed: false,
        },
    )
}

/// The first zero byte of `s` at or after `i`.
pub open spec fn spec_zero_from(s: Seq<u8>, i: int) -> Option<int>
    decreases s.len() - i,
{
    if i < 0 || i >= s.len() {
        None
    } else if s[i] == 0 {
        Some(i)
    } else {
        spec_zero_from(s, i + 1)
    }
}

proof fn lemma_zero_from_bounds(s: Seq<u8>, i: int)
    ensures
        spec_zero_from(s, i) matches Some(k) ==> i <= k < s.len() && s[k] == 0,
    decreases s.len() - i,
{
    if 0 <= i < s.len() && s[i] != 0 {
        lemma_zero_from_bounds(s, i + 1);
    }
}

/// Where the path string of command `index` lies in the command bytes `c`,
/// or why it is refused.
pub open spec fn spec_path(c: Seq<u8>, index: u32, command: u32, minimum: int) -> Result<(int, int), DyldError> {
    if c.len() < minimum {
        Err(DyldError::CommandTooSmall { index, command, size: c.len() as usize, minimum: minimum as usize })
    } else {
        let offset = u32_le(c, 8);
        if offset < minimum || offset >= c.len() {
            Err(
                DyldError::StringOffsetOutOfBounds {
                    index,
                    offset,
                    minimum: minimum as usize,
                    size: c.len() as usize,
                },
            )
        } else {
            match spec_zero_from(c, offset as int) {
                None => Err(DyldError::UnterminatedPath { index }),
                Some(end) => if end == offset {
                    Err(DyldError::EmptyPath { index })
                } else {
                    Ok((offset as int, end))
                },
            }
        }
    }
}

fn path_from_command<'a>(command: LoadCommand<'a>, minimum_size: usize) -> (r: Result<&'a [u8], DyldError>)
    requires
        minimum_size >= 12,
    ensures
        match r {
            Ok(path) => spec_path(command.bytes@, command.index, command.command, minimum_size as int)
                matches Ok((b, e)) && path@ == command.bytes@.subrange(b, e),
            Err(err) => spec_path(command.bytes@, command.index, command.command, minimum_size as int)
                == Err::<(int, int), DyldError>(err),
        },
{
    let bytes = command.bytes;
    if bytes.len() < minimum_size {
        return Err(
            DyldError::CommandTooSmall {
                index: command.index,
                command: command.command,
                size: bytes.len(),
                minimum: minimum_size,
            },
        );
    }
    let offset = read_u32_le(bytes, 8);
    if (offset as usize) < minimum_size || offset as usize >= bytes.len() {
        return Err(
            DyldError::StringOffsetOutOfBounds {
                index: command.index,
                offset,
                minimum: minimum_size,
                size: bytes.len(),
            },
        );
    }
    let start = offset as usize;
    let mut end = start;
    while end < bytes.len()
        invariant
            start <= end <= bytes@.len(),
            start == offset,
            bytes@ == command.bytes@,
            minimum_size <= bytes@.len(),
            offset == u32_le(bytes@, 8),
            minimum_size <= start < bytes@.len(),
            spec_zero_from(bytes@, start as int) == spec_zero_from(bytes@, end as int),
        decreases bytes@.len() - end,
    {
        if bytes[end] == 0 {
            if end == start {
                return Err(DyldError::EmptyPath { index: command.index });
            }
            return Ok(slice_subrange(bytes, start, end));
        }
        end = end + 1;
    }
    Err(DyldError::UnterminatedPath { index: command.index })
}

/// The library kind a load command identifier names, if any.
pub open spec fn spec_dylib_kind(command: u32) -> Option<DylibKind> {
    if command == LC_LOAD_DYLIB {
        Some(DylibKind::Required)
    } else if command == LC_LOAD_WEAK_DYLIB {
        Some(DylibKind::Weak)
    } else if command == LC_REEXPORT_DYLIB {
        Some(DylibKind::Reexport)
    } else if command == LC_LAZY_LOAD_DYLIB {
        Some(DylibKind::Lazy)
    } else if command == LC_LOAD_UPWARD_DYLIB {
        Some(DylibKind::Upward)
    } else {
        None
    }
}

fn dylib_kind(command: u32) -> (r: Option<DylibKind>)
    ensures
        r == spec_dylib_kind(command),
{
    if command == LC_LOAD_DYLIB {
        Some(DylibKind::Required)
    } else if command == LC_LOAD_WEAK_DYLIB {
        Some(DylibKind::Weak)
    } else if command == LC_REEXPORT_DYLIB {
        Some(DylibKind::Reexport)
    } else if command == LC_LAZY_LOAD_DYLIB {
        Some(DylibKind::Lazy)
    } else if command == LC_LOAD_UPWARD_DYLIB {
        Some(DylibKind::Upward)
    } else {
        None
    }
}

/// Which load commands a walk is looking for.
pub enum CommandFilter {
    Dylibs,
    RunPaths,
}

/// Whether a command identifier is one the filter is looking for.
pub open spec fn spec_wanted(filter: CommandFilter, command: u32) -> bool {
    match filter {
        CommandFilter::Dylibs => spec_dylib_kind(command) is Some,
        CommandFilter::RunPaths => command == LC_RPATH,
    }
}

/// The next wanted command from `cursor` (command `index` of `count`): its
/// index, start and end; `None` when the commands run out first; or the
/// error that stops the walk.
pub open spec fn spec_find(
    image: Seq<u8>,
    cursor: int,
    commands_end: int,
    index: u32,
    count: u32,
    filter: CommandFilter,
) -> Option<Result<(u32, int, int), DyldError>>
    decreases count - index,
{
    if index >= count {
        None
    } else {
        match spec_command_step(image, cursor, commands_end, index) {
            Err(e) => Some(Err(e)),
            Ok((command, end)) => if spec_wanted(filter, command) {
                Some(Ok((index, cursor, end)))
            } else {
                spec_find(image, end, commands_end, (index + 1) as u32, count, filter)
            },
        }
    }
}

/// Whether `dylib` is the library described by the command bytes `c` of
/// command `index`.
pub open spec fn spec_is_dylib(dylib: Dylib, c: Seq<u8>, index: u32) -> bool {
    &&& spec_dylib_kind(u32_le(c, 0)) == Some(dylib.kind)
    &&& dylib.command_index == index
    &&& spec_path(c, index, u32_le(c, 0), 24) matches Ok((b, e)) && dylib.path@ == c.subrange(b, e)
    &&& dylib.timestamp == u32_le(c, 12)
    &&& dylib.current_version == u32_le(c, 16)
    &&& dylib.compatibility_version == u32_le(c, 20)
}

/// Iterates the libraries an image loads, in command order, stopping after
/// the first error.
#[derive(Clone, Copy, Debug)]
pub struct DylibIter<'a> {
    commands: CommandIter<'a>,
    failed: bool,
}

/// Iterates the run paths of an image, in command order, stopping after the
/// first error.
#[derive(Clone, Copy, Debug)]
pub struct RunPathIter<'a> {
    commands: CommandIter<'a>,
    failed: bool,
}

/// The walk position an iterator has reached: the image, the offset of the
/// next command, where the commands end, the next command's index and the
/// command count; and whether the walk is over.
pub struct WalkState {
    pub image: Seq<u8>,
    pub cursor: int,
    pub commands_end: int,
    pub next_index: u32,
    pub count: u32,
    pub over: bool,
}

impl<'a> CommandIter<'a> {
    spec fn state(&self, failed: bool) -> WalkState {
        WalkState {
            image: self.image@,
            cursor: self.cursor as int,
            commands_end: self.commands_end as int,
            next_index: self.next_index,
            count: self.command_count,
            over: failed || self.failed,
        }
    }
}

/// What one step of a filtered walk answers from state `w`.
pub open spec fn spec_walk_answer(w: WalkState, filter: CommandFilter) -> Option<Result<(u32, int, int), DyldError>> {
    if w.over {
        None
    } else {
        spec_find(w.image, w.cursor, w.commands_end, w.next_index, w.count, filter)
    }
}

impl<'a> DylibIter<'a> {
    /// Where the walk stands.
    pub closed spec fn spec_state(&self) -> WalkState {
        self.commands.state(self.failed)
    }

    /// Returns the next library, or `None` once the commands run out.
    pub fn next(&mut self) -> (r: Option<Result<Dylib<'a>, DyldError>>)
        ensures
            final(self).spec_state().image == old(self).spec_state().image,
            match spec_walk_answer(old(self).spec_state(), CommandFilter::Dylibs) {
                None => r is None && spec_walk_answer(final(self).spec_state(), CommandFilter::Dylibs)
                    is None,
                Some(Err(e)) => r == Some(Err::<Dylib<'a>, DyldError>(e)) && final(self).spec_state().over,
                Some(Ok((index, start, end))) => {
                    let c = old(self).spec_state().image.subrange(start, end);
                    match spec_path(c, index, u32_le(c, 0), 24) {
                        Ok(_) => r matches Some(Ok(d)) && spec_is_dylib(d, c, index)
                            && final(self).spec_state().cursor == end
                            && final(self).spec_state().next_index == index + 1
                            && !final(self).spec_state().over,
                        Err(e) => r == Some(Err::<Dylib<'a>, DyldError>(e)) && final(self).spec_state().over,
                    }
                },
            },
    {
        if self.failed {
            return None;
        }
        loop
            invariant
                !self.failed,
                self.commands.image == old(self).commands.image,
                self.commands.commands_end == old(self).commands.commands_end,
                self.commands.command_count == old(self).commands.command_count,
                spec_walk_answer(old(self).spec_state(), CommandFilter::Dylibs) == spec_walk_answer(
                    self.spec_state(),
                    CommandFilter::Dylibs,
                ),
            decreases self.commands.command_count - self.commands.next_index,
        {
            let ghost before = self.spec_state();
            proof {
                use_type_invariant(&self.commands);
            }
            let item = self.commands.next();
            match item {
                None => {
                    return None;
                },
                Some(Err(e)) => {
                    self.failed = true;
                    return Some(Err(e));
                },
                Some(Ok(command)) => {
                    proof {
                        use_type_invariant(&self.commands);
                        lemma_u32_le_subrange(before.image, before.cursor, self.commands.cursor as int, 0);
                        assert(command.bytes@ == before.image.subrange(before.cursor, self.commands.cursor as int));
                    }
                    match dylib_kind(command.command) {
                        None => {},
                        Some(kind) => {
                            let path = match path_from_command(command, DYLIB_COMMAND_SIZE) {
                                Ok(p) => p,
                                Err(e) => {
                                    self.failed = true;
                                    return Some(Err(e));
                                },
                            };
                            return Some(
                                Ok(
                                    Dylib {
                                        command_index: command.index,
                                        kind,
                                        path,
                                        timestamp: read_u32_le(command.bytes, 12),
                                        current_version: read_u32_le(command.bytes, 16),
                                        compatibility_version: read_u32_le(command.bytes, 20),
                                    },
                                ),
                            );
                        },
                    }
                },
            }
        }
    }
}

impl<'a> RunPathIter<'a> {
    /// Where the walk stands.
    pub closed spec fn spec_state(&self) -> WalkState {
        self.commands.state(self.failed)
    }

    /// Returns the next run path, or `None` once the commands run out.
    pub fn next(&mut self) -> (r: Option<Result<RunPath<'a>, DyldError>>)
        ensures
            final(self).spec_state().image == old(self).spec_state().image,
            match spec_walk_answer(old(self).spec_state(), CommandFilter::RunPaths) {
                None => r is None && spec_walk_answer(final(self).spec_state(), CommandFilter::RunPaths)
                    is None,
                Some(Err(e)) => r == Some(Err::<RunPath<'a>, DyldError>(e)) && final(self).spec_state().over,
                Some(Ok((index, start, end))) => {
                    let c = old(self).spec_state().image.subrange(start, end);
                    match spec_path(c, index, LC_RPATH, 12) {
                        Ok((b, e)) => r matches Some(Ok(p)) && p.command_index == index && p.path@
                            == c.subrange(b, e) && final(self).spec_state().cursor == end
                            && final(self).spec_state().next_index == index + 1
                            && !final(self).spec_state().over,
                        Err(e) => r == Some(Err::<RunPath<'a>, DyldError>(e)) && final(self).spec_state().over,
                    }
                },
            },
    {
        if self.failed {
            return None;
        }
        loop
            invariant
                !self.failed,
                self.commands.image == old(self).commands.image,
                self.commands.commands_end == old(self).commands.commands_end,
                self.commands.command_count == old(self).commands.command_count,
                spec_walk_answer(old(self).spec_state(), CommandFilter::RunPaths) == spec_walk_answer(
                    self.spec_state(),
                    CommandFilter::RunPaths,
                ),
            decreases self.commands.command_count - self.commands.next_index,
        {
            let ghost before = self.spec_state();
            proof {
                use_type_invariant(&self.commands);
            }
            let item = self.commands.next();
            match item {
                None => {
                    return None;
                },
                Some(Err(e)) => {
                    self.failed = true;
                    return Some(Err(e));
                },
                Some(Ok(command)) => {
                    if command.command == LC_RPATH {
                        let path = match path_from_command(command, RPATH_COMMAND_SIZE) {
                            Ok(p) => p,
                            Err(e) => {
                                self.failed = true;
                                return Some(Err(e));
                            },
                        };
                        return Some(Ok(RunPath { command_index: command.index, path }));
                    }
                },
            }
        }
    }
}

/// Starts a walk over the libraries the selected image loads.
pub fn dylibs<'a>(bytes: &'a [u8], slice: MachSlice) -> (r: Result<DylibIter<'a>, DyldError>)
    ensures
        match r {
            Ok(it) => spec_commands(bytes@, slice) matches Ok((image, end)) && it.spec_state()
                == (WalkState {
                image,
                cursor: 32,
                commands_end: end,
                next_index: 0,
                count: slice.header.command_count,
                over: false,
            }),
            Err(e) => spec_commands(bytes@, slice) == Err::<(Seq<u8>, int), DyldError>(e),
        },
{
    match commands(bytes, slice) {
        Ok(c) => Ok(DylibIter { commands: c, failed: false }),
        Err(e) => Err(e),
    }
}

/// Starts a walk over the run paths of the selected image.
pub fn run_paths<'a>(bytes: &'a [u8], slice: MachSlice) -> (r: Result<RunPathIter<'a>, DyldError>)
    ensures
        match r {
            Ok(it) => spec_commands(bytes@, slice) matches Ok((image, end)) && it.spec_state()
                == (WalkState {
                image,
                cursor: 32,
                commands_end: end,
                next_index: 0,
                count: slice.header.command_count,
                over: false,
            }),
            Err(e) => spec_commands(bytes@, slice) == Err::<(Seq<u8>, int), DyldError>(e),
        },
{
    match commands(bytes, slice) {
        Ok(c) => Ok(RunPathIter { commands: c, failed: false }),
        Err(e) => Err(e),
    }
}

/// The dynamic linker search from `cursor` (command `index` of `count`),
/// having found `found` so far: the range of its path, or why the walk fails.
pub open spec fn spec_linker_from(
    image: Seq<u8>,
    cursor: int,
    commands_end: int,
    index: u32,
    count: u32,
    found: Option<(int, int)>,
) -> Result<Option<(int, int)>, DyldError>
    decreases count - index,
{
    if index >= count {
        Ok(found)
    } else {
        match spec_command_step(image, cursor, commands_end, index) {
            Err(e) => Err(e),
            Ok((command, end)) => if command != LC_LOAD_DYLINKER {
                spec_linker_from(image, end, commands_end, (index + 1) as u32, count, found)
            } else if found is Some {
                Err(DyldError::DuplicateDynamicLinker)
            } else {
                match spec_path(image.subrange(cursor, end), index, command, 12) {
                    Err(e) => Err(e),
                    Ok((b, e)) => spec_linker_from(
                        image,
                        end,
                        commands_end,
                        (index + 1) as u32,
                        count,
                        Some((cursor + b, cursor + e)),
                    ),
                }
            },
        }
    }
}

/// What `dynamic_linker` answers: the range of the linker path in the
/// selected image, if there is one.
pub open spec fn spec_dynamic_linker(s: Seq<u8>, slice: MachSlice) -> Result<Option<(int, int)>, DyldError> {
    match spec_commands(s, slice) {
        Err(e) => Err(e),
        Ok((image, end)) => spec_linker_from(image, 32, end, 0, slice.header.command_count, None),
    }
}

/// The path of the image's single `LC_LOAD_DYLINKER` command, if it has one.
pub fn dynamic_linker<'a>(bytes: &'a [u8], slice: MachSlice) -> (r: Result<Option<&'a [u8]>, DyldError>)
    ensures
        match r {
            Ok(None) => spec_dynamic_linker(bytes@, slice) == Ok::<Option<(int, int)>, DyldError>(None),
            Ok(Some(path)) => spec_dynamic_linker(bytes@, slice) matches Ok(Some((b, e)))
                && spec_commands(bytes@, slice) matches Ok((image, _)) && path@ == image.subrange(b, e),
            Err(e) => spec_dynamic_linker(bytes@, slice) == Err::<Option<(int, int)>, DyldError>(e),
        },
{
    let mut it = match commands(bytes, slice) {
        Ok(c) => c,
        Err(e) => return Err(e),
    };
    let ghost image = it.image@;
    let ghost found: Option<(int, int)> = None;
    let mut linker: Option<&'a [u8]> = None;
    loop
        invariant
            it.image@ == image,
            !it.failed,
            spec_commands(bytes@, slice) == Ok::<(Seq<u8>, int), DyldError>((image, it.commands_end as int)),
            it.command_count == slice.header.command_count,
            spec_dynamic_linker(bytes@, slice) == spec_linker_from(
                image,
                it.cursor as int,
                it.commands_end as int,
                it.next_index,
                it.command_count,
                found,
            ),
            linker is None <==> found is None,
            linker matches Some(p) ==> found matches Some((b, e)) && p@ == image.subrange(b, e),
        decreases it.command_count - it.next_index,
    {
        let ghost cursor = it.cursor as int;
        proof {
            use_type_invariant(&it);
        }
        let item = it.next();
        match item {
            None => {
                return Ok(linker);
            },
            Some(Err(e)) => {
                return Err(e);
            },
            Some(Ok(command)) => {
                proof {
                    use_type_invariant(&it);
                    lemma_u32_le_subrange(image, cursor, it.cursor as int, 0);
                }
                if command.command == LC_LOAD_DYLINKER {
                    if linker.is_some() {
                        return Err(DyldError::DuplicateDynamicLinker);
                    }
                    let path = match path_from_command(command, DYLINKER_COMMAND_SIZE) {
                        Ok(p) => p,
                        Err(e) => return Err(e),
                    };
                    proof {
                        let (b, e) = spec_path(command.bytes@, command.index, command.command, 12)->Ok_0;
                        found = Some((cursor + b, cursor + e));
                        lemma_zero_from_bounds(command.bytes@, u32_le(command.bytes@, 8) as int);
                        assert(command.bytes@ == image.subrange(cursor, it.cursor as int));
                        assert(path@ =~= image.subrange(cursor + b, cursor + e));
                    }
                    linker = Some(path);
                }
            },
        }
    }
}

} // verus!

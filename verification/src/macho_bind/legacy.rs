//! Bounded decoder for legacy `LC_DYLD_INFO[_ONLY]` rebase and bind bytecode.
//!
//! The decoder never mutates image memory and never resolves symbols. It only
//! turns the byte streams described by `dyld_info_command` into typed opcodes.
//! Applying those opcodes is intentionally a separate validation step.

use vstd::prelude::*;
use vstd::slice::slice_subrange;

verus! {

pub const REBASE_OPCODE_DONE: u8 = 0x00;
pub const REBASE_OPCODE_SET_TYPE_IMM: u8 = 0x10;
pub const REBASE_OPCODE_SET_SEGMENT_AND_OFFSET_ULEB: u8 = 0x20;
pub const REBASE_OPCODE_ADD_ADDR_ULEB: u8 = 0x30;
pub const REBASE_OPCODE_ADD_ADDR_IMM_SCALED: u8 = 0x40;
pub const REBASE_OPCODE_DO_REBASE_IMM_TIMES: u8 = 0x50;
pub const REBASE_OPCODE_DO_REBASE_ULEB_TIMES: u8 = 0x60;
pub const REBASE_OPCODE_DO_REBASE_ADD_ADDR_ULEB: u8 = 0x70;
pub const REBASE_OPCODE_DO_REBASE_ULEB_TIMES_SKIPPING_ULEB: u8 = 0x80;

pub const BIND_OPCODE_DONE: u8 = 0x00;
pub const BIND_OPCODE_SET_DYLIB_ORDINAL_IMM: u8 = 0x10;
pub const BIND_OPCODE_SET_DYLIB_ORDINAL_ULEB: u8 = 0x20;
pub const BIND_OPCODE_SET_DYLIB_SPECIAL_IMM: u8 = 0x30;
pub const BIND_OPCODE_SET_SYMBOL_TRAILING_FLAGS_IMM: u8 = 0x40;
pub const BIND_OPCODE_SET_TYPE_IMM: u8 = 0x50;
pub const BIND_OPCODE_SET_ADDEND_SLEB: u8 = 0x60;
pub const BIND_OPCODE_SET_SEGMENT_AND_OFFSET_ULEB: u8 = 0x70;
pub const BIND_OPCODE_ADD_ADDR_ULEB: u8 = 0x80;
pub const BIND_OPCODE_DO_BIND: u8 = 0x90;
pub const BIND_OPCODE_DO_BIND_ADD_ADDR_ULEB: u8 = 0xa0;
pub const BIND_OPCODE_DO_BIND_ADD_ADDR_IMM_SCALED: u8 = 0xb0;
pub const BIND_OPCODE_DO_BIND_ULEB_TIMES_SKIPPING_ULEB: u8 = 0xc0;

/// Maximum padding accepted after `REBASE_OPCODE_DONE`, matching dyld's
/// bounded tolerance for historical 16-byte alignment.
pub const MAX_REBASE_PADDING: usize = 15;

#[derive(Clone, Copy, Debug, PartialEq, Eq, Structural)]
pub enum LegacyError {
    UnexpectedEnd { offset: usize },
    UlebOverflow { offset: usize },
    SlebOverflow { offset: usize },
    UnterminatedSymbol { offset: usize },
    EmptySymbol { offset: usize },
    UnknownRebaseOpcode { offset: usize, opcode: u8 },
    UnknownBindOpcode { offset: usize, opcode: u8 },
    ExcessiveRebasePadding { offset: usize, remaining: usize },
}

/// An opcode together with the stream offset of its opcode byte.
#[derive(Clone, Copy, Debug, PartialEq, Eq)]
pub struct Decoded<T> {
    pub offset: usize,
    pub opcode: T,
}

#[allow(inconsistent_fields)]
#[derive(Clone, Copy, Debug, PartialEq, Eq, Structural)]
pub enum RebaseOpcode {
    Done,
    SetType { kind: u8 },
    SetSegmentAndOffset { segment: u8, offset: u64 },
    AddAddress { amount: u64 },
    AddAddressScaled { scale: u8 },
    DoRebaseImmediateTimes { count: u8 },
    DoRebaseUlebTimes { count: u64 },
    DoRebaseAddAddress { amount: u64 },
    DoRebaseUlebTimesSkipping { count: u64, skip: u64 },
}

#[allow(inconsistent_fields)]
#[derive(Clone, Copy, Debug, PartialEq, Eq)]
pub enum BindOpcode<'a> {
    Done,
    SetDylibOrdinalImmediate { ordinal: u8 },
    SetDylibOrdinalUleb { ordinal: u64 },
    SetDylibSpecialImmediate { ordinal: i8 },
    SetSymbolTrailingFlags { flags: u8, symbol: &'a [u8] },
    SetType { kind: u8 },
    SetAddend { addend: i64 },
    SetSegmentAndOffset { segment: u8, offset: u64 },
    AddAddress { amount: u64 },
    DoBind,
    DoBindAddAddress { amount: u64 },
    DoBindAddAddressScaled { scale: u8 },
    DoBindUlebTimesSkipping { count: u64, skip: u64 },
}

/// `128` to the power `i`: the weight of the `i`-th seven-bit group.
pub open spec fn spec_pow128(i: nat) -> nat
    decreases i,
{
    if i == 0 {
        1
    } else {
        128 * spec_pow128((i - 1) as nat)
    }
}

/// Unsigned LEB128 from `start`, having read `i` groups worth `value`: the
/// value and the offset after it, or why the number is refused. At most ten
/// groups are read and the value must fit in 64 bits.
pub open spec fn spec_uleb(s: Seq<u8>, start: int, i: nat, value: int) -> Result<(int, int), LegacyError>
    decreases 10 - i,
{
    if i >= 10 {
        Err(LegacyError::UlebOverflow { offset: start as usize })
    } else if start + i >= s.len() {
        Err(LegacyError::UnexpectedEnd { offset: (start + i) as usize })
    } else {
        let byte = s[start + i];
        let payload = byte % 128;
        if i == 9 && payload > 1 {
            Err(LegacyError::UlebOverflow { offset: start as usize })
        } else if byte < 128 {
            Ok((value + payload * spec_pow128(i), start + i + 1))
        } else if i >= 9 {
            Err(LegacyError::UlebOverflow { offset: start as usize })
        } else {
            spec_uleb(s, start, i + 1, value + payload * spec_pow128(i))
        }
    }
}

/// Signed LEB128 from `start`, having read `i` groups worth `raw`: the value
/// and the offset after it, or why the number is refused. The last group's
/// bit 6 extends the sign; the value must fit in `i64`.
pub open spec fn spec_sleb(s: Seq<u8>, start: int, i: nat, raw: int) -> Result<(int, int), LegacyError>
    decreases 10 - i,
{
    if i >= 10 {
        Err(LegacyError::SlebOverflow { offset: start as usize })
    } else if start + i >= s.len() {
        Err(LegacyError::UnexpectedEnd { offset: (start + i) as usize })
    } else {
        let byte = s[start + i];
        let next = raw + (byte % 128) * spec_pow128(i);
        if byte < 128 {
            let value = if byte % 128 >= 64 {
                next - spec_pow128(i + 1)
            } else {
                next
            };
            if value < i64::MIN || value > i64::MAX {
                Err(LegacyError::SlebOverflow { offset: start as usize })
            } else {
                Ok((value, start + i + 1))
            }
        } else {
            spec_sleb(s, start, i + 1, next)
        }
    }
}

proof fn lemma_pow128_step(i: nat)
    ensures
        spec_pow128(i + 1) == 128 * spec_pow128(i),
        spec_pow128(i) >= 1,
    decreases i,
{
    if i > 0 {
        lemma_pow128_step((i - 1) as nat);
    }
}

proof fn lemma_pow128_mono(i: nat, j: nat)
    requires
        i <= j,
    ensures
        spec_pow128(i) <= spec_pow128(j),
    decreases j,
{
    if i < j {
        lemma_pow128_mono(i, (j - 1) as nat);
        lemma_pow128_step((j - 1) as nat);
    }
}

/// The group weights this decoder meets: `128^8 == 2^56`, `128^9 == 2^63`.
proof fn lemma_pow128_bounds(i: nat)
    ensures
        i <= 8 ==> spec_pow128(i) <= 0x0100_0000_0000_0000,
        i <= 9 ==> spec_pow128(i) <= 0x8000_0000_0000_0000,
        i == 9 ==> spec_pow128(i) == 0x8000_0000_0000_0000,
{
    assert(spec_pow128(8) == 0x0100_0000_0000_0000 && spec_pow128(9) == 0x8000_0000_0000_0000) by {
        reveal_with_fuel(spec_pow128, 10);
    }
    if i <= 9 {
        lemma_pow128_mono(i, 9);
    }
    if i <= 8 {
        lemma_pow128_mono(i, 8);
    }
}

fn read_uleb(bytes: &[u8], start: usize) -> (r: Result<(u64, usize), LegacyError>)
    requires
        start <= bytes@.len(),
    ensures
        match r {
            Ok((v, next)) => spec_uleb(bytes@, start as int, 0, 0) == Ok::<(int, int), LegacyError>(
                (v as int, next as int),
            ),
            Err(e) => spec_uleb(bytes@, start as int, 0, 0) == Err::<(int, int), LegacyError>(e),
        },
{
    let mut value: u64 = 0;
    let mut weight: u64 = 1;
    let mut i: usize = 0;
    while i < 10
        invariant
            start <= bytes@.len(),
            i <= 10,
            start + i <= bytes@.len(),
            weight == spec_pow128(i as nat),
            i <= 9 ==> weight <= 0x8000_0000_0000_0000,
            i <= 8 ==> weight <= 0x0100_0000_0000_0000,
            value < weight,
            spec_uleb(bytes@, start as int, 0, 0) == spec_uleb(bytes@, start as int, i as nat, value as int),
        decreases 10 - i,
    {
        proof {
            lemma_pow128_step(i as nat);
            lemma_pow128_bounds(i as nat);
            lemma_pow128_bounds(i as nat + 1);
        }
        if i >= bytes.len() - start {
            return Err(LegacyError::UnexpectedEnd { offset: start + i });
        }
        let byte = bytes[start + i];
        let payload = (byte % 128) as u64;
        if i == 9 && payload > 1 {
            return Err(LegacyError::UlebOverflow { offset: start });
        }
        assert(value + payload * weight < 0x1_0000_0000_0000_0000 && value + payload * weight < 128
            * weight) by (nonlinear_arith)
            requires
                value < weight,
                i <= 9 ==> weight <= 0x8000_0000_0000_0000,
                i <= 8 ==> weight <= 0x0100_0000_0000_0000,
                payload < 128,
                i == 9 ==> payload <= 1,
                i <= 9,
        ;
        let next_value = value + payload * weight;
        if byte < 128 {
            return Ok((next_value, start + i + 1));
        }
        if i >= 9 {
            return Err(LegacyError::UlebOverflow { offset: start });
        }
        value = next_value;
        weight = weight * 128;
        i = i + 1;
    }
    Err(LegacyError::UlebOverflow { offset: start })
}

fn read_sleb(bytes: &[u8], start: usize) -> (r: Result<(i64, usize), LegacyError>)
    requires
        start <= bytes@.len(),
    ensures
        match r {
            Ok((v, next)) => spec_sleb(bytes@, start as int, 0, 0) == Ok::<(int, int), LegacyError>(
                (v as int, next as int),
            ),
            Err(e) => spec_sleb(bytes@, start as int, 0, 0) == Err::<(int, int), LegacyError>(e),
        },
{
    let mut raw: u128 = 0;
    let mut weight: u128 = 1;
    let mut i: usize = 0;
    while i < 10
        invariant
            start <= bytes@.len(),
            i <= 10,
            start + i <= bytes@.len(),
            weight == spec_pow128(i as nat),
            i <= 9 ==> weight <= 0x8000_0000_0000_0000,
            raw < weight,
            spec_sleb(bytes@, start as int, 0, 0) == spec_sleb(bytes@, start as int, i as nat, raw as int),
        decreases 10 - i,
    {
        proof {
            lemma_pow128_step(i as nat);
            lemma_pow128_bounds(i as nat);
            lemma_pow128_bounds(i as nat + 1);
        }
        if i >= bytes.len() - start {
            return Err(LegacyError::UnexpectedEnd { offset: start + i });
        }
        let byte = bytes[start + i];
        let payload = (byte % 128) as u128;
        assert(raw + payload * weight < 128 * weight && 128 * weight <= 0x40_0000_0000_0000_0000)
            by (nonlinear_arith)
            requires
                raw < weight,
                weight <= 0x8000_0000_0000_0000,
                payload < 128,
        ;
        let next = raw + payload * weight;
        if byte < 128 {
            let top = weight * 128;
            let value: i128 = if payload >= 64 {
                next as i128 - top as i128
            } else {
                next as i128
            };
            if value < i64::MIN as i128 || value > i64::MAX as i128 {
                return Err(LegacyError::SlebOverflow { offset: start });
            }
            return Ok((value as i64, start + i + 1));
        }
        if i >= 9 {
            proof {
                assert(spec_sleb(bytes@, start as int, 10, next as int) is Err);
            }
            if i == 9 {
                return Err(LegacyError::SlebOverflow { offset: start });
            }
        }
        raw = next;
        weight = weight * 128;
        i = i + 1;
    }
    Err(LegacyError::SlebOverflow { offset: start })
}

/// The first zero byte of `s` at or after `i`.
pub open spec fn spec_zero_at_or_after(s: Seq<u8>, i: int) -> Option<int>
    decreases s.len() - i,
{
    if i < 0 || i >= s.len() {
        None
    } else if s[i] == 0 {
        Some(i)
    } else {
        spec_zero_at_or_after(s, i + 1)
    }
}

/// The NUL-terminated symbol at `start` as a range of the stream, or why it
/// is refused; errors name the opcode at `opcode_offset`.
pub open spec fn spec_symbol(s: Seq<u8>, start: int, opcode_offset: int) -> Result<(int, int), LegacyError> {
    if start > s.len() {
        Err(LegacyError::UnexpectedEnd { offset: start as usize })
    } else {
        match spec_zero_at_or_after(s, start) {
            None => Err(LegacyError::UnterminatedSymbol { offset: opcode_offset as usize }),
            Some(end) => if end == start {
                Err(LegacyError::EmptySymbol { offset: opcode_offset as usize })
            } else {
                Ok((start, end))
            },
        }
    }
}

fn read_symbol<'a>(bytes: &'a [u8], start: usize, opcode_offset: usize) -> (r: Result<
    (&'a [u8], usize),
    LegacyError,
>)
    ensures
        match r {
            Ok((symbol, next)) => spec_symbol(bytes@, start as int, opcode_offset as int) matches Ok(
                (b, e),
            ) && symbol@ == bytes@.subrange(b, e) && next == e + 1,
            Err(err) => spec_symbol(bytes@, start as int, opcode_offset as int) == Err::<
                (int, int),
                LegacyError,
            >(err),
        },
{
    if start > bytes.len() {
        return Err(LegacyError::UnexpectedEnd { offset: start });
    }
    let mut end = start;
    while end < bytes.len()
        invariant
            start <= end <= bytes@.len(),
            spec_zero_at_or_after(bytes@, start as int) == spec_zero_at_or_after(bytes@, end as int),
        decreases bytes@.len() - end,
    {
        if bytes[end] == 0 {
            if end == start {
                return Err(LegacyError::EmptySymbol { offset: opcode_offset });
            }
            return Ok((slice_subrange(bytes, start, end), end + 1));
        }
        end = end + 1;
    }
    Err(LegacyError::UnterminatedSymbol { offset: opcode_offset })
}

/// The rebase opcode whose byte is at `offset` and the offset after its
/// operands, or why it is refused.
pub open spec fn spec_rebase_step(s: Seq<u8>, offset: int) -> Result<(RebaseOpcode, int), LegacyError> {
    let byte = s[offset];
    let opcode = byte & 0xf0;
    let immediate = byte & 0x0f;
    let after = offset + 1;
    if opcode == REBASE_OPCODE_DONE {
        if s.len() - after > MAX_REBASE_PADDING {
            Err(
                LegacyError::ExcessiveRebasePadding {
                    offset: offset as usize,
                    remaining: (s.len() - after) as usize,
                },
            )
        } else {
            Ok((RebaseOpcode::Done, after))
        }
    } else if opcode == REBASE_OPCODE_SET_TYPE_IMM {
        Ok((RebaseOpcode::SetType { kind: immediate }, after))
    } else if opcode == REBASE_OPCODE_SET_SEGMENT_AND_OFFSET_ULEB {
        match spec_uleb(s, after, 0, 0) {
            Err(e) => Err(e),
            Ok((v, n)) => Ok(
                (RebaseOpcode::SetSegmentAndOffset { segment: immediate, offset: v as u64 }, n),
            ),
        }
    } else if opcode == REBASE_OPCODE_ADD_ADDR_ULEB {
        match spec_uleb(s, after, 0, 0) {
            Err(e) => Err(e),
            Ok((v, n)) => Ok((RebaseOpcode::AddAddress { amount: v as u64 }, n)),
        }
    } else if opcode == REBASE_OPCODE_ADD_ADDR_IMM_SCALED {
        Ok((RebaseOpcode::AddAddressScaled { scale: immediate }, after))
    } else if opcode == REBASE_OPCODE_DO_REBASE_IMM_TIMES {
        Ok((RebaseOpcode::DoRebaseImmediateTimes { count: immediate }, after))
    } else if opcode == REBASE_OPCODE_DO_REBASE_ULEB_TIMES {
        match spec_uleb(s, after, 0, 0) {
            Err(e) => Err(e),
            Ok((v, n)) => Ok((RebaseOpcode::DoRebaseUlebTimes { count: v as u64 }, n)),
        }
    } else if opcode == REBASE_OPCODE_DO_REBASE_ADD_ADDR_ULEB {
        match spec_uleb(s, after, 0, 0) {
            Err(e) => Err(e),
            Ok((v, n)) => Ok((RebaseOpcode::DoRebaseAddAddress { amount: v as u64 }, n)),
        }
    } else if opcode == REBASE_OPCODE_DO_REBASE_ULEB_TIMES_SKIPPING_ULEB {
        match spec_uleb(s, after, 0, 0) {
            Err(e) => Err(e),
            Ok((count, n)) => match spec_uleb(s, n, 0, 0) {
                Err(e) => Err(e),
                Ok((skip, m)) => Ok(
                    (RebaseOpcode::DoRebaseUlebTimesSkipping { count: count as u64, skip: skip as u64 }, m),
                ),
            },
        }
    } else {
        Err(LegacyError::UnknownRebaseOpcode { offset: offset as usize, opcode })
    }
}

/// Iterates the rebase opcodes of a stream; it stops after `Done` and after
/// the first error.
#[derive(Clone, Copy, Debug, PartialEq, Eq)]
pub struct RebaseOpcodeIter<'a> {
    bytes: &'a [u8],
    cursor: usize,
    failed: bool,
    done: bool,
}

/// Starts decoding a rebase stream at its first byte.
pub fn rebase_opcodes(bytes: &[u8]) -> (r: RebaseOpcodeIter<'_>)
    ensures
        r.spec_bytes() == bytes@,
        r.spec_cursor() == 0,
        !r.spec_failed(),
        !r.spec_done(),
{
    RebaseOpcodeIter { bytes, cursor: 0, failed: false, done: false }
}

impl<'a> RebaseOpcodeIter<'a> {
    pub closed spec fn spec_bytes(&self) -> Seq<u8> {
        self.bytes@
    }

    /// Offset of the next opcode byte.
    pub closed spec fn spec_cursor(&self) -> int {
        self.cursor as int
    }

    pub closed spec fn spec_failed(&self) -> bool {
        self.failed
    }

    pub closed spec fn spec_done(&self) -> bool {
        self.done
    }

    /// Whether the walk is over: failed, done, or out of bytes.
    pub open spec fn spec_finished(&self) -> bool {
        self.spec_failed() || self.spec_done() || self.spec_cursor() >= self.spec_bytes().len()
    }

    /// Decodes the next rebase opcode.
    pub fn next(&mut self) -> (r: Option<Result<Decoded<RebaseOpcode>, LegacyError>>)
        ensures
            final(self).spec_bytes() == old(self).spec_bytes(),
            old(self).spec_finished() ==> r is None && *final(self) == *old(self),
            !old(self).spec_finished() ==> match spec_rebase_step(
                old(self).spec_bytes(),
                old(self).spec_cursor(),
            ) {
                Ok((opcode, next)) => {
                    &&& r == Some(
                        Ok::<Decoded<RebaseOpcode>, LegacyError>(
                            Decoded { offset: old(self).spec_cursor() as usize, opcode },
                        ),
                    )
                    &&& final(self).spec_cursor() == next
                    &&& !final(self).spec_failed()
                    &&& final(self).spec_done() == (opcode == RebaseOpcode::Done)
                },
                Err(e) => r == Some(Err::<Decoded<RebaseOpcode>, LegacyError>(e))
                    && final(self).spec_failed(),
            },
    {
        if self.failed || self.done || self.cursor >= self.bytes.len() {
            return None;
        }
        let offset = self.cursor;
        let byte = self.bytes[offset];
        let after = offset + 1;
        let opcode = byte & 0xf0;
        let immediate = byte & 0x0f;
        let decoded: Result<(RebaseOpcode, usize), LegacyError> = if opcode == REBASE_OPCODE_DONE {
            let remaining = self.bytes.len() - after;
            if remaining > MAX_REBASE_PADDING {
                Err(LegacyError::ExcessiveRebasePadding { offset, remaining })
            } else {
                Ok((RebaseOpcode::Done, after))
            }
        } else if opcode == REBASE_OPCODE_SET_TYPE_IMM {
            Ok((RebaseOpcode::SetType { kind: immediate }, after))
        } else if opcode == REBASE_OPCODE_SET_SEGMENT_AND_OFFSET_ULEB {
            match read_uleb(self.bytes, after) {
                Ok((v, n)) => Ok((RebaseOpcode::SetSegmentAndOffset { segment: immediate, offset: v }, n)),
                Err(e) => Err(e),
            }
        } else if opcode == REBASE_OPCODE_ADD_ADDR_ULEB {
            match read_uleb(self.bytes, after) {
                Ok((v, n)) => Ok((RebaseOpcode::AddAddress { amount: v }, n)),
                Err(e) => Err(e),
            }
        } else if opcode == REBASE_OPCODE_ADD_ADDR_IMM_SCALED {
            Ok((RebaseOpcode::AddAddressScaled { scale: immediate }, after))
        } else if opcode == REBASE_OPCODE_DO_REBASE_IMM_TIMES {
            Ok((RebaseOpcode::DoRebaseImmediateTimes { count: immediate }, after))
        } else if opcode == REBASE_OPCODE_DO_REBASE_ULEB_TIMES {
            match read_uleb(self.bytes, after) {
                Ok((v, n)) => Ok((RebaseOpcode::DoRebaseUlebTimes { count: v }, n)),
                Err(e) => Err(e),
            }
        } else if opcode == REBASE_OPCODE_DO_REBASE_ADD_ADDR_ULEB {
            match read_uleb(self.bytes, after) {
                Ok((v, n)) => Ok((RebaseOpcode::DoRebaseAddAddress { amount: v }, n)),
                Err(e) => Err(e),
            }
        } else if opcode == REBASE_OPCODE_DO_REBASE_ULEB_TIMES_SKIPPING_ULEB {
            match read_uleb(self.bytes, after) {
                Ok((count, n)) => {
                    proof {
                        lemma_uleb_end_in_bounds(self.bytes@, after as int, 0, 0);
                    }
                    match read_uleb(self.bytes, n) {
                        Ok((skip, m)) => Ok((RebaseOpcode::DoRebaseUlebTimesSkipping { count, skip }, m)),
                        Err(e) => Err(e),
                    }
                },
                Err(e) => Err(e),
            }
        } else {
            Err(LegacyError::UnknownRebaseOpcode { offset, opcode })
        };
        match decoded {
            Ok((op, next)) => {
                self.cursor = next;
                if op == RebaseOpcode::Done {
                    self.done = true;
                }
                Some(Ok(Decoded { offset, opcode: op }))
            },
            Err(e) => {
                self.failed = true;
                Some(Err(e))
            },
        }
    }
}

/// A number that decodes ends inside the stream.
proof fn lemma_uleb_end_in_bounds(s: Seq<u8>, start: int, i: nat, value: int)
    ensures
        spec_uleb(s, start, i, value) matches Ok((_, n)) ==> n <= s.len(),
    decreases 10 - i,
{
    if i < 10 && start + i < s.len() && s[start + i] >= 128 && i < 9 {
        lemma_uleb_end_in_bounds(s, start, i + 1, value + (s[start + i] % 128) * spec_pow128(i));
    }
}

proof fn lemma_uleb_ends_after(s: Seq<u8>, start: int, i: nat, value: int)
    ensures
        spec_uleb(s, start, i, value) matches Ok((_, n)) ==> start + i < n <= s.len(),
    decreases 10 - i,
{
    if i < 10 && start + i < s.len() && s[start + i] >= 128 && i < 9 {
        lemma_uleb_ends_after(s, start, i + 1, value + (s[start + i] % 128) * spec_pow128(i));
    }
}

proof fn lemma_sleb_ends_after(s: Seq<u8>, start: int, i: nat, raw: int)
    ensures
        spec_sleb(s, start, i, raw) matches Ok((_, n)) ==> start + i < n <= s.len(),
    decreases 10 - i,
{
    if i < 10 && start + i < s.len() && s[start + i] >= 128 {
        lemma_sleb_ends_after(s, start, i + 1, raw + (s[start + i] % 128) * spec_pow128(i));
    }
}

proof fn lemma_zero_within(s: Seq<u8>, i: int)
    ensures
        spec_zero_at_or_after(s, i) matches Some(e) ==> i <= e < s.len(),
    decreases s.len() - i,
{
    if 0 <= i < s.len() && s[i] != 0 {
        lemma_zero_within(s, i + 1);
    }
}

/// A bind opcode that decodes ends after the byte it starts at and within the
/// stream: the offsets of the opcodes a stream yields strictly increase, and
/// each lies below the stream's length.
pub proof fn lemma_bind_step_advances(s: Seq<u8>, offset: int)
    requires
        0 <= offset < s.len(),
    ensures
        spec_bind_step(s, offset) matches Ok(next) ==> offset < next <= s.len(),
{
    let after = offset + 1;
    lemma_uleb_ends_after(s, after, 0, 0);
    lemma_sleb_ends_after(s, after, 0, 0);
    lemma_zero_within(s, after);
    if let Ok((_, n)) = spec_uleb(s, after, 0, 0) {
        lemma_uleb_ends_after(s, n, 0, 0);
    }
}

/// Where decoding the bind opcode at `offset` stops, or why it fails.
pub open spec fn spec_bind_step(s: Seq<u8>, offset: int) -> Result<int, LegacyError> {
    let opcode = s[offset] & 0xf0;
    let after = offset + 1;
    if opcode == BIND_OPCODE_DONE || opcode == BIND_OPCODE_SET_DYLIB_ORDINAL_IMM || opcode
        == BIND_OPCODE_SET_DYLIB_SPECIAL_IMM || opcode == BIND_OPCODE_SET_TYPE_IMM || opcode
        == BIND_OPCODE_DO_BIND || opcode == BIND_OPCODE_DO_BIND_ADD_ADDR_IMM_SCALED {
        Ok(after)
    } else if opcode == BIND_OPCODE_SET_DYLIB_ORDINAL_ULEB || opcode
        == BIND_OPCODE_SET_SEGMENT_AND_OFFSET_ULEB || opcode == BIND_OPCODE_ADD_ADDR_ULEB || opcode
        == BIND_OPCODE_DO_BIND_ADD_ADDR_ULEB {
        match spec_uleb(s, after, 0, 0) {
            Err(e) => Err(e),
            Ok((_, n)) => Ok(n),
        }
    } else if opcode == BIND_OPCODE_SET_SYMBOL_TRAILING_FLAGS_IMM {
        match spec_symbol(s, after, offset) {
            Err(e) => Err(e),
            Ok((_, end)) => Ok(end + 1),
        }
    } else if opcode == BIND_OPCODE_SET_ADDEND_SLEB {
        match spec_sleb(s, after, 0, 0) {
            Err(e) => Err(e),
            Ok((_, n)) => Ok(n),
        }
    } else if opcode == BIND_OPCODE_DO_BIND_ULEB_TIMES_SKIPPING_ULEB {
        match spec_uleb(s, after, 0, 0) {
            Err(e) => Err(e),
            Ok((_, n)) => match spec_uleb(s, n, 0, 0) {
                Err(e) => Err(e),
                Ok((_, m)) => Ok(m),
            },
        }
    } else {
        Err(LegacyError::UnknownBindOpcode { offset: offset as usize, opcode })
    }
}

/// Whether `op` is the bind opcode decoded at `offset` (when decoding
/// succeeds).
pub open spec fn spec_bind_opcode_is(s: Seq<u8>, offset: int, op: BindOpcode) -> bool {
    let opcode = s[offset] & 0xf0;
    let immediate = s[offset] & 0x0f;
    let after = offset + 1;
    let uleb = spec_uleb(s, after, 0, 0)->Ok_0.0 as u64;
    if opcode == BIND_OPCODE_DONE {
        op == BindOpcode::Done
    } else if opcode == BIND_OPCODE_SET_DYLIB_ORDINAL_IMM {
        op == BindOpcode::SetDylibOrdinalImmediate { ordinal: immediate }
    } else if opcode == BIND_OPCODE_SET_DYLIB_ORDINAL_ULEB {
        op == BindOpcode::SetDylibOrdinalUleb { ordinal: uleb }
    } else if opcode == BIND_OPCODE_SET_DYLIB_SPECIAL_IMM {
        op == BindOpcode::SetDylibSpecialImmediate {
            ordinal: if immediate == 0 {
                0i8
            } else {
                (immediate - 16) as i8
            },
        }
    } else if opcode == BIND_OPCODE_SET_SYMBOL_TRAILING_FLAGS_IMM {
        &&& op matches BindOpcode::SetSymbolTrailingFlags { flags, symbol }
        &&& flags == immediate
        &&& spec_symbol(s, after, offset) matches Ok((b, e)) && symbol@ == s.subrange(b, e)
    } else if opcode == BIND_OPCODE_SET_TYPE_IMM {
        op == BindOpcode::SetType { kind: immediate }
    } else if opcode == BIND_OPCODE_SET_ADDEND_SLEB {
        op == BindOpcode::SetAddend { addend: spec_sleb(s, after, 0, 0)->Ok_0.0 as i64 }
    } else if opcode == BIND_OPCODE_SET_SEGMENT_AND_OFFSET_ULEB {
        op == BindOpcode::SetSegmentAndOffset { segment: immediate, offset: uleb }
    } else if opcode == BIND_OPCODE_ADD_ADDR_ULEB {
        op == BindOpcode::AddAddress { amount: uleb }
    } else if opcode == BIND_OPCODE_DO_BIND {
        op == BindOpcode::DoBind
    } else if opcode == BIND_OPCODE_DO_BIND_ADD_ADDR_ULEB {
        op == BindOpcode::DoBindAddAddress { amount: uleb }
    } else if opcode == BIND_OPCODE_DO_BIND_ADD_ADDR_IMM_SCALED {
        op == BindOpcode::DoBindAddAddressScaled { scale: immediate }
    } else {
        let (count, n) = spec_uleb(s, after, 0, 0)->Ok_0;
        op == BindOpcode::DoBindUlebTimesSkipping {
            count: count as u64,
            skip: spec_uleb(s, n, 0, 0)->Ok_0.0 as u64,
        }
    }
}

/// Iterates the bind opcodes of a stream; `Done` does not end the walk (lazy
/// bind streams hold one entry after another), the first error does.
#[derive(Clone, Copy, Debug, PartialEq, Eq)]
pub struct BindOpcodeIter<'a> {
    bytes: &'a [u8],
    cursor: usize,
    failed: bool,
}

/// Starts decoding a bind stream at its first byte.
pub fn bind_opcodes(bytes: &[u8]) -> (r: BindOpcodeIter<'_>)
    ensures
        r.spec_bytes() == bytes@,
        r.spec_cursor() == 0,
        !r.spec_failed(),
{
    BindOpcodeIter { bytes, cursor: 0, failed: false }
}

impl<'a> BindOpcodeIter<'a> {
    pub closed spec fn spec_bytes(&self) -> Seq<u8> {
        self.bytes@
    }

    /// Offset of the next opcode byte.
    pub closed spec fn spec_cursor(&self) -> int {
        self.cursor as int
    }

    pub closed spec fn spec_failed(&self) -> bool {
        self.failed
    }

    /// Decodes the next bind opcode.
    pub fn next(&mut self) -> (r: Option<Result<Decoded<BindOpcode<'a>>, LegacyError>>)
        ensures
            final(self).spec_bytes() == old(self).spec_bytes(),
            old(self).spec_failed() || old(self).spec_cursor() >= old(self).spec_bytes().len() ==> r is None
                && *final(self) == *old(self),
            !(old(self).spec_failed() || old(self).spec_cursor() >= old(self).spec_bytes().len())
                ==> match spec_bind_step(old(self).spec_bytes(), old(self).spec_cursor()) {
                Ok(next) => {
                    &&& r matches Some(Ok(decoded))
                    &&& decoded.offset == old(self).spec_cursor()
                    &&& spec_bind_opcode_is(old(self).spec_bytes(), old(self).spec_cursor(), decoded.opcode)
                    &&& final(self).spec_cursor() == next
                    &&& old(self).spec_cursor() < next <= old(self).spec_bytes().len()
                    &&& !final(self).spec_failed()
                },
                Err(e) => r == Some(Err::<Decoded<BindOpcode<'a>>, LegacyError>(e))
                    && final(self).spec_failed(),
            },
    {
        if self.failed || self.cursor >= self.bytes.len() {
            return None;
        }
        let offset = self.cursor;
        let byte = self.bytes[offset];
        let after = offset + 1;
        let opcode = byte & 0xf0;
        let immediate = byte & 0x0f;
        assert(immediate <= 15) by (bit_vector)
            requires
                immediate == byte & 0x0f,
        ;
        let decoded: Result<(BindOpcode<'a>, usize), LegacyError> = if opcode == BIND_OPCODE_DONE {
            Ok((BindOpcode::Done, after))
        } else if opcode == BIND_OPCODE_SET_DYLIB_ORDINAL_IMM {
            Ok((BindOpcode::SetDylibOrdinalImmediate { ordinal: immediate }, after))
        } else if opcode == BIND_OPCODE_SET_DYLIB_ORDINAL_ULEB {
            match read_uleb(self.bytes, after) {
                Ok((v, n)) => Ok((BindOpcode::SetDylibOrdinalUleb { ordinal: v }, n)),
                Err(e) => Err(e),
            }
        } else if opcode == BIND_OPCODE_SET_DYLIB_SPECIAL_IMM {
            let ordinal: i8 = if immediate == 0 {
                0
            } else {
                immediate as i8 - 16
            };
            Ok((BindOpcode::SetDylibSpecialImmediate { ordinal }, after))
        } else if opcode == BIND_OPCODE_SET_SYMBOL_TRAILING_FLAGS_IMM {
            match read_symbol(self.bytes, after, offset) {
                Ok((symbol, n)) => Ok((BindOpcode::SetSymbolTrailingFlags { flags: immediate, symbol }, n)),
                Err(e) => Err(e),
            }
        } else if opcode == BIND_OPCODE_SET_TYPE_IMM {
            Ok((BindOpcode::SetType { kind: immediate }, after))
        } else if opcode == BIND_OPCODE_SET_ADDEND_SLEB {
            match read_sleb(self.bytes, after) {
                Ok((v, n)) => Ok((BindOpcode::SetAddend { addend: v }, n)),
                Err(e) => Err(e),
            }
        } else if opcode == BIND_OPCODE_SET_SEGMENT_AND_OFFSET_ULEB {
            match read_uleb(self.bytes, after) {
                Ok((v, n)) => Ok((BindOpcode::SetSegmentAndOffset { segment: immediate, offset: v }, n)),
                Err(e) => Err(e),
            }
        } else if opcode == BIND_OPCODE_ADD_ADDR_ULEB {
            match read_uleb(self.bytes, after) {
                Ok((v, n)) => Ok((BindOpcode::AddAddress { amount: v }, n)),
                Err(e) => Err(e),
            }
        } else if opcode == BIND_OPCODE_DO_BIND {
            Ok((BindOpcode::DoBind, after))
        } else if opcode == BIND_OPCODE_DO_BIND_ADD_ADDR_ULEB {
            match read_uleb(self.bytes, after) {
                Ok((v, n)) => Ok((BindOpcode::DoBindAddAddress { amount: v }, n)),
                Err(e) => Err(e),
            }
        } else if opcode == BIND_OPCODE_DO_BIND_ADD_ADDR_IMM_SCALED {
            Ok((BindOpcode::DoBindAddAddressScaled { scale: immediate }, after))
        } else if opcode == BIND_OPCODE_DO_BIND_ULEB_TIMES_SKIPPING_ULEB {
            match read_uleb(self.bytes, after) {
                Ok((count, n)) => {
                    proof {
                        lemma_uleb_end_in_bounds(self.bytes@, after as int, 0, 0);
                    }
                    match read_uleb(self.bytes, n) {
                        Ok((skip, m)) => Ok((BindOpcode::DoBindUlebTimesSkipping { count, skip }, m)),
                        Err(e) => Err(e),
                    }
                },
                Err(e) => Err(e),
            }
        } else {
            Err(LegacyError::UnknownBindOpcode { offset, opcode })
        };
        proof {
            lemma_bind_step_advances(self.bytes@, offset as int);
        }
        match decoded {
            Ok((op, next)) => {
                self.cursor = next;
                Some(Ok(Decoded { offset, opcode: op }))
            },
            Err(e) => {
                self.failed = true;
                Some(Err(e))
            },
        }
    }
}

} // verus!

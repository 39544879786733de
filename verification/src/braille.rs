//! Uncontracted (Grade 1) English braille translation.
//!
//! Text becomes a sequence of six-dot cells, the bytes a braille display's
//! transport sends, and cells render back as Unicode braille glyphs
//! (U+2800..) for logs. A cell is a `u8` bitmask with bit *n* set when dot
//! *n+1* is raised, so cell `c` is the code point `U+2800 + c`.
//!
//! The 26 letters, a capital indicator before an upper-case letter, a number
//! indicator before a run of digits, common punctuation and the space are
//! supported; any other byte becomes the braille question mark, so
//! translation never fails.

use vstd::prelude::*;
use vstd::string::*;
use vstd::utf8::*;
use crate::text::utf8_text;

verus! {

/// The braille number indicator: dots 3-4-5-6. Following digits read as numbers.
pub const NUMBER_SIGN: u8 = 0b0011_1100;

/// The braille capital indicator: dot 6. Precedes an upper-case letter.
pub const CAPITAL_SIGN: u8 = 0b0010_0000;

/// The empty cell: a space.
pub const SPACE: u8 = 0;

/// The braille question mark (dots 2-3-6), used for any byte with no mapping.
pub const UNKNOWN: u8 = 0b10_0110;

/// The six-dot cell of the `index`-th letter of the alphabet (0 is `a`).
pub open spec fn letter_pattern(index: int) -> u8 {
    if index == 0 { 0b00_0001 }        // a  dot 1
    else if index == 1 { 0b00_0011 }   // b  dots 1-2
    else if index == 2 { 0b00_1001 }   // c  dots 1-4
    else if index == 3 { 0b01_1001 }   // d  dots 1-4-5
    else if index == 4 { 0b01_0001 }   // e  dots 1-5
    else if index == 5 { 0b00_1011 }   // f  dots 1-2-4
    else if index == 6 { 0b01_1011 }   // g  dots 1-2-4-5
    else if index == 7 { 0b01_0011 }   // h  dots 1-2-5
    else if index == 8 { 0b00_1010 }   // i  dots 2-4
    else if index == 9 { 0b01_1010 }   // j  dots 2-4-5
    else if index == 10 { 0b00_0101 }  // k  dots 1-3
    else if index == 11 { 0b00_0111 }  // l  dots 1-2-3
    else if index == 12 { 0b00_1101 }  // m  dots 1-3-4
    else if index == 13 { 0b01_1101 }  // n  dots 1-3-4-5
    else if index == 14 { 0b01_0101 }  // o  dots 1-3-5
    else if index == 15 { 0b00_1111 }  // p  dots 1-2-3-4
    else if index == 16 { 0b01_1111 }  // q  dots 1-2-3-4-5
    else if index == 17 { 0b01_0111 }  // r  dots 1-2-3-5
    else if index == 18 { 0b00_1110 }  // s  dots 2-3-4
    else if index == 19 { 0b01_1110 }  // t  dots 2-3-4-5
    else if index == 20 { 0b10_0101 }  // u  dots 1-3-6
    else if index == 21 { 0b10_0111 }  // v  dots 1-2-3-6
    else if index == 22 { 0b11_1010 }  // w  dots 2-4-5-6
    else if index == 23 { 0b10_1101 }  // x  dots 1-3-4-6
    else if index == 24 { 0b11_1101 }  // y  dots 1-3-4-5-6
    else { 0b11_0101 }                 // z  dots 1-3-5-6
}

/// The cell of the `index`-th letter, looked up in the letter table.
fn letter_dots(index: u8) -> (r: u8)
    requires
        index < 26,
    ensures
        r == letter_pattern(index as int),
{
    let table: [u8; 26] = [
        0b00_0001, 0b00_0011, 0b00_1001, 0b01_1001, 0b01_0001, 0b00_1011, 0b01_1011,
        0b01_0011, 0b00_1010, 0b01_1010, 0b00_0101, 0b00_0111, 0b00_1101, 0b01_1101,
        0b01_0101, 0b00_1111, 0b01_1111, 0b01_0111, 0b00_1110, 0b01_1110, 0b10_0101,
        0b10_0111, 0b11_1010, 0b10_1101, 0b11_1101, 0b11_0101,
    ];
    table[index as usize]
}

/// ASCII `a`..=`z`.
pub open spec fn is_lower(byte: u8) -> bool {
    0x61 <= byte <= 0x7a
}

/// ASCII `A`..=`Z`.
pub open spec fn is_upper(byte: u8) -> bool {
    0x41 <= byte <= 0x5a
}

/// ASCII `0`..=`9`.
pub open spec fn is_digit(byte: u8) -> bool {
    0x30 <= byte <= 0x39
}

/// The cell of an ASCII lower-case letter; nothing for any other byte.
pub open spec fn spec_letter_cell(letter: u8) -> Option<u8> {
    if is_lower(letter) {
        Some(letter_pattern(letter - 0x61))
    } else {
        None
    }
}

/// The cell for an ASCII lower-case letter `a`..=`z`.
pub fn letter_cell(letter: u8) -> (r: Option<u8>)
    ensures
        r == spec_letter_cell(letter),
{
    if 0x61 <= letter && letter <= 0x7a {
        Some(letter_dots(letter - 0x61))
    } else {
        None
    }
}

/// The cell of an ASCII digit: the letters `a`..=`i` for 1 to 9 and `j` for 0.
pub open spec fn spec_digit_cell(digit: u8) -> Option<u8> {
    if 0x31 <= digit <= 0x39 {
        Some(letter_pattern(digit - 0x31))
    } else if digit == 0x30 {
        Some(letter_pattern(9))
    } else {
        None
    }
}

/// The cell for an ASCII digit, using the letters `a`..=`j` (1-9 then 0). The
/// caller is responsible for the preceding [`NUMBER_SIGN`].
pub fn digit_cell(digit: u8) -> (r: Option<u8>)
    ensures
        r == spec_digit_cell(digit),
{
    if 0x31 <= digit && digit <= 0x39 {
        Some(letter_dots(digit - 0x31))
    } else if digit == 0x30 {
        Some(letter_dots(9))
    } else {
        None
    }
}

/// The cell of a supported ASCII punctuation mark.
pub open spec fn spec_punctuation_cell(byte: u8) -> Option<u8> {
    if byte == 0x2c { Some(0b00_0010u8) }                       // ','  dot 2
    else if byte == 0x3b { Some(0b00_0110u8) }                  // ';'  dots 2-3
    else if byte == 0x3a { Some(0b01_0010u8) }                  // ':'  dots 2-5
    else if byte == 0x2e { Some(0b11_0010u8) }                  // '.'  dots 2-5-6
    else if byte == 0x21 { Some(0b00_1110u8) }                  // '!'  dots 2-3-5
    else if byte == 0x3f { Some(0b10_0110u8) }                  // '?'  dots 2-3-6
    else if byte == 0x27 { Some(0b00_0100u8) }                  // '\'' dot 3
    else if byte == 0x2d { Some(0b10_0100u8) }                  // '-'  dots 3-6
    else if byte == 0x28 || byte == 0x29 { Some(0b10_0011u8) }  // '(' ')'  dots 1-2-6
    else { None }
}

/// The cell for a supported ASCII punctuation mark.
fn punctuation_cell(byte: u8) -> (r: Option<u8>)
    ensures
        r == spec_punctuation_cell(byte),
{
    match byte {
        0x2c => Some(0b00_0010),
        0x3b => Some(0b00_0110),
        0x3a => Some(0b01_0010),
        0x2e => Some(0b11_0010),
        0x21 => Some(0b00_1110),
        0x3f => Some(0b10_0110),
        0x27 => Some(0b00_0100),
        0x2d => Some(0b10_0100),
        0x28 | 0x29 => Some(0b10_0011),
        _ => None,
    }
}

pub open spec fn cell_or_unknown(cell: Option<u8>) -> u8 {
    match cell {
        Some(c) => c,
        None => UNKNOWN,
    }
}

/// The cells one byte of text becomes, given whether it continues a run of
/// digits: a digit opening a run takes a number sign first, an upper-case
/// letter a capital sign, and anything unknown the question mark.
pub open spec fn byte_cells(byte: u8, in_number: bool) -> Seq<u8> {
    if is_digit(byte) {
        if in_number {
            seq![cell_or_unknown(spec_digit_cell(byte))]
        } else {
            seq![NUMBER_SIGN, cell_or_unknown(spec_digit_cell(byte))]
        }
    } else if is_lower(byte) {
        seq![cell_or_unknown(spec_letter_cell(byte))]
    } else if is_upper(byte) {
        seq![CAPITAL_SIGN, cell_or_unknown(spec_letter_cell((byte + 32) as u8))]
    } else if byte == 0x20 {
        seq![SPACE]
    } else {
        seq![cell_or_unknown(spec_punctuation_cell(byte))]
    }
}

/// Whether the byte at `index` continues a run of digits begun before it.
pub open spec fn in_number_at(bytes: Seq<u8>, index: int) -> bool {
    index > 0 && is_digit(bytes[index - 1])
}

/// The cells of the first `n` bytes of a text.
pub open spec fn cells_of_prefix(bytes: Seq<u8>, n: nat) -> Seq<u8>
    decreases n,
{
    if n == 0 {
        Seq::empty()
    } else {
        cells_of_prefix(bytes, (n - 1) as nat) + byte_cells(
            bytes[n - 1],
            in_number_at(bytes, n - 1),
        )
    }
}

/// The complete Grade 1 translation of a text's bytes.
pub open spec fn braille_of(bytes: Seq<u8>) -> Seq<u8> {
    cells_of_prefix(bytes, bytes.len())
}

/// Translating more of a text only ever adds cells at the end.
pub proof fn lemma_translation_extends(bytes: Seq<u8>, m: nat, n: nat)
    requires
        m <= n,
    ensures
        cells_of_prefix(bytes, m).len() <= cells_of_prefix(bytes, n).len(),
        cells_of_prefix(bytes, n).subrange(0, cells_of_prefix(bytes, m).len() as int)
            == cells_of_prefix(bytes, m),
    decreases n - m,
{
    if m < n {
        lemma_translation_extends(bytes, m, (n - 1) as nat);
        let shorter = cells_of_prefix(bytes, (n - 1) as nat);
        let longer = cells_of_prefix(bytes, n);
        assert(longer.subrange(0, shorter.len() as int) =~= shorter);
        assert(longer.subrange(0, cells_of_prefix(bytes, m).len() as int) =~= shorter.subrange(
            0,
            cells_of_prefix(bytes, m).len() as int,
        ));
    }
}

/// The one or two cells for a byte, as a first cell and an optional second.
fn cells_for(byte: u8, in_number: bool) -> (r: (u8, Option<u8>))
    ensures
        byte_cells(byte, in_number) == (match r.1 {
            Some(second) => seq![r.0, second],
            None => seq![r.0],
        }),
{
    if 0x30 <= byte && byte <= 0x39 {
        let cell = match digit_cell(byte) {
            Some(c) => c,
            None => UNKNOWN,
        };
        if in_number {
            (cell, None)
        } else {
            (NUMBER_SIGN, Some(cell))
        }
    } else if 0x61 <= byte && byte <= 0x7a {
        let cell = match letter_cell(byte) {
            Some(c) => c,
            None => UNKNOWN,
        };
        (cell, None)
    } else if 0x41 <= byte && byte <= 0x5a {
        let cell = match letter_cell(byte + 32) {
            Some(c) => c,
            None => UNKNOWN,
        };
        (CAPITAL_SIGN, Some(cell))
    } else if byte == 0x20 {
        (SPACE, None)
    } else {
        let cell = match punctuation_cell(byte) {
            Some(c) => c,
            None => UNKNOWN,
        };
        (cell, None)
    }
}

/// Translate `text` into six-dot braille cells, writing them into `cells` and
/// returning how many were written. Upper-case letters emit a capital sign then
/// the letter; a run of digits is preceded by one number sign. Output is
/// truncated to the length of `cells`.
pub fn translate(text: &str, cells: &mut [u8]) -> (count: usize)
    ensures
        count as int == vstd::math::min(
            old(cells)@.len() as int,
            braille_of(text.spec_bytes()).len() as int,
        ),
        final(cells)@.len() == old(cells)@.len(),
        final(cells)@.subrange(0, count as int) == braille_of(text.spec_bytes()).subrange(
            0,
            count as int,
        ),
        final(cells)@.subrange(count as int, old(cells)@.len() as int) == old(cells)@.subrange(
            count as int,
            old(cells)@.len() as int,
        ),
{
    let bytes = text.as_bytes();
    let capacity = cells.len();
    let mut count: usize = 0;
    let mut in_number = false;
    let mut stopped = false;
    let mut i: usize = 0;
    while i < bytes.len() && !stopped
        invariant
            bytes@ == text.spec_bytes(),
            capacity == cells@.len(),
            cells@.len() == old(cells)@.len(),
            i <= bytes@.len(),
            count <= capacity,
            in_number == in_number_at(bytes@, i as int),
            !stopped ==> count == cells_of_prefix(bytes@, i as nat).len(),
            stopped ==> count == capacity && capacity <= cells_of_prefix(bytes@, i as nat).len(),
            cells@.subrange(0, count as int) == cells_of_prefix(bytes@, i as nat).subrange(
                0,
                count as int,
            ),
            forall|j: int| count <= j < capacity ==> cells@[j] == old(cells)@[j],
        decreases bytes@.len() - i,
    {
        let byte = bytes[i];
        let (first, second) = cells_for(byte, in_number);
        let ghost before = cells_of_prefix(bytes@, i as nat);
        let ghost after = cells_of_prefix(bytes@, (i + 1) as nat);
        let ghost piece = byte_cells(bytes@[i as int], in_number_at(bytes@, i as int));
        assert(after == before + piece);
        let ghost count0 = count;
        let ghost cells0 = cells@;
        assert(count0 == before.len());
        if count < capacity {
            cells[count] = first;
            count = count + 1;
            match second {
                Some(cell) => {
                    if count < capacity {
                        cells[count] = cell;
                        count = count + 1;
                    } else {
                        stopped = true;
                    }
                },
                None => {},
            }
        } else {
            stopped = true;
        }
        assert forall|j: int| 0 <= j < count implies cells@[j] == after[j] by {
            if j < count0 {
                assert(cells0.subrange(0, count0 as int)[j] == before.subrange(0, count0 as int)[j]);
            }
        }
        assert(cells@.subrange(0, count as int) =~= after.subrange(0, count as int));
        in_number = 0x30 <= byte && byte <= 0x39;
        i = i + 1;
    }
    proof {
        let full = braille_of(bytes@);
        lemma_translation_extends(bytes@, i as nat, bytes@.len());
        assert(full.subrange(0, count as int) =~= cells_of_prefix(bytes@, i as nat).subrange(
            0,
            count as int,
        ));
        assert(cells@.subrange(count as int, capacity as int) =~= old(cells)@.subrange(
            count as int,
            capacity as int,
        ));
    }
    count
}

/// The UTF-8 bytes of the Unicode braille glyph for a cell: U+2800 plus its six
/// dots, encoded as E2 A0 (80 | dots).
pub open spec fn glyph_bytes(cell: u8) -> Seq<u8> {
    seq![0xE2u8, 0xA0u8, 0x80u8 | (cell & 0x3Fu8)]
}

/// The glyph bytes of a run of cells, one glyph after another.
pub open spec fn glyphs_of(cells: Seq<u8>) -> Seq<u8>
    decreases cells.len(),
{
    if cells.len() == 0 {
        Seq::empty()
    } else {
        glyphs_of(cells.drop_last()) + glyph_bytes(cells.last())
    }
}

/// Every glyph is a well-formed three-byte UTF-8 encoding.
pub proof fn lemma_glyph_is_utf8(cell: u8)
    ensures
        valid_utf8(glyph_bytes(cell)),
{
    let b = glyph_bytes(cell);
    let last: u8 = 0x80u8 | (cell & 0x3Fu8);
    assert(0x80u8 <= (0x80u8 | (cell & 0x3Fu8)) <= 0xBFu8) by (bit_vector);
    assert(b[2] == last);
    assert(is_leading_byte_width_3(b[0]));
    assert(is_continuation_byte(b[1]));
    assert(is_continuation_byte(b[2]));
    let code = codepoint_width_3(b[0], b[1], b[2]);
    assert(0x2800u32 <= codepoint_width_3(0xE2u8, 0xA0u8, last) <= 0x283Fu32) by (bit_vector)
        requires
            0x80u8 <= last <= 0xBFu8,
    ;
    assert(valid_first_scalar(b));
    assert(pop_first_scalar(b) =~= Seq::<u8>::empty());
    reveal_with_fuel(valid_utf8, 2);
}

/// A run of glyphs is valid UTF-8.
pub proof fn lemma_glyphs_are_utf8(cells: Seq<u8>)
    ensures
        valid_utf8(glyphs_of(cells)),
        glyphs_of(cells).len() == 3 * cells.len(),
    decreases cells.len(),
{
    if cells.len() > 0 {
        lemma_glyphs_are_utf8(cells.drop_last());
        lemma_glyph_is_utf8(cells.last());
        valid_utf8_concat(glyphs_of(cells.drop_last()), glyph_bytes(cells.last()));
    } else {
        reveal_with_fuel(valid_utf8, 1);
    }
}

/// Render braille `cells` as their Unicode braille-pattern glyphs (U+2800..) into
/// `out` as UTF-8, returning the string. Each cell is a three-byte glyph, so a
/// cell whose glyph would not fit is dropped; the returned string is always valid
/// UTF-8.
pub fn to_unicode<'a>(cells: &[u8], out: &'a mut [u8]) -> (r: &'a str)
    ensures
        r.spec_bytes() == glyphs_of(
            cells@.subrange(0, vstd::math::min(cells@.len() as int, old(out)@.len() as int / 3)),
        ),
        final(out)@.len() == old(out)@.len(),
{
    let capacity = out.len();
    let mut length: usize = 0;
    let mut i: usize = 0;
    while i < cells.len() && 3 <= capacity - length
        invariant
            capacity == out@.len(),
            out@.len() == old(out)@.len(),
            i <= cells@.len(),
            length == 3 * i,
            length <= capacity,
            out@.subrange(0, length as int) == glyphs_of(cells@.subrange(0, i as int)),
        decreases cells@.len() - i,
    {
        let cell = cells[i];
        let ghost prior = out@;
        out[length] = 0xE2;
        out[length + 1] = 0xA0;
        out[length + 2] = 0x80 | (cell & 0x3F);
        proof {
            let run = cells@.subrange(0, i + 1);
            assert(run.drop_last() =~= cells@.subrange(0, i as int));
            assert(run.last() == cell);
            assert(out@.subrange(0, length as int) =~= prior.subrange(0, length as int));
            assert(out@.subrange(0, length + 3) =~= out@.subrange(0, length as int)
                + glyph_bytes(cell));
        }
        length = length + 3;
        i = i + 1;
    }
    proof {
        let k = vstd::math::min(cells@.len() as int, old(out)@.len() as int / 3);
        assert(i == k);
        lemma_glyphs_are_utf8(cells@.subrange(0, i as int));
    }
    let written: &'a [u8] = out;
    let prefix = vstd::slice::slice_subrange(written, 0, length);
    match utf8_text(prefix) {
        Some(glyphs) => glyphs,
        None => "",
    }
}

/// Distinct letters always translate to distinct cells, so a braille reader
/// can tell every letter apart.
pub proof fn lemma_letters_are_distinct(a: int, b: int)
    requires
        0 <= a < 26,
        0 <= b < 26,
        a != b,
    ensures
        letter_pattern(a) != letter_pattern(b),
{
}

/// The bit of dot `n` (1 to 6) in a cell: bit `n - 1`.
pub open spec fn dot(n: int) -> int {
    if n == 1 { 1 } else if n == 2 { 2 } else if n == 3 { 4 } else if n == 4 { 8 } else if n == 5 { 16 } else { 32 }
}

/// The cell of the `i`-th letter (0 is `a`).
pub open spec fn letter_at(i: int) -> int {
    spec_letter_cell((0x61 + i) as u8)->Some_0 as int
}

/// The Grade 1 alphabet. The first decade, `a` to `j`, uses the upper four
/// dots: a 1, b 1-2, c 1-4, d 1-4-5, e 1-5, f 1-2-4, g 1-2-4-5, h 1-2-5,
/// i 2-4, j 2-4-5. The second decade, `k` to `t`, adds dot 3 to the first;
/// `u`, `v`, `x`, `y`, `z` add dots 3 and 6 to `a` to `e`; and `w` is `j`
/// with dot 6.
pub proof fn lemma_grade_one_alphabet()
    ensures
        letter_at(0) == dot(1),
        letter_at(1) == dot(1) + dot(2),
        letter_at(2) == dot(1) + dot(4),
        letter_at(3) == dot(1) + dot(4) + dot(5),
        letter_at(4) == dot(1) + dot(5),
        letter_at(5) == dot(1) + dot(2) + dot(4),
        letter_at(6) == dot(1) + dot(2) + dot(4) + dot(5),
        letter_at(7) == dot(1) + dot(2) + dot(5),
        letter_at(8) == dot(2) + dot(4),
        letter_at(9) == dot(2) + dot(4) + dot(5),
        forall|i: int| 0 <= i < 10 ==> #[trigger] letter_at(i + 10) == letter_at(i) + dot(3),
        letter_at(20) == letter_at(0) + dot(3) + dot(6),
        letter_at(21) == letter_at(1) + dot(3) + dot(6),
        letter_at(22) == letter_at(9) + dot(6),
        letter_at(23) == letter_at(2) + dot(3) + dot(6),
        letter_at(24) == letter_at(3) + dot(3) + dot(6),
        letter_at(25) == letter_at(4) + dot(3) + dot(6),
        forall|i: int| 0 <= i < 26 ==> (#[trigger] spec_letter_cell((0x61 + i) as u8)) is Some,
{
    assert forall|i: int| 0 <= i < 10 implies #[trigger] letter_at(i + 10) == letter_at(i) + dot(3) by {
        assert(0 <= i < 10);
    }
}

/// Digits are written with the first decade of letters: 1 to 9 as `a` to
/// `i` and 0 as `j`.
pub proof fn lemma_digits_are_first_decade()
    ensures
        forall|d: int| 1 <= d <= 9 ==> #[trigger] spec_digit_cell((0x30 + d) as u8) == spec_letter_cell(
            (0x61 + d - 1) as u8,
        ),
        spec_digit_cell(0x30) == spec_letter_cell(0x6a),
{
}

} // verus!

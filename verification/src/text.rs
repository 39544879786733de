//! Text primitives of std that the speech and braille paths rely on, with what
//! their documentation promises.

use vstd::prelude::*;
use vstd::string::*;
use vstd::utf8::*;

verus! {

/// `core::str::from_utf8`: accepts exactly the byte sequences that are valid
/// UTF-8, and the text it gives back consists of exactly those bytes. The
/// error value is dropped; only its presence matters here.
#[verifier::external_body]
pub(crate) fn utf8_text(bytes: &[u8]) -> (r: Option<&str>)
    ensures
        match r {
            Some(text) => valid_utf8(bytes@) && text.spec_bytes() == bytes@,
            None => !valid_utf8(bytes@),
        },
{
    core::str::from_utf8(bytes).ok()
}

/// Unicode White_Space, the property `char::is_whitespace` (and so `str::trim`)
/// is defined by.
pub open spec fn is_white_space(c: char) -> bool {
    ||| '\u{9}' <= c <= '\u{d}'
    ||| c == ' '
    ||| c == '\u{85}'
    ||| c == '\u{a0}'
    ||| c == '\u{1680}'
    ||| '\u{2000}' <= c <= '\u{200a}'
    ||| c == '\u{2028}'
    ||| c == '\u{2029}'
    ||| c == '\u{202f}'
    ||| c == '\u{205f}'
    ||| c == '\u{3000}'
}

/// Whether every character of a text is white space (true of the empty text).
pub open spec fn is_blank(text: Seq<char>) -> bool {
    forall|i: int| 0 <= i < text.len() ==> is_white_space(#[trigger] text[i])
}

/// `trimmed` is `text` from its first to its last non-white-space character:
/// white space alone is cut away at either end, and nothing else.
pub open spec fn is_trim_of(trimmed: Seq<char>, text: Seq<char>) -> bool {
    exists|start: int, end: int|
        {
            &&& 0 <= start <= end <= text.len()
            &&& trimmed == text.subrange(start, end)
            &&& forall|i: int| 0 <= i < start ==> is_white_space(#[trigger] text[i])
            &&& forall|i: int| end <= i < text.len() ==> is_white_space(#[trigger] text[i])
            &&& (start < end ==> !is_white_space(text[start]) && !is_white_space(text[end - 1]))
        }
}

/// `str::trim`: the text with leading and trailing white space removed, that
/// is, the stretch of it from its first to its last non-white-space character.
#[verifier::external_body]
pub(crate) fn trimmed(text: &str) -> (r: &str)
    ensures
        is_trim_of(r@, text@),
{
    text.trim()
}

/// A trimmed text is empty exactly when the text was white space throughout.
pub proof fn lemma_trim_blank(trimmed: Seq<char>, text: Seq<char>)
    requires
        is_trim_of(trimmed, text),
    ensures
        trimmed.len() == 0 <==> is_blank(text),
{
    let (start, end) = choose|start: int, end: int|
        {
            &&& 0 <= start <= end <= text.len()
            &&& trimmed == text.subrange(start, end)
            &&& forall|i: int| 0 <= i < start ==> is_white_space(#[trigger] text[i])
            &&& forall|i: int| end <= i < text.len() ==> is_white_space(#[trigger] text[i])
            &&& (start < end ==> !is_white_space(text[start]) && !is_white_space(text[end - 1]))
        };
    if trimmed.len() == 0 {
        assert forall|i: int| 0 <= i < text.len() implies is_white_space(#[trigger] text[i]) by {
            if i >= end {
            } else {
                assert(i < start);
            }
        }
    } else {
        assert(!is_white_space(text[start]));
    }
}

/// Whether a text holds nothing but white space, decided by trimming it.
pub(crate) fn is_blank_text(text: &str) -> (r: bool)
    ensures
        r == is_blank(text@),
{
    let rest = trimmed(text);
    proof {
        lemma_trim_blank(rest@, text@);
    }
    rest.is_empty()
}

/// Whether a UTF-16 code unit is half of a surrogate pair.
pub open spec fn is_surrogate(unit: u16) -> bool {
    0xd800 <= unit <= 0xdfff
}

/// Whether a UTF-16 code unit is the leading (high) half of a surrogate pair.
pub open spec fn is_high_surrogate(unit: u16) -> bool {
    0xd800 <= unit <= 0xdbff
}

/// Whether a UTF-16 code unit is the trailing (low) half of a surrogate pair.
pub open spec fn is_low_surrogate(unit: u16) -> bool {
    0xdc00 <= unit <= 0xdfff
}

/// Lossy UTF-16 decoding: a unit that is no surrogate is the character of
/// that code point, a high surrogate followed by a low one is the
/// supplementary character they encode, and any other surrogate stands alone
/// and becomes U+FFFD, decoding going on with the unit after it.
pub open spec fn utf16_lossy(units: Seq<u16>) -> Seq<char>
    decreases units.len(),
{
    if units.len() == 0 {
        Seq::empty()
    } else if !is_surrogate(units[0]) {
        seq![units[0] as char] + utf16_lossy(units.drop_first())
    } else if is_high_surrogate(units[0]) && units.len() > 1 && is_low_surrogate(units[1]) {
        let code = 0x10000 + (units[0] - 0xd800) * 0x400 + (units[1] - 0xdc00);
        seq![code as char] + utf16_lossy(units.subrange(2, units.len() as int))
    } else {
        seq!['\u{fffd}'] + utf16_lossy(units.drop_first())
    }
}

/// `String::from_utf16_lossy`: decodes UTF-16, putting U+FFFD in place of
/// each unpaired surrogate.
#[verifier::external_body]
pub(crate) fn decode_utf16_lossy(units: &[u16]) -> (r: String)
    ensures
        r@ == utf16_lossy(units@),
{
    String::from_utf16_lossy(units)
}

/// The text that the bytes encode as UTF-8, trimmed, when they are valid UTF-8
/// and not blank; `fallback` otherwise.
pub(crate) fn trimmed_utf8_or<'a>(bytes: &'a [u8], fallback: &'a str) -> (r: &'a str)
    ensures
        valid_utf8(bytes@) && !is_blank(decode_utf8(bytes@)) ==> is_trim_of(r@, decode_utf8(bytes@)),
        !(valid_utf8(bytes@) && !is_blank(decode_utf8(bytes@))) ==> r == fallback,
{
    broadcast use vstd::utf8::encode_utf8_decode_utf8;
    match utf8_text(bytes) {
        Some(text) => {
            let rest = trimmed(text);
            proof {
                lemma_trim_blank(rest@, text@);
                assert(decode_utf8(bytes@) == text@);
            }
            if rest.is_empty() {
                fallback
            } else {
                rest
            }
        },
        None => fallback,
    }
}

/// Whether two texts are the same, compared byte by byte.
pub(crate) fn same_text(a: &str, b: &str) -> (r: bool)
    ensures
        r == (a@ == b@),
{
    broadcast use vstd::utf8::encode_utf8_decode_utf8;
    let x = a.as_bytes();
    let y = b.as_bytes();
    if x.len() != y.len() {
        proof {
            if a@ == b@ {
                assert(x@ == y@);
            }
        }
        return false;
    }
    let mut i: usize = 0;
    while i < x.len()
        invariant
            x.len() == y.len(),
            x@ == a.spec_bytes(),
            y@ == b.spec_bytes(),
            i <= x.len(),
            forall|j: int| 0 <= j < i ==> x@[j] == y@[j],
        decreases x.len() - i,
    {
        if x[i] != y[i] {
            proof {
                if a@ == b@ {
                    assert(x@ == y@);
                }
            }
            return false;
        }
        i = i + 1;
    }
    proof {
        assert(x@ =~= y@);
        assert(a@ == decode_utf8(a.spec_bytes()));
        assert(b@ == decode_utf8(b.spec_bytes()));
    }
    true
}

} // verus!

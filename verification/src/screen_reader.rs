//! The announcement engine of the native screen reader.
//!
//! Given a focused semantic node, or an accessibility event on one, this
//! decides the single utterance a blind user hears. It draws, speaks and reads
//! nothing: it turns semantics into text, composed into a caller-provided byte
//! buffer so the same code runs without a heap. The text stays valid UTF-8 even
//! when the buffer is too small: an append that does not fit is cut on a
//! character boundary and the utterance reports that it was truncated.
//!
//! A focus announcement is composed in a fixed order, comma-separated the way a
//! speech engine phrases a pause:
//!
//! ```text
//! <name>, <role>, <states>, <value>, <position in set>, <description>
//! ```
//!
//! Empty parts are dropped and no separator is emitted for them; plain static
//! text speaks no role word.

use vstd::prelude::*;
use vstd::string::*;
use vstd::utf8::*;
use crate::text::{is_blank, is_blank_text, utf8_text};

pub mod semantics;
pub mod focus;

use crate::screen_reader::semantics::{
    AccessibilityEvent, Role, SemanticNode, CHECKED, DISABLED, EXPANDED, READ_ONLY, SELECTED,
};

verus! {

broadcast use vstd::utf8::encode_utf8_valid_utf8;

/// What an utterance holds: its UTF-8 bytes, and whether some append was cut
/// short for lack of room.
pub struct Spoken {
    pub bytes: Seq<u8>,
    pub truncated: bool,
}

/// The utterance before anything is said.
pub open spec fn silence() -> Spoken {
    Spoken { bytes: Seq::empty(), truncated: false }
}

/// Whether `k` is a character boundary of the UTF-8 text `bytes`: its start,
/// its end, or the position of a byte that is not a continuation byte.
pub open spec fn is_cut(bytes: Seq<u8>, k: int) -> bool {
    k == 0 || k == bytes.len() || (0 < k < bytes.len() && !is_continuation_byte(bytes[k]))
}

/// The longest prefix of `bytes`, at most `room` long, that ends on a
/// character boundary.
pub open spec fn longest_cut(bytes: Seq<u8>, room: int) -> int
    decreases room,
{
    if room <= 0 {
        0
    } else if is_cut(bytes, room) {
        room
    } else {
        longest_cut(bytes, room - 1)
    }
}

/// Appending raw text to an utterance that holds at most `capacity` bytes:
/// text that fits is appended whole; otherwise its longest prefix that fits and
/// ends on a character boundary is, and the utterance is marked truncated.
pub open spec fn spec_append(s: Spoken, capacity: int, bytes: Seq<u8>) -> Spoken {
    if s.bytes.len() + bytes.len() <= capacity {
        Spoken { bytes: s.bytes + bytes, truncated: s.truncated }
    } else {
        Spoken {
            bytes: s.bytes + bytes.subrange(0, longest_cut(bytes, capacity - s.bytes.len())),
            truncated: true,
        }
    }
}

/// The pause between two announced facts.
pub open spec fn separator() -> Seq<u8> {
    ", ".spec_bytes()
}

/// Appending a phrase: nothing for an empty phrase; otherwise the phrase,
/// preceded by a separator when the utterance already holds text.
pub open spec fn spec_phrase(s: Spoken, capacity: int, text: Seq<char>) -> Spoken {
    if text.len() == 0 {
        s
    } else if s.bytes.len() != 0 {
        spec_append(spec_append(s, capacity, separator()), capacity, encode_utf8(text))
    } else {
        spec_append(s, capacity, encode_utf8(text))
    }
}

/// The ASCII decimal digits of `value`, most significant first.
pub open spec fn decimal(value: nat) -> Seq<u8>
    decreases value,
{
    if value < 10 {
        seq![(0x30 + value) as u8]
    } else {
        decimal(value / 10).push((0x30 + value % 10) as u8)
    }
}

/// The word between a position and a set size.
pub open spec fn of_word() -> Seq<u8> {
    " of ".spec_bytes()
}

/// Appending a `<position> of <set_size>` phrase; nothing when either is
/// unknown (zero).
pub open spec fn spec_position(s: Spoken, capacity: int, position: u32, set_size: u32) -> Spoken {
    if position == 0 || set_size == 0 {
        s
    } else {
        let opened = if s.bytes.len() != 0 {
            spec_append(s, capacity, separator())
        } else {
            s
        };
        spec_append(
            spec_append(spec_append(opened, capacity, decimal(position as nat)), capacity, of_word()),
            capacity,
            decimal(set_size as nat),
        )
    }
}

/// The composition state behind an utterance: how many bytes of the buffer
/// hold text, and whether an append was cut short.
struct Cursor {
    len: usize,
    truncated: bool,
}

impl Cursor {
    spec fn fits(&self, buffer: Seq<u8>) -> bool {
        self.len <= buffer.len() && valid_utf8(buffer.subrange(0, self.len as int))
    }

    spec fn spoken(&self, buffer: Seq<u8>) -> Spoken {
        Spoken { bytes: buffer.subrange(0, self.len as int), truncated: self.truncated }
    }

    fn start(buffer: &[u8]) -> (r: Self)
        ensures
            r.fits(buffer@),
            r.spoken(buffer@) == silence(),
    {
        assert(buffer@.subrange(0, 0) =~= Seq::<u8>::empty());
        Cursor { len: 0, truncated: false }
    }
}

proof fn lemma_longest_cut(bytes: Seq<u8>, room: int)
    requires
        valid_utf8(bytes),
        room < bytes.len(),
    ensures
        0 <= longest_cut(bytes, room),
        room >= 0 ==> longest_cut(bytes, room) <= room,
        is_char_boundary(bytes, longest_cut(bytes, room)),
    decreases room,
{
    if room <= 0 {
        is_char_boundary_start_end_of_seq(bytes);
    } else if is_cut(bytes, room) {
        is_char_boundary_iff_not_is_continuation_byte(bytes, room);
    } else {
        lemma_longest_cut(bytes, room - 1);
    }
}

/// How much of `bytes` an append with `room` bytes left takes.
fn fitting_prefix(bytes: &[u8], room: usize) -> (take: usize)
    ensures
        take == (if bytes@.len() <= room {
            bytes@.len() as int
        } else {
            longest_cut(bytes@, room as int)
        }),
        take <= bytes@.len(),
        take <= room,
{
    if bytes.len() <= room {
        return bytes.len();
    }
    let mut t = room;
    while t > 0 && 0x80u8 <= bytes[t] && bytes[t] <= 0xbfu8
        invariant
            t <= room < bytes@.len(),
            longest_cut(bytes@, t as int) == longest_cut(bytes@, room as int),
        decreases t,
    {
        t = t - 1;
    }
    t
}

/// Copy the first `take` bytes of `bytes` into `buffer` at `at`.
fn copy_into(buffer: &mut [u8], at: usize, bytes: &[u8], take: usize)
    requires
        take <= bytes@.len(),
        at + take <= old(buffer)@.len(),
    ensures
        final(buffer)@.len() == old(buffer)@.len(),
        final(buffer)@.subrange(0, at + take) == old(buffer)@.subrange(0, at as int)
            + bytes@.subrange(0, take as int),
{
    let mut i: usize = 0;
    while i < take
        invariant
            take <= bytes@.len(),
            at + take <= buffer.len(),
            buffer@.len() == old(buffer)@.len(),
            forall|j: int| 0 <= j < at ==> buffer@[j] == old(buffer)@[j],
            forall|j: int| 0 <= j < i ==> buffer@[at + j] == bytes@[j],
            i <= take,
        decreases take - i,
    {
        buffer[at + i] = bytes[i];
        i = i + 1;
    }
    assert(buffer@.subrange(0, at + take) =~= old(buffer)@.subrange(0, at as int)
        + bytes@.subrange(0, take as int));
}

/// Append raw UTF-8 text, cutting it on a character boundary if it does not fit.
fn append(buffer: &mut [u8], cursor: &mut Cursor, bytes: &[u8])
    requires
        old(cursor).fits(old(buffer)@),
        valid_utf8(bytes@),
    ensures
        final(cursor).fits(final(buffer)@),
        final(buffer)@.len() == old(buffer)@.len(),
        final(cursor).spoken(final(buffer)@) == spec_append(
            old(cursor).spoken(old(buffer)@),
            old(buffer)@.len() as int,
            bytes@,
        ),
{
    let remaining = buffer.len() - cursor.len;
    let take = fitting_prefix(bytes, remaining);
    let at = cursor.len;
    let ghost before = buffer@;
    proof {
        if take < bytes@.len() {
            lemma_longest_cut(bytes@, remaining as int);
        }
    }
    copy_into(buffer, at, bytes, take);
    proof {
        assert(buffer@.subrange(0, at + take) =~= before.subrange(0, at as int)
            + bytes@.subrange(0, take as int));
        if take < bytes@.len() {
            valid_utf8_split(bytes@, take as int);
        } else {
            assert(bytes@.subrange(0, take as int) =~= bytes@);
        }
        valid_utf8_concat(before.subrange(0, at as int), bytes@.subrange(0, take as int));
    }
    cursor.len = at + take;
    if take < bytes.len() {
        cursor.truncated = true;
    }
}

/// Append one phrase, preceded by a separator when text is already there.
fn phrase_into(buffer: &mut [u8], cursor: &mut Cursor, text: &str)
    requires
        old(cursor).fits(old(buffer)@),
    ensures
        final(cursor).fits(final(buffer)@),
        final(buffer)@.len() == old(buffer)@.len(),
        final(cursor).spoken(final(buffer)@) == spec_phrase(
            old(cursor).spoken(old(buffer)@),
            old(buffer)@.len() as int,
            text@,
        ),
{
    if text.is_empty() {
        return;
    }
    if cursor.len != 0 {
        append(buffer, cursor, ", ".as_bytes());
    }
    append(buffer, cursor, text.as_bytes());
}

proof fn lemma_decimal_is_ascii_digits(value: nat)
    ensures
        decimal(value).len() >= 1,
        forall|i: int| 0 <= i < decimal(value).len() ==> 0x30 <= #[trigger] decimal(value)[i] <= 0x39,
    decreases value,
{
    if value >= 10 {
        lemma_decimal_is_ascii_digits(value / 10);
    }
}

proof fn lemma_decimal_is_utf8(value: nat)
    ensures
        valid_utf8(decimal(value)),
{
    let digits = decimal(value);
    lemma_decimal_is_ascii_digits(value);
    assert(digits.subrange(0, 0) =~= Seq::<u8>::empty());
    assert(partial_valid_utf8(digits, 0));
    partial_valid_utf8_extend_ascii_block(digits, 0, digits.len() as int);
    assert(digits.subrange(0, digits.len() as int) =~= digits);
}

/// Push the decimal digits of `value`, most significant first.
fn push_decimal(out: &mut Vec<u8>, value: u32)
    ensures
        final(out)@ == old(out)@ + decimal(value as nat),
    decreases value,
{
    if value >= 10 {
        push_decimal(out, value / 10);
    }
    out.push(0x30 + (value % 10) as u8);
    proof {
        if value >= 10 {
            assert(decimal(value as nat) == decimal((value / 10) as nat).push(
                (0x30 + value % 10) as u8,
            ));
        }
    }
}

/// Append a decimal integer.
fn append_decimal(buffer: &mut [u8], cursor: &mut Cursor, value: u32)
    requires
        old(cursor).fits(old(buffer)@),
    ensures
        final(cursor).fits(final(buffer)@),
        final(buffer)@.len() == old(buffer)@.len(),
        final(cursor).spoken(final(buffer)@) == spec_append(
            old(cursor).spoken(old(buffer)@),
            old(buffer)@.len() as int,
            decimal(value as nat),
        ),
{
    let mut digits: Vec<u8> = Vec::new();
    push_decimal(&mut digits, value);
    assert(digits@ =~= decimal(value as nat));
    proof {
        lemma_decimal_is_utf8(value as nat);
    }
    append(buffer, cursor, digits.as_slice());
}

/// Append a `<position> of <set_size>` phrase.
fn position_into(buffer: &mut [u8], cursor: &mut Cursor, position: u32, set_size: u32)
    requires
        old(cursor).fits(old(buffer)@),
    ensures
        final(cursor).fits(final(buffer)@),
        final(buffer)@.len() == old(buffer)@.len(),
        final(cursor).spoken(final(buffer)@) == spec_position(
            old(cursor).spoken(old(buffer)@),
            old(buffer)@.len() as int,
            position,
            set_size,
        ),
{
    if position == 0 || set_size == 0 {
        return;
    }
    if cursor.len != 0 {
        append(buffer, cursor, ", ".as_bytes());
    }
    append_decimal(buffer, cursor, position);
    append(buffer, cursor, " of ".as_bytes());
    append_decimal(buffer, cursor, set_size);
}

/// Hand out the composed text of the first `len` bytes of a buffer.
fn composed_text<'b>(buffer: &'b [u8], len: usize) -> (r: &'b str)
    requires
        len <= buffer@.len(),
        valid_utf8(buffer@.subrange(0, len as int)),
    ensures
        r.spec_bytes() == buffer@.subrange(0, len as int),
{
    let prefix = vstd::slice::slice_subrange(buffer, 0, len);
    match utf8_text(prefix) {
        Some(text) => text,
        None => "",
    }
}

/// A speech utterance being composed into a fixed byte buffer.
///
/// Phrases are appended with [`Utterance::phrase`]; the first non-empty phrase
/// stands alone and each later one is preceded by `", "`, matching how a speech
/// engine pauses between announced facts. The buffer is never overrun: an append
/// that would not fit is truncated on a UTF-8 boundary and [`Utterance::truncated`]
/// becomes true.
pub struct Utterance<'a> {
    buffer: &'a mut [u8],
    cursor: Cursor,
}

impl<'a> Utterance<'a> {
    /// The composed bytes sit at the start of the buffer and are valid UTF-8.
    pub closed spec fn wf(self) -> bool {
        self.cursor.fits(self.buffer@)
    }

    /// What the utterance holds so far.
    pub closed spec fn spoken(self) -> Spoken {
        self.cursor.spoken(self.buffer@)
    }

    /// How many bytes the buffer holds.
    pub closed spec fn capacity(self) -> nat {
        self.buffer@.len()
    }

    /// Start composing into `buffer`.
    pub fn new(buffer: &'a mut [u8]) -> (r: Self)
        ensures
            r.wf(),
            r.spoken() == silence(),
            r.capacity() == old(buffer)@.len(),
    {
        let cursor = Cursor::start(buffer);
        Utterance { buffer, cursor }
    }

    /// Append one phrase. Empty phrases are ignored; a non-empty phrase after an
    /// earlier one is separated by `", "`.
    pub fn phrase(&mut self, text: &str)
        requires
            old(self).wf(),
        ensures
            final(self).wf(),
            final(self).capacity() == old(self).capacity(),
            final(self).spoken() == spec_phrase(
                old(self).spoken(),
                old(self).capacity() as int,
                text@,
            ),
    {
        phrase_into(self.buffer, &mut self.cursor, text);
    }

    /// Append a `<position> of <set_size>` phrase, e.g. `2 of 5`.
    pub fn position(&mut self, position: u32, set_size: u32)
        requires
            old(self).wf(),
        ensures
            final(self).wf(),
            final(self).capacity() == old(self).capacity(),
            final(self).spoken() == spec_position(
                old(self).spoken(),
                old(self).capacity() as int,
                position,
                set_size,
            ),
    {
        position_into(self.buffer, &mut self.cursor, position, set_size);
    }

    /// The composed utterance so far.
    pub fn as_str(&self) -> (r: &str)
        requires
            self.wf(),
        ensures
            r.spec_bytes() == self.spoken().bytes,
    {
        let written: &[u8] = self.buffer;
        composed_text(written, self.cursor.len)
    }

    /// Length in bytes of the composed utterance.
    pub fn len(&self) -> (r: usize)
        requires
            self.wf(),
        ensures
            r == self.spoken().bytes.len(),
    {
        self.cursor.len
    }

    /// Whether the utterance is empty.
    pub fn is_empty(&self) -> (r: bool)
        requires
            self.wf(),
        ensures
            r == (self.spoken().bytes.len() == 0),
    {
        self.cursor.len == 0
    }

    /// Whether any append was truncated for lack of room.
    pub fn truncated(&self) -> (r: bool)
        ensures
            r == self.spoken().truncated,
    {
        self.cursor.truncated
    }
}

/// Where a focused node sits in a set of siblings, for a "2 of 5" announcement.
/// [`FocusContext::none`] suppresses it.
#[derive(Clone, Copy, Debug, PartialEq, Eq, Structural)]
pub struct FocusContext {
    /// One-based position of the node among its announced siblings; 0 = unknown.
    pub position_in_set: u32,
    /// Number of announced siblings; 0 = unknown.
    pub set_size: u32,
}

impl FocusContext {
    /// No positional information.
    pub fn none() -> (r: Self)
        ensures
            r.position_in_set == 0,
            r.set_size == 0,
    {
        Self { position_in_set: 0, set_size: 0 }
    }

    /// A node at `position` (one-based) within a set of `set_size`.
    pub fn in_set(position: u32, set_size: u32) -> (r: Self)
        ensures
            r.position_in_set == position,
            r.set_size == set_size,
    {
        Self { position_in_set: position, set_size }
    }
}

/// The spoken word for a role: plain and lowercase, the way a screen reader
/// names a control after its accessible name.
pub open spec fn spec_role_label(role: Role) -> &'static str {
    match role {
        Role::Application => "application",
        Role::Window => "window",
        Role::Dialog => "dialog",
        Role::Button => "button",
        Role::CheckBox => "check box",
        Role::ComboBox => "combo box",
        Role::Edit => "edit",
        Role::Heading => "heading",
        Role::Image => "image",
        Role::Link => "link",
        Role::List => "list",
        Role::ListItem => "list item",
        Role::Menu => "menu",
        Role::MenuItem => "menu item",
        Role::ProgressBar => "progress bar",
        Role::Slider => "slider",
        Role::StaticText => "text",
        Role::Tab => "tab",
        Role::TabItem => "tab",
        Role::Table => "table",
        Role::TableCell => "cell",
        Role::Tree => "tree",
        Role::TreeItem => "tree item",
        Role::Terminal => "terminal",
    }
}

/// The spoken word for a role. Plain, lowercase, the way a screen reader names a
/// control after its accessible name.
pub fn role_label(role: Role) -> (r: &'static str)
    ensures
        r == spec_role_label(role),
{
    match role {
        Role::Application => "application",
        Role::Window => "window",
        Role::Dialog => "dialog",
        Role::Button => "button",
        Role::CheckBox => "check box",
        Role::ComboBox => "combo box",
        Role::Edit => "edit",
        Role::Heading => "heading",
        Role::Image => "image",
        Role::Link => "link",
        Role::List => "list",
        Role::ListItem => "list item",
        Role::Menu => "menu",
        Role::MenuItem => "menu item",
        Role::ProgressBar => "progress bar",
        Role::Slider => "slider",
        Role::StaticText => "text",
        Role::Tab => "tab",
        Role::TabItem => "tab",
        Role::Table => "table",
        Role::TableCell => "cell",
        Role::Tree => "tree",
        Role::TreeItem => "tree item",
        Role::Terminal => "terminal",
    }
}

/// Roles whose state bit for "selected" is announced.
pub open spec fn announces_selection(role: Role) -> bool {
    role is TabItem || role is ListItem || role is TreeItem || role is TableCell
}

/// The state phrases of a focused node, in operating-relevant order:
/// unavailable; checked or not checked for a check box; expanded or collapsed
/// (always for a combo box, and "expanded" for an open tree or menu item);
/// selected; read only for an edit.
pub open spec fn spec_states(s: Spoken, capacity: int, node: SemanticNode) -> Spoken {
    let state = node.state;
    let role = node.role;
    let s1 = if state.has(DISABLED) {
        spec_phrase(s, capacity, "unavailable"@)
    } else {
        s
    };
    let s2 = if role is CheckBox {
        spec_phrase(s1, capacity, (if state.has(CHECKED) { "checked" } else { "not checked" })@)
    } else {
        s1
    };
    let s3 = if role is ComboBox {
        spec_phrase(s2, capacity, (if state.has(EXPANDED) { "expanded" } else { "collapsed" })@)
    } else if state.has(EXPANDED) && (role is TreeItem || role is MenuItem) {
        spec_phrase(s2, capacity, "expanded"@)
    } else {
        s2
    };
    let s4 = if state.has(SELECTED) && announces_selection(role) {
        spec_phrase(s3, capacity, "selected"@)
    } else {
        s3
    };
    if role is Edit && state.has(READ_ONLY) {
        spec_phrase(s4, capacity, "read only"@)
    } else {
        s4
    }
}

/// Append the state phrases for a focused node, in operating-relevant order.
fn states_into(buffer: &mut [u8], cursor: &mut Cursor, node: &SemanticNode)
    requires
        old(cursor).fits(old(buffer)@),
    ensures
        final(cursor).fits(final(buffer)@),
        final(buffer)@.len() == old(buffer)@.len(),
        final(cursor).spoken(final(buffer)@) == spec_states(
            old(cursor).spoken(old(buffer)@),
            old(buffer)@.len() as int,
            *node,
        ),
{
    let state = node.state;
    if state.contains(DISABLED) {
        phrase_into(buffer, cursor, "unavailable");
    }
    if let Role::CheckBox = node.role {
        let word = if state.contains(CHECKED) {
            "checked"
        } else {
            "not checked"
        };
        phrase_into(buffer, cursor, word);
    }
    // Expanded/collapsed: always for a combo box; for tree and menu items only
    // when actually expanded, since a leaf that never expands has the bit clear
    // and must not be announced as "collapsed".
    match node.role {
        Role::ComboBox => {
            let word = if state.contains(EXPANDED) {
                "expanded"
            } else {
                "collapsed"
            };
            phrase_into(buffer, cursor, word);
        },
        Role::TreeItem | Role::MenuItem => {
            if state.contains(EXPANDED) {
                phrase_into(buffer, cursor, "expanded");
            }
        },
        _ => {},
    }
    if state.contains(SELECTED) {
        match node.role {
            Role::TabItem | Role::ListItem | Role::TreeItem | Role::TableCell => {
                phrase_into(buffer, cursor, "selected");
            },
            _ => {},
        }
    }
    if let Role::Edit = node.role {
        if state.contains(READ_ONLY) {
            phrase_into(buffer, cursor, "read only");
        }
    }
}

/// The current value of a node that has one: a slider's or progress bar's
/// value, an edit's text or "blank" when it holds only white space, a combo
/// box's selection.
pub open spec fn spec_value(s: Spoken, capacity: int, node: SemanticNode) -> Spoken {
    match node.role {
        Role::Slider | Role::ProgressBar | Role::ComboBox => spec_phrase(
            s,
            capacity,
            node.value@,
        ),
        Role::Edit => if is_blank(node.value@) {
            spec_phrase(s, capacity, "blank"@)
        } else {
            spec_phrase(s, capacity, node.value@)
        },
        _ => s,
    }
}

/// Append the current value of a node that has one.
fn value_into(buffer: &mut [u8], cursor: &mut Cursor, node: &SemanticNode)
    requires
        old(cursor).fits(old(buffer)@),
    ensures
        final(cursor).fits(final(buffer)@),
        final(buffer)@.len() == old(buffer)@.len(),
        final(cursor).spoken(final(buffer)@) == spec_value(
            old(cursor).spoken(old(buffer)@),
            old(buffer)@.len() as int,
            *node,
        ),
{
    match node.role {
        Role::Slider | Role::ProgressBar => phrase_into(buffer, cursor, node.value),
        Role::Edit => {
            if is_blank_text(node.value) {
                phrase_into(buffer, cursor, "blank");
            } else {
                phrase_into(buffer, cursor, node.value);
            }
        },
        Role::ComboBox => phrase_into(buffer, cursor, node.value),
        _ => {},
    }
}

/// The utterance for focus landing on `node`, in a buffer of `capacity` bytes:
/// name, role word (none for static text), states, value, position in set,
/// description.
pub open spec fn spec_focus(node: SemanticNode, context: FocusContext, capacity: int) -> Spoken {
    let named = spec_phrase(silence(), capacity, node.name@);
    let with_role = if node.role is StaticText {
        named
    } else {
        spec_phrase(named, capacity, spec_role_label(node.role)@)
    };
    let with_states = spec_states(with_role, capacity, node);
    let with_value = spec_value(with_states, capacity, node);
    let placed = spec_position(with_value, capacity, context.position_in_set, context.set_size);
    spec_phrase(placed, capacity, node.description@)
}

/// Compose the utterance spoken when focus lands on `node`, writing it into
/// `buffer` and returning it. `context` supplies a "position of size" phrase when
/// known; pass [`FocusContext::none`] otherwise.
pub fn announce_focus<'a>(node: &SemanticNode, context: FocusContext, buffer: &'a mut [u8]) -> (r:
    &'a str)
    ensures
        r.spec_bytes() == spec_focus(*node, context, old(buffer)@.len() as int).bytes,
        final(buffer)@.len() == old(buffer)@.len(),
{
    let mut cursor = Cursor::start(buffer);
    phrase_into(buffer, &mut cursor, node.name);
    match node.role {
        Role::StaticText => {},
        _ => phrase_into(buffer, &mut cursor, role_label(node.role)),
    }
    states_into(buffer, &mut cursor, node);
    value_into(buffer, &mut cursor, node);
    position_into(buffer, &mut cursor, context.position_in_set, context.set_size);
    phrase_into(buffer, &mut cursor, node.description);
    let length = cursor.len;
    let written: &'a [u8] = buffer;
    composed_text(written, length)
}

/// The utterance for `event` firing on `node`: a focus change speaks the full
/// focus announcement; a state or value change speaks only the states or the
/// value; a name change or live region speaks the name; structural churn is
/// silent.
pub open spec fn spec_event(event: AccessibilityEvent, node: SemanticNode, capacity: int) -> Seq<u8> {
    match event {
        AccessibilityEvent::FocusChanged(_) => spec_focus(node, FocusContext { position_in_set: 0, set_size: 0 }, capacity).bytes,
        AccessibilityEvent::StateChanged(_) => spec_states(silence(), capacity, node).bytes,
        AccessibilityEvent::ValueChanged(_) => spec_value(silence(), capacity, node).bytes,
        AccessibilityEvent::NameChanged(_) | AccessibilityEvent::LiveRegionChanged(_) => spec_phrase(
            silence(),
            capacity,
            node.name@,
        ).bytes,
        AccessibilityEvent::ChildrenChanged(_) => Seq::empty(),
    }
}

/// Compose the utterance spoken when `event` fires on `node`, writing it into
/// `buffer`. Returns the text, which is empty for events a screen reader does not
/// voice on their own (for example a silent children-changed).
pub fn announce_event<'a>(event: AccessibilityEvent, node: &SemanticNode, buffer: &'a mut [u8]) -> (r:
    &'a str)
    ensures
        r.spec_bytes() == spec_event(event, *node, old(buffer)@.len() as int),
        final(buffer)@.len() == old(buffer)@.len(),
{
    match event {
        AccessibilityEvent::FocusChanged(_) => announce_focus(node, FocusContext::none(), buffer),
        AccessibilityEvent::StateChanged(_) => {
            let mut cursor = Cursor::start(buffer);
            states_into(buffer, &mut cursor, node);
            let length = cursor.len;
            let written: &'a [u8] = buffer;
            composed_text(written, length)
        },
        AccessibilityEvent::ValueChanged(_) => {
            let mut cursor = Cursor::start(buffer);
            value_into(buffer, &mut cursor, node);
            let length = cursor.len;
            let written: &'a [u8] = buffer;
            composed_text(written, length)
        },
        // A live region and a renamed node both speak their current text; a bare
        // name change on the focused control is voiced the same way.
        AccessibilityEvent::NameChanged(_) | AccessibilityEvent::LiveRegionChanged(_) => {
            let mut cursor = Cursor::start(buffer);
            phrase_into(buffer, &mut cursor, node.name);
            let length = cursor.len;
            let written: &'a [u8] = buffer;
            composed_text(written, length)
        },
        // Structural churn is not spoken on its own; the next focus move is.
        AccessibilityEvent::ChildrenChanged(_) => {
            proof {
                reveal_strlit("");
            }
            ""
        },
    }
}

/// An utterance that respects a buffer of `capacity` bytes: no longer than the
/// buffer, and valid UTF-8.
pub open spec fn within(s: Spoken, capacity: int) -> bool {
    s.bytes.len() <= capacity && valid_utf8(s.bytes)
}

/// Appending valid UTF-8 never overruns the buffer nor breaks the encoding.
pub proof fn lemma_append_within(s: Spoken, capacity: int, bytes: Seq<u8>)
    requires
        within(s, capacity),
        valid_utf8(bytes),
    ensures
        within(spec_append(s, capacity, bytes), capacity),
        s.truncated ==> spec_append(s, capacity, bytes).truncated,
{
    if s.bytes.len() + bytes.len() <= capacity {
        valid_utf8_concat(s.bytes, bytes);
    } else {
        let room = capacity - s.bytes.len();
        lemma_longest_cut(bytes, room);
        let kept = bytes.subrange(0, longest_cut(bytes, room));
        valid_utf8_split(bytes, longest_cut(bytes, room));
        valid_utf8_concat(s.bytes, kept);
    }
}

/// A phrase keeps an utterance within its buffer.
pub proof fn lemma_phrase_within(s: Spoken, capacity: int, text: Seq<char>)
    requires
        within(s, capacity),
    ensures
        within(spec_phrase(s, capacity, text), capacity),
        s.truncated ==> spec_phrase(s, capacity, text).truncated,
{
    if text.len() != 0 {
        if s.bytes.len() != 0 {
            lemma_append_within(s, capacity, separator());
            lemma_append_within(spec_append(s, capacity, separator()), capacity, encode_utf8(text));
        } else {
            lemma_append_within(s, capacity, encode_utf8(text));
        }
    }
}

/// A position phrase keeps an utterance within its buffer.
pub proof fn lemma_position_within(s: Spoken, capacity: int, position: u32, set_size: u32)
    requires
        within(s, capacity),
    ensures
        within(spec_position(s, capacity, position, set_size), capacity),
        s.truncated ==> spec_position(s, capacity, position, set_size).truncated,
{
    if position != 0 && set_size != 0 {
        let opened = if s.bytes.len() != 0 {
            spec_append(s, capacity, separator())
        } else {
            s
        };
        if s.bytes.len() != 0 {
            lemma_append_within(s, capacity, separator());
        }
        lemma_decimal_is_utf8(position as nat);
        lemma_decimal_is_utf8(set_size as nat);
        let first = spec_append(opened, capacity, decimal(position as nat));
        lemma_append_within(opened, capacity, decimal(position as nat));
        lemma_append_within(first, capacity, of_word());
        lemma_append_within(spec_append(first, capacity, of_word()), capacity, decimal(set_size as nat));
    }
}

/// State phrases keep an utterance within its buffer.
pub proof fn lemma_states_within(s: Spoken, capacity: int, node: SemanticNode)
    requires
        within(s, capacity),
    ensures
        within(spec_states(s, capacity, node), capacity),
        s.truncated ==> spec_states(s, capacity, node).truncated,
{
    let state = node.state;
    let role = node.role;
    lemma_phrase_within(s, capacity, "unavailable"@);
    let s1 = if state.has(DISABLED) { spec_phrase(s, capacity, "unavailable"@) } else { s };
    let w2 = (if state.has(CHECKED) { "checked" } else { "not checked" })@;
    lemma_phrase_within(s1, capacity, w2);
    let s2 = if role is CheckBox { spec_phrase(s1, capacity, w2) } else { s1 };
    let w3 = (if state.has(EXPANDED) { "expanded" } else { "collapsed" })@;
    lemma_phrase_within(s2, capacity, w3);
    lemma_phrase_within(s2, capacity, "expanded"@);
    let s3 = if role is ComboBox {
        spec_phrase(s2, capacity, w3)
    } else if state.has(EXPANDED) && (role is TreeItem || role is MenuItem) {
        spec_phrase(s2, capacity, "expanded"@)
    } else {
        s2
    };
    lemma_phrase_within(s3, capacity, "selected"@);
    let s4 = if state.has(SELECTED) && announces_selection(role) {
        spec_phrase(s3, capacity, "selected"@)
    } else {
        s3
    };
    lemma_phrase_within(s4, capacity, "read only"@);
}

/// A value phrase keeps an utterance within its buffer.
pub proof fn lemma_value_within(s: Spoken, capacity: int, node: SemanticNode)
    requires
        within(s, capacity),
    ensures
        within(spec_value(s, capacity, node), capacity),
        s.truncated ==> spec_value(s, capacity, node).truncated,
{
    lemma_phrase_within(s, capacity, node.value@);
    lemma_phrase_within(s, capacity, "blank"@);
}

/// A focus announcement never overruns its buffer and is always valid UTF-8,
/// however small the buffer.
pub proof fn lemma_focus_within(node: SemanticNode, context: FocusContext, capacity: int)
    requires
        capacity >= 0,
    ensures
        within(spec_focus(node, context, capacity), capacity),
{
    assert(valid_utf8(Seq::<u8>::empty())) by {
        reveal_with_fuel(valid_utf8, 1);
    }
    let named = spec_phrase(silence(), capacity, node.name@);
    lemma_phrase_within(silence(), capacity, node.name@);
    lemma_phrase_within(named, capacity, spec_role_label(node.role)@);
    let with_role = if node.role is StaticText {
        named
    } else {
        spec_phrase(named, capacity, spec_role_label(node.role)@)
    };
    lemma_states_within(with_role, capacity, node);
    let with_states = spec_states(with_role, capacity, node);
    lemma_value_within(with_states, capacity, node);
    let with_value = spec_value(with_states, capacity, node);
    lemma_position_within(with_value, capacity, context.position_in_set, context.set_size);
    let placed = spec_position(with_value, capacity, context.position_in_set, context.set_size);
    lemma_phrase_within(placed, capacity, node.description@);
}

/// Appending whole text is the same in any buffer that has room for it.
proof fn lemma_append_stable(s: Spoken, small: int, large: int, bytes: Seq<u8>)
    requires
        small <= large,
        !spec_append(s, small, bytes).truncated,
    ensures
        !s.truncated,
        spec_append(s, large, bytes) == spec_append(s, small, bytes),
{
}

proof fn lemma_phrase_stable(s: Spoken, small: int, large: int, text: Seq<char>)
    requires
        small <= large,
        !spec_phrase(s, small, text).truncated,
    ensures
        !s.truncated,
        spec_phrase(s, large, text) == spec_phrase(s, small, text),
{
    if text.len() != 0 {
        if s.bytes.len() != 0 {
            let opened = spec_append(s, small, separator());
            lemma_append_stable(opened, small, large, encode_utf8(text));
            lemma_append_stable(s, small, large, separator());
        } else {
            lemma_append_stable(s, small, large, encode_utf8(text));
        }
    }
}

proof fn lemma_position_stable(s: Spoken, small: int, large: int, position: u32, set_size: u32)
    requires
        small <= large,
        !spec_position(s, small, position, set_size).truncated,
    ensures
        !s.truncated,
        spec_position(s, large, position, set_size) == spec_position(s, small, position, set_size),
{
    if position != 0 && set_size != 0 {
        let opened = if s.bytes.len() != 0 {
            spec_append(s, small, separator())
        } else {
            s
        };
        let first = spec_append(opened, small, decimal(position as nat));
        let second = spec_append(first, small, of_word());
        lemma_append_stable(second, small, large, decimal(set_size as nat));
        lemma_append_stable(first, small, large, of_word());
        lemma_append_stable(opened, small, large, decimal(position as nat));
        if s.bytes.len() != 0 {
            lemma_append_stable(s, small, large, separator());
        }
    }
}

proof fn lemma_states_stable(s: Spoken, small: int, large: int, node: SemanticNode)
    requires
        small <= large,
        !spec_states(s, small, node).truncated,
    ensures
        !s.truncated,
        spec_states(s, large, node) == spec_states(s, small, node),
{
    let state = node.state;
    let role = node.role;
    let s1 = if state.has(DISABLED) { spec_phrase(s, small, "unavailable"@) } else { s };
    let w2 = (if state.has(CHECKED) { "checked" } else { "not checked" })@;
    let s2 = if role is CheckBox { spec_phrase(s1, small, w2) } else { s1 };
    let w3 = (if state.has(EXPANDED) { "expanded" } else { "collapsed" })@;
    let s3 = if role is ComboBox {
        spec_phrase(s2, small, w3)
    } else if state.has(EXPANDED) && (role is TreeItem || role is MenuItem) {
        spec_phrase(s2, small, "expanded"@)
    } else {
        s2
    };
    let s4 = if state.has(SELECTED) && announces_selection(role) {
        spec_phrase(s3, small, "selected"@)
    } else {
        s3
    };
    if role is Edit && state.has(READ_ONLY) {
        lemma_phrase_stable(s4, small, large, "read only"@);
    }
    if state.has(SELECTED) && announces_selection(role) {
        lemma_phrase_stable(s3, small, large, "selected"@);
    }
    if role is ComboBox {
        lemma_phrase_stable(s2, small, large, w3);
    } else if state.has(EXPANDED) && (role is TreeItem || role is MenuItem) {
        lemma_phrase_stable(s2, small, large, "expanded"@);
    }
    if role is CheckBox {
        lemma_phrase_stable(s1, small, large, w2);
    }
    if state.has(DISABLED) {
        lemma_phrase_stable(s, small, large, "unavailable"@);
    }
}

proof fn lemma_value_stable(s: Spoken, small: int, large: int, node: SemanticNode)
    requires
        small <= large,
        !spec_value(s, small, node).truncated,
    ensures
        !s.truncated,
        spec_value(s, large, node) == spec_value(s, small, node),
{
    match node.role {
        Role::Slider | Role::ProgressBar | Role::ComboBox => {
            lemma_phrase_stable(s, small, large, node.value@);
        },
        Role::Edit => if is_blank(node.value@) {
            lemma_phrase_stable(s, small, large, "blank"@);
        } else {
            lemma_phrase_stable(s, small, large, node.value@);
        },
        _ => {},
    }
}

/// A focus announcement that was not cut short is the whole announcement: any
/// larger buffer gives exactly the same text.
pub proof fn lemma_untruncated_focus_is_whole(
    node: SemanticNode,
    context: FocusContext,
    small: int,
    large: int,
)
    requires
        small <= large,
        !spec_focus(node, context, small).truncated,
    ensures
        spec_focus(node, context, large) == spec_focus(node, context, small),
{
    let named = spec_phrase(silence(), small, node.name@);
    let with_role = if node.role is StaticText {
        named
    } else {
        spec_phrase(named, small, spec_role_label(node.role)@)
    };
    let with_states = spec_states(with_role, small, node);
    let with_value = spec_value(with_states, small, node);
    let placed = spec_position(with_value, small, context.position_in_set, context.set_size);
    lemma_phrase_stable(placed, small, large, node.description@);
    lemma_position_stable(with_value, small, large, context.position_in_set, context.set_size);
    lemma_value_stable(with_states, small, large, node);
    lemma_states_stable(with_role, small, large, node);
    if !(node.role is StaticText) {
        lemma_phrase_stable(named, small, large, spec_role_label(node.role)@);
    }
    lemma_phrase_stable(silence(), small, large, node.name@);
}

} // verus!

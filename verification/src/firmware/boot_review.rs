//! The boot screen the firmware reads aloud before the operating system
//! loads, and the keyboard review that follows: the arrows (or Tab) re-read
//! it a line at a time, Enter or Escape continues, and an unattended boot
//! continues on its own once the review window has passed without a key.

use vstd::prelude::*;
use crate::firmware::keys::{KeyPress, CHAR_CARRIAGE_RETURN, CHAR_TAB, SCAN_DOWN, SCAN_ESCAPE, SCAN_UP};
use crate::screen_reader::semantics::{NodeId, Rect, Role, SemanticNode, State};
use crate::screen_reader::{announce_focus, spec_focus, FocusContext};
use vstd::string::*;

verus! {

/// How long an unattended boot screen waits for a key, in milliseconds.
pub const REVIEW_WINDOW_MS: u64 = 5000;

/// One line of the boot screen as a semantic node: a child of the implicit
/// root (id 0), with no description, value or state, and a plausible nonzero
/// text-line rectangle.
pub open spec fn spec_line<'a>(id: u64, role: Role, name: &'a str) -> SemanticNode<'a> {
    SemanticNode {
        id: NodeId(id),
        parent: Some(NodeId(0)),
        role,
        name,
        description: "",
        value: "",
        state: State::spec_from_bits(0),
        bounds: Rect { x: 0, y: 0, width: 640, height: 32 },
    }
}

/// Build one line of the boot screen.
pub fn screen_line<'a>(id: u64, role: Role, name: &'a str) -> (r: SemanticNode<'a>)
    ensures
        r == spec_line(id, role, name),
{
    SemanticNode {
        id: NodeId(id),
        parent: Some(NodeId(0)),
        role,
        name,
        description: "",
        value: "",
        state: State::from_bits(0),
        bounds: Rect { x: 0, y: 0, width: 640, height: 32 },
    }
}

/// The boot screen, top to bottom: the system names itself, confirms the
/// screen reader is live, says it is starting, states the display mode the
/// firmware reported (`display`) and says it is loading the operating system.
pub open spec fn spec_boot_screen<'a>(display: &'a str) -> Seq<SemanticNode<'a>> {
    seq![
        spec_line(1, Role::Window, "Accessible Windows"),
        spec_line(2, Role::StaticText, "Screen reader active at firmware stage"),
        spec_line(3, Role::StaticText, "Starting Accessible Windows"),
        spec_line(4, Role::StaticText, display),
        spec_line(5, Role::StaticText, "Loading the operating system"),
    ]
}

/// The lines of the boot screen.
pub fn boot_screen<'a>(display: &'a str) -> (r: Vec<SemanticNode<'a>>)
    ensures
        r@ == spec_boot_screen(display),
{
    vec![
        screen_line(1, Role::Window, "Accessible Windows"),
        screen_line(2, Role::StaticText, "Screen reader active at firmware stage"),
        screen_line(3, Role::StaticText, "Starting Accessible Windows"),
        screen_line(4, Role::StaticText, display),
        screen_line(5, Role::StaticText, "Loading the operating system"),
    ]
}

/// How the boot continued.
#[derive(Clone, Copy, Debug, PartialEq, Eq, Structural)]
pub enum ContinueKey {
    Enter,
    Escape,
}

/// What a keystroke asks of the boot screen.
#[derive(Clone, Copy, Debug, PartialEq, Eq, Structural)]
pub enum Command {
    /// Move the reading cursor forward (down arrow or Tab).
    Next,
    /// Move the reading cursor backward (up arrow).
    Previous,
    /// Leave the boot screen and continue to the operating system.
    Continue(ContinueKey),
    /// A key with no binding here.
    Ignore,
}

pub open spec fn spec_classify(key: KeyPress) -> Command {
    match key {
        KeyPress::Special(code) => if code == SCAN_DOWN {
            Command::Next
        } else if code == SCAN_UP {
            Command::Previous
        } else if code == SCAN_ESCAPE {
            Command::Continue(ContinueKey::Escape)
        } else {
            Command::Ignore
        },
        KeyPress::Printable(c) => if c == CHAR_CARRIAGE_RETURN {
            Command::Continue(ContinueKey::Enter)
        } else if c == CHAR_TAB {
            Command::Next
        } else {
            Command::Ignore
        },
    }
}

/// Map a keystroke to a boot-screen command.
pub fn classify(key: KeyPress) -> (r: Command)
    ensures
        r == spec_classify(key),
{
    match key {
        KeyPress::Special(code) => {
            if code == SCAN_DOWN {
                Command::Next
            } else if code == SCAN_UP {
                Command::Previous
            } else if code == SCAN_ESCAPE {
                Command::Continue(ContinueKey::Escape)
            } else {
                Command::Ignore
            }
        },
        KeyPress::Printable(c) => {
            if c == CHAR_CARRIAGE_RETURN {
                Command::Continue(ContinueKey::Enter)
            } else if c == CHAR_TAB {
                Command::Next
            } else {
                Command::Ignore
            }
        },
    }
}

/// What the firmware must do after a keystroke during review.
#[derive(Clone, Copy, Debug, PartialEq, Eq, Structural)]
pub enum ReviewEffect {
    /// Sound the move cue and re-read this line.
    Reread(usize),
    /// Sound the continue cue and leave the boot screen.
    Continue(ContinueKey),
    /// Nothing.
    Ignored,
}

/// The review cursor over a boot screen of `last + 1` lines. It starts on the
/// last line, the one just read.
#[derive(Clone, Copy, Debug, PartialEq, Eq, Structural)]
pub struct Review {
    pub cursor: usize,
    pub last: usize,
}

impl Review {
    pub open spec fn wf(self) -> bool {
        self.cursor <= self.last
    }

    /// A review of `lines` lines, or none when the screen is empty (the boot
    /// then continues at once).
    pub fn start(lines: usize) -> (r: Option<Review>)
        ensures
            lines == 0 ==> r is None,
            lines > 0 ==> r == Some(Review { cursor: (lines - 1) as usize, last: (lines - 1) as usize }),
    {
        if lines == 0 {
            None
        } else {
            Some(Review { cursor: lines - 1, last: lines - 1 })
        }
    }

    pub open spec fn stepped(self, command: Command) -> (Review, ReviewEffect) {
        match command {
            Command::Next => {
                let c = if self.cursor + 1 <= self.last { (self.cursor + 1) as usize } else { self.last };
                (Review { cursor: c, ..self }, ReviewEffect::Reread(c))
            },
            Command::Previous => {
                let c = if self.cursor >= 1 { (self.cursor - 1) as usize } else { 0usize };
                (Review { cursor: c, ..self }, ReviewEffect::Reread(c))
            },
            Command::Continue(key) => (self, ReviewEffect::Continue(key)),
            Command::Ignore => (self, ReviewEffect::Ignored),
        }
    }

    /// Apply one command: the cursor moves one line, stopping at the first
    /// and last lines, and the line under it is re-read.
    pub fn step(&mut self, command: Command) -> (effect: ReviewEffect)
        requires
            old(self).wf(),
        ensures
            (*final(self), effect) == old(self).stepped(command),
            final(self).wf(),
    {
        match command {
            Command::Next => {
                let next = if self.cursor < self.last { self.cursor + 1 } else { self.last };
                self.cursor = next;
                ReviewEffect::Reread(next)
            },
            Command::Previous => {
                let previous = if self.cursor >= 1 { self.cursor - 1 } else { 0 };
                self.cursor = previous;
                ReviewEffect::Reread(previous)
            },
            Command::Continue(key) => ReviewEffect::Continue(key),
            Command::Ignore => ReviewEffect::Ignored,
        }
    }
}

/// Review never leaves the screen: every re-read line is a line of it, and
/// reading on past the last line or back past the first stays put.
pub proof fn lemma_review_stays_on_screen(r: Review, command: Command)
    requires
        r.wf(),
    ensures
        r.stepped(command).0.wf(),
        r.stepped(command).1 matches ReviewEffect::Reread(line) ==> line <= r.last,
        r.cursor == r.last ==> r.stepped(Command::Next).0 == r,
        r.cursor == 0 ==> r.stepped(Command::Previous).0 == r,
{
}

/// What is said for one line of the boot screen: its focus announcement with
/// no position, written into `buffer`; nothing when that comes out empty.
pub fn utterance<'b>(node: &SemanticNode, buffer: &'b mut [u8]) -> (r: Option<&'b str>)
    ensures
        ({
            let spoken = spec_focus(*node, FocusContext { position_in_set: 0, set_size: 0 }, old(buffer)@.len() as int).bytes;
            match r {
                Some(text) => spoken.len() > 0 && text.spec_bytes() == spoken,
                None => spoken.len() == 0,
            }
        }),
{
    let text = announce_focus(node, FocusContext::none(), buffer);
    if text.is_empty() {
        None
    } else {
        Some(text)
    }
}

} // verus!

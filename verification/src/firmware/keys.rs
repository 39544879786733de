//! Keystrokes as the firmware console reports them, and what they mean to the
//! keyboard-only menus.

use vstd::prelude::*;

verus! {

/// Scan code of the up arrow.
pub const SCAN_UP: u16 = 0x01;
/// Scan code of the down arrow.
pub const SCAN_DOWN: u16 = 0x02;
/// Scan code of the Escape key.
pub const SCAN_ESCAPE: u16 = 0x17;
/// The character code Enter produces.
pub const CHAR_CARRIAGE_RETURN: u16 = 0x0d;
/// The character code Tab produces.
pub const CHAR_TAB: u16 = 0x09;

/// One keystroke read from the firmware console.
#[derive(Clone, Copy, Debug, PartialEq, Eq, Structural)]
pub enum KeyPress {
    /// A key without a character, identified by its scan code.
    Special(u16),
    /// A key that produced a UCS-2 character.
    Printable(u16),
}

/// What a keystroke asks of a menu.
#[derive(Clone, Copy, Debug, PartialEq, Eq, Structural)]
pub enum MenuKey {
    /// Down arrow or Tab: the next item.
    Next,
    /// Up arrow: the previous item.
    Previous,
    /// Escape: back out of the current page.
    Escape,
    /// Enter: open or activate the selected item.
    Enter,
    /// A key with no binding.
    Other,
}

/// The meaning of a keystroke in a menu.
pub open spec fn spec_menu_key(key: KeyPress) -> MenuKey {
    match key {
        KeyPress::Special(code) => if code == SCAN_DOWN {
            MenuKey::Next
        } else if code == SCAN_UP {
            MenuKey::Previous
        } else if code == SCAN_ESCAPE {
            MenuKey::Escape
        } else {
            MenuKey::Other
        },
        KeyPress::Printable(c) => if c == CHAR_CARRIAGE_RETURN {
            MenuKey::Enter
        } else if c == CHAR_TAB {
            MenuKey::Next
        } else {
            MenuKey::Other
        },
    }
}

/// Classify a keystroke: the arrows and Tab move, Escape goes back, Enter
/// activates, and every other key is ignored.
pub fn menu_key(key: KeyPress) -> (r: MenuKey)
    ensures
        r == spec_menu_key(key),
{
    match key {
        KeyPress::Special(code) => {
            if code == SCAN_DOWN {
                MenuKey::Next
            } else if code == SCAN_UP {
                MenuKey::Previous
            } else if code == SCAN_ESCAPE {
                MenuKey::Escape
            } else {
                MenuKey::Other
            }
        },
        KeyPress::Printable(c) => {
            if c == CHAR_CARRIAGE_RETURN {
                MenuKey::Enter
            } else if c == CHAR_TAB {
                MenuKey::Next
            } else {
                MenuKey::Other
            }
        },
    }
}

} // verus!

//! The firmware's speech bank: whole phrases for fixed labels and a spelling
//! alphabet for values that cannot be recorded ahead of time (boot entry
//! descriptions, the processor model, the time, the resolution).

use vstd::prelude::*;
use vstd::string::*;
use vstd::std_specs::iter::IteratorSpec;

verus! {

broadcast use {vstd::string::axiom_spec_iter, vstd::string::next_postcondition};

/// A recorded phrase of the setup menus.
#[derive(Clone, Copy, Debug, PartialEq, Eq, Structural)]
pub enum Clip {
    Setup,
    Main,
    Advanced,
    Boot,
    Security,
    SaveExit,
    CpuModel,
    FirmwareTime,
    DisplayInformation,
    BootCurrent,
    CpuConfiguration,
    VirtualizationCapability,
    BootOptionPriorities,
    BootNow,
    SetAsDefault,
    SecureBoot,
    SecureBootStatus,
    SetupMode,
    BootNormally,
    ResetSystem,
    ShutDown,
    Back,
    Enabled,
    Disabled,
    Unavailable,
    Selected,
    BootOption,
    ActionSucceeded,
    ActionFailed,
    Value,
    InstructionsNavigation,
    InstructionsSelect,
    InstructionsTimeout,
    SystemInformation,
    FirmwareVendor,
    FirmwareRevision,
    UefiRevision,
    DisplayResolution,
    Architecture,
    Cancel,
    ConfirmRestart,
    ConfirmShutdown,
    Supported,
    NotSupported,
}

/// One sound of the spelling alphabet.
#[derive(Clone, Copy, Debug, PartialEq, Eq, Structural)]
pub enum SpellSound {
    /// A letter, by its lower-case ASCII code.
    Letter(u8),
    /// A decimal digit, by its value.
    Digit(u8),
    Dash,
    Dot,
    Colon,
    /// Both the slash and the backslash.
    Slash,
    Underscore,
}

/// The sound a character is spelled with: letters of either case, digits and
/// a few punctuation marks have one; nothing else does.
pub open spec fn spec_spelling_sound(c: char) -> Option<SpellSound> {
    if 'a' <= c <= 'z' {
        Some(SpellSound::Letter(c as u8))
    } else if 'A' <= c <= 'Z' {
        Some(SpellSound::Letter((c as u8 + 32) as u8))
    } else if '0' <= c <= '9' {
        Some(SpellSound::Digit((c as u8 - 48) as u8))
    } else if c == '-' {
        Some(SpellSound::Dash)
    } else if c == '.' {
        Some(SpellSound::Dot)
    } else if c == ':' {
        Some(SpellSound::Colon)
    } else if c == '/' || c == '\\' {
        Some(SpellSound::Slash)
    } else if c == '_' {
        Some(SpellSound::Underscore)
    } else {
        None
    }
}

/// The spelling sound of one character, if it has one.
pub fn spelling_sound(c: char) -> (r: Option<SpellSound>)
    ensures
        r == spec_spelling_sound(c),
{
    if 'a' <= c && c <= 'z' {
        Some(SpellSound::Letter(c as u8))
    } else if 'A' <= c && c <= 'Z' {
        Some(SpellSound::Letter(c as u8 + 32))
    } else if '0' <= c && c <= '9' {
        Some(SpellSound::Digit(c as u8 - 48))
    } else if c == '-' {
        Some(SpellSound::Dash)
    } else if c == '.' {
        Some(SpellSound::Dot)
    } else if c == ':' {
        Some(SpellSound::Colon)
    } else if c == '/' || c == '\\' {
        Some(SpellSound::Slash)
    } else if c == '_' {
        Some(SpellSound::Underscore)
    } else {
        None
    }
}

/// One step of spelling a text aloud.
#[derive(Clone, Copy, Debug, PartialEq, Eq, Structural)]
pub enum SpellStep {
    /// A word gap, for white space (90 ms).
    WordPause,
    /// Say this sound; if it cannot be played, make a short pause instead.
    Say(SpellSound),
    /// A short pause for a character with no sound (60 ms).
    ShortPause,
}

/// ASCII white space as `char::is_ascii_whitespace` defines it.
pub open spec fn is_ascii_white(c: char) -> bool {
    c == ' ' || c == '\t' || c == '\n' || c == '\u{c}' || c == '\r'
}

/// The step that spells one character.
pub open spec fn spec_spell_step(c: char) -> SpellStep {
    if is_ascii_white(c) {
        SpellStep::WordPause
    } else {
        match spec_spelling_sound(c) {
            Some(s) => SpellStep::Say(s),
            None => SpellStep::ShortPause,
        }
    }
}

/// How a text is spelled: one step per character, in order.
pub open spec fn spec_spell_plan(text: Seq<char>) -> Seq<SpellStep> {
    Seq::new(text.len(), |i: int| spec_spell_step(text[i]))
}

/// The steps that spell `text` aloud: white space becomes a word gap,
/// characters of the alphabet are said, and any other character becomes a
/// short pause, so every character is accounted for.
pub fn spell_plan(text: &str) -> (r: Vec<SpellStep>)
    ensures
        r@ == spec_spell_plan(text@),
{
    let mut steps: Vec<SpellStep> = Vec::new();
    let mut chars = text.chars();
    let ghost mut i: int = 0;
    loop
        invariant
            0 <= i <= text@.len(),
            chars.remaining() == text@.skip(i),
            chars.obeys_prophetic_iter_laws(),
            steps@ == spec_spell_plan(text@.take(i)),
        ensures
            steps@ == spec_spell_plan(text@),
        decreases text@.len() - i,
    {
        let next = chars.next();
        match next {
            Some(c) => {
                assert(text@.skip(i)[0] == text@[i]);
                let step = if c == ' ' || c == '\t' || c == '\n' || c == '\u{c}' || c == '\r' {
                    SpellStep::WordPause
                } else {
                    match spelling_sound(c) {
                        Some(s) => SpellStep::Say(s),
                        None => SpellStep::ShortPause,
                    }
                };
                steps.push(step);
                proof {
                    assert(text@.skip(i).drop_first() =~= text@.skip(i + 1));
                    assert(spec_spell_plan(text@.take(i + 1)) =~= spec_spell_plan(text@.take(i)).push(step));
                    i = i + 1;
                }
            },
            None => {
                proof {
                    assert(text@.take(i) =~= text@);
                }
                break;
            },
        }
    }
    steps
}

} // verus!

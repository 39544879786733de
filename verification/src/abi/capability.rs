use vstd::prelude::*;

verus! {

/// Physical keyboard input can be consumed without pointer interaction.
pub const KEYBOARD_INPUT: u64 = 1;
/// Speech output is available.
pub const SPEECH_OUTPUT: u64 = 2;
/// Braille output is available.
pub const BRAILLE_OUTPUT: u64 = 4;
/// Serial text can be emitted as an engineering fallback.
pub const SERIAL_OUTPUT: u64 = 8;
/// Structured semantic UI information is available.
pub const SEMANTIC_UI: u64 = 16;

} // verus!

use vstd::prelude::*;

verus! {

/// Physical keyboard input reaches native code.
pub const KEYBOARD_INPUT: u64 = 1;
/// Native speech output is verified.
pub const SPEECH_OUTPUT: u64 = 2;
/// Native braille output is verified.
pub const BRAILLE_OUTPUT: u64 = 4;
/// Semantic interaction with the native object graph is available.
pub const SEMANTIC_INTERACTION: u64 = 8;

} // verus!

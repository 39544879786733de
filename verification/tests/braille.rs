use awos::braille::{digit_cell, letter_cell, to_unicode, translate, CAPITAL_SIGN, NUMBER_SIGN, SPACE, UNKNOWN};

#[test]
fn every_letter_has_a_distinct_cell() {
    let mut seen = [false; 64];
    for letter in b'a'..=b'z' {
        let cell = letter_cell(letter).unwrap();
        assert!(
            !seen[cell as usize],
            "duplicate cell for {}",
            letter as char
        );
        seen[cell as usize] = true;
    }
}

#[test]
fn translates_a_plain_word() {
    let mut cells = [0u8; 16];
    let n = translate("install", &mut cells);
    assert_eq!(
        &cells[..n],
        &[
            0b00_1010, // i
            0b01_1101, // n
            0b00_1110, // s
            0b01_1110, // t
            0b00_0001, // a
            0b00_0111, // l
            0b00_0111, // l
        ]
    );
}

#[test]
fn capital_indicator_precedes_upper_case() {
    let mut cells = [0u8; 8];
    let n = translate("Hi", &mut cells);
    assert_eq!(&cells[..n], &[CAPITAL_SIGN, 0b01_0011, 0b00_1010]); // ^ h i
}

#[test]
fn number_sign_once_then_digit_letters() {
    let mut cells = [0u8; 8];
    let n = translate("40", &mut cells);
    // 4 -> d, 0 -> j, with a single leading number sign.
    assert_eq!(&cells[..n], &[NUMBER_SIGN, 0b01_1001, 0b01_1010]);
}

#[test]
fn number_sign_resets_after_a_space() {
    let mut cells = [0u8; 12];
    let n = translate("1 2", &mut cells);
    assert_eq!(
        &cells[..n],
        &[NUMBER_SIGN, 0b00_0001, SPACE, NUMBER_SIGN, 0b00_0011] // #a _ #b
    );
}

#[test]
fn comma_and_space_in_a_label() {
    let mut cells = [0u8; 32];
    let n = translate("Install, button", &mut cells);
    assert_eq!(
        &cells[..n],
        &[
            CAPITAL_SIGN,
            0b00_1010, // i
            0b01_1101, // n
            0b00_1110, // s
            0b01_1110, // t
            0b00_0001, // a
            0b00_0111, // l
            0b00_0111, // l
            0b00_0010, // ,
            SPACE,
            0b00_0011, // b
            0b10_0101, // u
            0b01_1110, // t
            0b01_1110, // t
            0b01_0101, // o
            0b01_1101, // n
        ]
    );
}

#[test]
fn unicode_glyphs_round_trip_the_block() {
    let cells = [0b00_0001u8, 0b00_0011]; // a, b
    let mut out = [0u8; 16];
    let text = to_unicode(&cells, &mut out);
    assert_eq!(text, "\u{2801}\u{2803}"); // ⠁⠃
}

#[test]
fn unknown_byte_becomes_question_cell() {
    let mut cells = [0u8; 4];
    let n = translate("~", &mut cells);
    assert_eq!(&cells[..n], &[UNKNOWN]);
}

#[test]
fn truncates_to_buffer() {
    let mut cells = [0u8; 3];
    let n = translate("install", &mut cells);
    assert_eq!(n, 3);
}

#[test]
fn digit_cells_reuse_the_first_ten_letters() {
    assert_eq!(digit_cell(b'1'), letter_cell(b'a'));
    assert_eq!(digit_cell(b'9'), letter_cell(b'i'));
    assert_eq!(digit_cell(b'0'), letter_cell(b'j'));
    assert_eq!(digit_cell(b'x'), None);
    assert_eq!(letter_cell(b'A'), None);
}

#[test]
fn capital_sign_that_does_not_fit_cuts_the_letter_too() {
    // Two-cell translations stop at the buffer's end, leaving the rest untouched.
    let mut cells = [0xffu8; 3];
    let n = translate("aB", &mut cells);
    assert_eq!(n, 3);
    assert_eq!(cells, [0b00_0001, CAPITAL_SIGN, 0b00_0011]);
    let mut cells = [0xffu8; 2];
    let n = translate("aB", &mut cells);
    assert_eq!(n, 2);
    assert_eq!(cells, [0b00_0001, CAPITAL_SIGN]);
}

#[test]
fn punctuation_and_non_ascii_bytes() {
    let mut cells = [0u8; 8];
    let n = translate("a.(é", &mut cells);
    // 'é' is two UTF-8 bytes, each unknown.
    assert_eq!(&cells[..n], &[0b00_0001, 0b11_0010, 0b10_0011, UNKNOWN, UNKNOWN]);
}

#[test]
fn glyphs_that_do_not_fit_are_dropped() {
    let cells = [0b00_0001u8, 0b00_0011, 0b11_1111];
    let mut out = [0u8; 7];
    assert_eq!(to_unicode(&cells, &mut out), "\u{2801}\u{2803}");
    let mut out = [0u8; 2];
    assert_eq!(to_unicode(&cells, &mut out), "");
    let mut out = [0u8; 9];
    assert_eq!(to_unicode(&cells, &mut out), "\u{2801}\u{2803}\u{283f}");
}

use awos::firmware::boot_order::{
    decode_boot_order, default_boot_order, encode_boot_order, promote, MAX_BOOT_OPTIONS,
};
use awos::firmware::countdown::{Countdown, POLL_INTERVAL_MS};
use awos::firmware::keys::{menu_key, KeyPress, MenuKey};
use awos::firmware::setup_menu::{
    cpu_model, description_text, description_units, flag_clip, flag_value, parent, static_items,
    title, u16_value, virtualization_supported, Action, ContinueReason, Focus, Page, SetupEffect,
    SetupState, ValueSource,
};
use awos::firmware::setup_speech::Clip;

fn open_boot_priorities(order: Vec<u16>) -> SetupState {
    let mut state = SetupState::new(order);
    state.handle_key(MenuKey::Next);
    state.handle_key(MenuKey::Next);
    assert_eq!(state.handle_key(MenuKey::Enter), SetupEffect::Opened(Page::Boot));
    assert_eq!(state.handle_key(MenuKey::Enter), SetupEffect::Opened(Page::BootPriorities));
    state
}

#[test]
fn keys_map_to_menu_commands() {
    assert_eq!(menu_key(KeyPress::Special(0x02)), MenuKey::Next);
    assert_eq!(menu_key(KeyPress::Special(0x01)), MenuKey::Previous);
    assert_eq!(menu_key(KeyPress::Special(0x17)), MenuKey::Escape);
    assert_eq!(menu_key(KeyPress::Special(0x05)), MenuKey::Other);
    assert_eq!(menu_key(KeyPress::Printable(0x0d)), MenuKey::Enter);
    assert_eq!(menu_key(KeyPress::Printable(0x09)), MenuKey::Next);
    assert_eq!(menu_key(KeyPress::Printable(u16::from(b'a'))), MenuKey::Other);
}

#[test]
fn unattended_setup_boots_after_three_seconds_of_polls() {
    let mut countdown = Countdown::new(3000, POLL_INTERVAL_MS);
    for _ in 0..60 {
        assert!(!countdown.idle_poll());
    }
    assert_eq!(countdown.waited_ms, 3000);
    assert!(countdown.idle_poll());
}

#[test]
fn a_keystroke_disables_the_timeout_for_good() {
    let mut countdown = Countdown::new(3000, POLL_INTERVAL_MS);
    for _ in 0..30 {
        assert!(!countdown.idle_poll());
    }
    countdown.key_pressed();
    for _ in 0..1000 {
        assert!(!countdown.idle_poll());
    }
    assert_eq!(countdown.waited_ms, 1500);
}

#[test]
fn boot_order_decodes_pairs_and_ignores_an_odd_byte() {
    assert_eq!(decode_boot_order(&[1, 0, 2, 0, 3], MAX_BOOT_OPTIONS), vec![1, 2]);
    assert_eq!(decode_boot_order(&[1, 0, 2, 0], 1), vec![1]);
    assert_eq!(decode_boot_order(&[], MAX_BOOT_OPTIONS), Vec::<u16>::new());
    let many: Vec<u8> = (0..40u16).flat_map(|n| n.to_le_bytes()).collect();
    assert_eq!(decode_boot_order(&many, MAX_BOOT_OPTIONS).len(), 32);
}

#[test]
fn boot_order_encodes_little_endian_and_round_trips() {
    let order = vec![0x1234, 0x0001, 0xbeef];
    let bytes = encode_boot_order(&order);
    assert_eq!(bytes, vec![0x34, 0x12, 0x01, 0x00, 0xef, 0xbe]);
    assert_eq!(decode_boot_order(&bytes, bytes.len()), order);
}

#[test]
fn promote_moves_the_option_first_and_keeps_the_rest_in_order() {
    assert_eq!(promote(&[1, 2, 3], 3), vec![3, 1, 2]);
    assert_eq!(promote(&[1, 2, 3], 1), vec![1, 2, 3]);
    assert_eq!(promote(&[1, 2, 3], 9), vec![9, 1, 2, 3]);
    assert_eq!(promote(&promote(&[4, 5, 6], 5), 5), promote(&[4, 5, 6], 5));
}

#[test]
fn default_boot_order_needs_the_option_to_be_stored() {
    let stored = encode_boot_order(&[1, 2, 3]);
    assert_eq!(default_boot_order(&stored, 2), Some(vec![2, 1, 3]));
    assert_eq!(default_boot_order(&stored, 9), None);
}

#[test]
fn root_page_lists_the_five_menus() {
    let labels: Vec<&str> = static_items(Page::Root).iter().map(|item| item.label).collect();
    assert_eq!(labels, vec!["Main", "Advanced", "Boot", "Security", "Save and Exit"]);
    assert_eq!(static_items(Page::BootPriorities).len(), 0);
    assert_eq!(title(Page::BootEntry), "Boot option");
    assert_eq!(parent(Page::CpuConfiguration), Page::Advanced);
    assert_eq!(parent(Page::BootEntry), Page::BootPriorities);
    assert_eq!(parent(Page::Root), Page::Root);
}

#[test]
fn arrows_wrap_around_a_page() {
    let mut state = SetupState::new(vec![]);
    assert_eq!(state.handle_key(MenuKey::Enter), SetupEffect::Opened(Page::Main));
    assert_eq!(state.item_count(), 4);
    for expected in [1, 2, 3, 0] {
        assert_eq!(state.handle_key(MenuKey::Next), SetupEffect::Moved);
        assert_eq!(state.selected, expected);
    }
    assert_eq!(state.handle_key(MenuKey::Previous), SetupEffect::Moved);
    assert_eq!(state.selected, 3);
    assert_eq!(state.handle_key(MenuKey::Other), SetupEffect::Ignored);
    assert_eq!(state.handle_key(MenuKey::Escape), SetupEffect::WentBack(Page::Root));
    assert_eq!(state.page, Page::Root);
    assert_eq!(state.selected, 0);
}

#[test]
fn escape_on_the_root_page_boots_normally() {
    let mut state = SetupState::new(vec![1]);
    assert_eq!(
        state.handle_key(MenuKey::Escape),
        SetupEffect::Continue(ContinueReason::EscapeAtRoot)
    );
}

#[test]
fn boot_entry_offers_boot_now_and_set_as_default() {
    let mut state = open_boot_priorities(vec![0x0003, 0x0001]);
    assert_eq!(state.item_count(), 3);
    assert_eq!(state.handle_key(MenuKey::Enter), SetupEffect::Opened(Page::BootEntry));
    assert_eq!(state.selected_boot, Some(0x0003));
    assert_eq!(state.value_source(), Some(ValueSource::SelectedBoot(0x0003)));
    assert_eq!(state.handle_key(MenuKey::Enter), SetupEffect::BootNext(0x0003));
    state.handle_key(MenuKey::Next);
    assert_eq!(state.handle_key(MenuKey::Enter), SetupEffect::SetDefault(0x0003));
    state.adopt_boot_order(vec![0x0003, 0x0001]);
    assert_eq!(state.boot_order, vec![0x0003, 0x0001]);
    assert_eq!(state.handle_key(MenuKey::Escape), SetupEffect::WentBack(Page::BootPriorities));
    assert_eq!(state.selected_boot, None);
}

#[test]
fn boot_now_without_a_selection_fails() {
    let mut state = SetupState::new(vec![]);
    state.page = Page::BootEntry;
    assert_eq!(state.handle_key(MenuKey::Enter), SetupEffect::NoSelection(Action::BootNow));
    state.selected = 1;
    assert_eq!(state.handle_key(MenuKey::Enter), SetupEffect::NoSelection(Action::SetAsDefault));
}

#[test]
fn back_line_of_the_priorities_page_returns_to_boot() {
    let mut state = open_boot_priorities(vec![7]);
    state.handle_key(MenuKey::Next);
    assert!(matches!(state.focus(), Focus::Back));
    assert_eq!(state.handle_key(MenuKey::Enter), SetupEffect::WentBack(Page::Boot));
    let mut empty = open_boot_priorities(vec![]);
    assert_eq!(empty.item_count(), 1);
    assert_eq!(empty.handle_key(MenuKey::Enter), SetupEffect::WentBack(Page::Boot));
}

#[test]
fn save_and_exit_confirms_before_restarting() {
    let mut state = SetupState::new(vec![]);
    state.selected = 4;
    assert_eq!(state.handle_key(MenuKey::Enter), SetupEffect::Opened(Page::SaveExit));
    assert_eq!(state.handle_key(MenuKey::Enter), SetupEffect::Continue(ContinueReason::User));
    state.handle_key(MenuKey::Next);
    assert_eq!(state.handle_key(MenuKey::Enter), SetupEffect::Opened(Page::ConfirmRestart));
    assert_eq!(state.handle_key(MenuKey::Enter), SetupEffect::Restart);
    state.handle_key(MenuKey::Next);
    assert_eq!(state.handle_key(MenuKey::Enter), SetupEffect::WentBack(Page::SaveExit));
    state.selected = 2;
    assert_eq!(state.handle_key(MenuKey::Enter), SetupEffect::Opened(Page::ConfirmShutdown));
    assert_eq!(state.handle_key(MenuKey::Enter), SetupEffect::Shutdown);
}

#[test]
fn information_items_announce_their_values() {
    let mut state = SetupState::new(vec![]);
    state.handle_key(MenuKey::Enter);
    state.handle_key(MenuKey::Next);
    assert_eq!(state.value_source(), Some(ValueSource::CpuModel));
    assert_eq!(state.handle_key(MenuKey::Enter), SetupEffect::Announce);
    match state.focus() {
        Focus::Item(item) => {
            assert_eq!(item.label, "CPU model");
            assert_eq!(item.clip, Clip::CpuModel);
        }
        _ => panic!("a fixed item is focused"),
    }
    state.handle_key(MenuKey::Next);
    assert_eq!(state.value_source(), Some(ValueSource::FirmwareTime));
}

#[test]
fn flags_speak_as_enabled_disabled_or_unavailable() {
    assert_eq!(flag_clip(Some(true)), Clip::Enabled);
    assert_eq!(flag_clip(Some(false)), Clip::Disabled);
    assert_eq!(flag_clip(None), Clip::Unavailable);
    assert_eq!(flag_value(&[0]), Some(false));
    assert_eq!(flag_value(&[2, 0]), Some(true));
    assert_eq!(flag_value(&[]), None);
    assert_eq!(u16_value(&[0x01, 0x02, 0x03]), Some(0x0201));
    assert_eq!(u16_value(&[0x01]), None);
}

#[test]
fn virtualization_needs_vmx_or_svm_within_the_reported_leaves() {
    assert!(virtualization_supported(1, 0x20, 0, 0));
    assert!(!virtualization_supported(0, 0x20, 0, 0));
    assert!(virtualization_supported(0, 0, 0x8000_0001, 0x4));
    assert!(!virtualization_supported(0, 0, 0x8000_0000, 0x4));
    assert!(!virtualization_supported(1, 0x1f, 0x8000_0001, 0x3));
}

#[test]
fn cpu_model_is_trimmed_or_falls_back() {
    assert_eq!(cpu_model(0x8000_0008, b"  Example CPU @ 2.0GHz  "), "Example CPU @ 2.0GHz");
    assert_eq!(cpu_model(0x8000_0003, b"Example"), "x86 64");
    assert_eq!(cpu_model(0x8000_0008, b"    "), "x86 64");
    assert_eq!(cpu_model(0x8000_0008, &[0xff, 0xfe]), "x86 64");
}

#[test]
fn boot_descriptions_stop_at_nul_and_cap_at_96_units() {
    assert_eq!(description_units(&[0; 7]), None);
    let mut option = vec![1, 0, 0, 0, 4, 0];
    option.extend_from_slice(&[b'A', 0, b'B', 0, 0, 0, b'C', 0]);
    assert_eq!(description_units(&option), Some(vec![0x41, 0x42]));
    let mut long = vec![0; 6];
    for _ in 0..200 {
        long.extend_from_slice(&[b'x', 0]);
    }
    assert_eq!(description_units(&long).map(|units| units.len()), Some(96));
    assert_eq!(description_text(&[0x20, 0x41, 0x20]), Some("A".to_string()));
    assert_eq!(description_text(&[0x20, 0x20]), None);
    assert_eq!(description_text(&[]), None);
    assert_eq!(description_text(&[0xe9, 0x20]), Some("\u{e9}".to_string()));
    assert_eq!(description_text(&[0xd83d, 0xde00]), Some("\u{1f600}".to_string()));
    assert_eq!(description_text(&[0xd83d]), Some("\u{fffd}".to_string()));
}

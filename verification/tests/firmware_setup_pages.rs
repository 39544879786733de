use awos::firmware::keys::MenuKey;
use awos::firmware::setup_menu::{ContinueReason, ValueSource};
use awos::firmware::setup_pages::{
    boot_priorities_base, cpu_brand, find_option, flag_text, focus_speech, item_count, item_text,
    known_value_clip, page_speech, page_title, parse_boot_description, static_item, support_text,
    target, value_source, virtualization_capability, BootOption, Page, PageEffect, PagesState, Target,
};
use awos::firmware::setup_speech::Clip;

fn option(number: u16, description: &str) -> BootOption {
    BootOption {
        number,
        description: description.to_string(),
    }
}

fn load_option(description: &str) -> Vec<u8> {
    let mut data = vec![1, 0, 0, 0, 0, 0];
    for unit in description.encode_utf16() {
        data.extend_from_slice(&unit.to_le_bytes());
    }
    data.extend_from_slice(&[0, 0, 0xaa, 0xbb]);
    data
}

#[test]
fn descriptions_are_read_up_to_the_first_nul() {
    assert_eq!(parse_boot_description(&load_option("Windows Boot Manager")).as_deref(), Some("Windows Boot Manager"));
    assert_eq!(parse_boot_description(&[1, 0, 0, 0, 0, 0, 0]), None);
    assert_eq!(parse_boot_description(&[1, 0, 0, 0, 0, 0, 0, 0]), None);
    assert_eq!(parse_boot_description(&[1, 0, 0, 0, 0, 0, b'U', 0, b'E', 0]).as_deref(), Some("UE"));
}

#[test]
fn priorities_page_counts_options_plus_back() {
    let none: Vec<BootOption> = Vec::new();
    let two = vec![option(1, "Disk"), option(2, "Network")];
    assert_eq!(boot_priorities_base(&none), 1);
    assert_eq!(item_count(Page::BootPriorities, &none), 2);
    assert_eq!(item_count(Page::BootPriorities, &two), 3);
    assert_eq!(item_count(Page::SystemInformation, &two), 8);
    assert_eq!(item_text(Page::BootPriorities, 1, &two), "Network");
    assert_eq!(item_text(Page::BootPriorities, 2, &two), "Back");
    assert_eq!(item_text(Page::BootPriorities, 0, &none), "Unavailable");
    assert_eq!(item_text(Page::BootPriorities, 1, &none), "Back");
    assert_eq!(item_text(Page::Root, 4, &two), "Save and Exit");
    assert_eq!(item_text(Page::Root, 5, &two), "Unavailable");
}

#[test]
fn titles_and_static_items_carry_their_phrases() {
    assert_eq!(page_title(Page::BootOption(3)), ("Boot option", Clip::BootOption));
    assert_eq!(page_title(Page::Root), ("Accessible Windows firmware setup", Clip::Setup));
    assert_eq!(static_item(Page::SystemInformation, 6), Some(("Current boot option", Clip::BootCurrent)));
    assert_eq!(static_item(Page::SystemInformation, 8), None);
    assert_eq!(static_item(Page::BootPriorities, 0), None);
}

#[test]
fn targets_follow_the_page_layout() {
    let two = vec![option(1, "Disk"), option(2, "Network")];
    assert_eq!(target(Page::SystemInformation, 6, &two), Target::Announce);
    assert_eq!(target(Page::SystemInformation, 7, &two), Target::Back);
    assert_eq!(target(Page::Boot, 1, &two), Target::BootNormally);
    assert_eq!(target(Page::SaveExit, 0, &two), Target::BootNormally);
    assert_eq!(target(Page::BootPriorities, 1, &two), Target::Enter(Page::BootOption(1)));
    assert_eq!(target(Page::BootPriorities, 2, &two), Target::Back);
    assert_eq!(target(Page::BootOption(1), 1, &two), Target::SetDefault(1));
    assert_eq!(target(Page::Root, 9, &two), Target::Nothing);
}

#[test]
fn an_empty_priorities_line_is_unavailable() {
    let mut state = PagesState::new(Vec::new());
    state.page = Page::BootPriorities;
    assert_eq!(state.handle_key(MenuKey::Enter), PageEffect::Unavailable);
    assert_eq!(state.handle_key(MenuKey::Next), PageEffect::Moved);
    assert_eq!(state.handle_key(MenuKey::Enter), PageEffect::WentBack(Page::Boot));
}

#[test]
fn a_boot_option_page_boots_it_or_makes_it_default() {
    let mut state = PagesState::new(vec![option(0x10, "Disk"), option(0x20, "Network")]);
    state.selected = 2;
    assert_eq!(state.handle_key(MenuKey::Enter), PageEffect::Opened(Page::Boot));
    assert_eq!(state.handle_key(MenuKey::Enter), PageEffect::Opened(Page::BootPriorities));
    state.handle_key(MenuKey::Next);
    assert_eq!(state.handle_key(MenuKey::Enter), PageEffect::Opened(Page::BootOption(1)));
    assert_eq!(state.handle_key(MenuKey::Enter), PageEffect::BootNext(0x20));
    state.handle_key(MenuKey::Next);
    assert_eq!(
        state.handle_key(MenuKey::Enter),
        PageEffect::SetDefault { index: 1, number: 0x20 }
    );
    state.adopt_default(1);
    assert_eq!(state.page, Page::BootPriorities);
    assert_eq!(state.selected, 0);
    let numbers: Vec<u16> = state.options.iter().map(|o| o.number).collect();
    assert_eq!(numbers, vec![0x20, 0x10]);
    assert_eq!(state.options[0].description, "Network");
}

#[test]
fn a_boot_option_page_without_its_option_reports_failure() {
    let mut state = PagesState::new(vec![option(1, "Disk")]);
    state.page = Page::BootOption(4);
    assert_eq!(state.handle_key(MenuKey::Enter), PageEffect::MissingOption);
    state.selected = 1;
    assert_eq!(state.handle_key(MenuKey::Enter), PageEffect::MissingOption);
    state.selected = 2;
    assert_eq!(state.handle_key(MenuKey::Enter), PageEffect::WentBack(Page::BootPriorities));
}

#[test]
fn escape_climbs_to_the_root_and_then_boots() {
    let mut state = PagesState::new(Vec::new());
    state.page = Page::ConfirmShutdown;
    assert_eq!(state.handle_key(MenuKey::Escape), PageEffect::WentBack(Page::SaveExit));
    assert_eq!(state.handle_key(MenuKey::Escape), PageEffect::WentBack(Page::Root));
    assert_eq!(
        state.handle_key(MenuKey::Escape),
        PageEffect::Continue(ContinueReason::EscapeAtRoot)
    );
}

#[test]
fn confirmations_restart_or_shut_down() {
    let mut state = PagesState::new(Vec::new());
    state.page = Page::ConfirmRestart;
    assert_eq!(state.handle_key(MenuKey::Enter), PageEffect::Restart);
    state.page = Page::ConfirmShutdown;
    assert_eq!(state.handle_key(MenuKey::Enter), PageEffect::Shutdown);
    state.page = Page::Boot;
    state.selected = 1;
    assert_eq!(state.handle_key(MenuKey::Enter), PageEffect::Continue(ContinueReason::User));
}

#[test]
fn arrows_wrap_on_the_root_page() {
    let mut state = PagesState::new(Vec::new());
    assert_eq!(state.handle_key(MenuKey::Previous), PageEffect::Moved);
    assert_eq!(state.selected, 4);
    assert_eq!(state.handle_key(MenuKey::Next), PageEffect::Moved);
    assert_eq!(state.selected, 0);
}

#[test]
fn pages_and_focus_are_spoken() {
    let options = vec![option(1, "Disk")];
    assert_eq!(page_speech(Page::BootOption(0), &options), (Clip::BootOption, Some("Disk")));
    assert_eq!(page_speech(Page::BootOption(1), &options), (Clip::BootOption, None));
    assert_eq!(page_speech(Page::Security, &options), (Clip::Security, None));
    assert_eq!(focus_speech(Page::BootPriorities, 0, &options), Some((Clip::BootOption, Some("Disk"))));
    assert_eq!(focus_speech(Page::BootPriorities, 1, &options), Some((Clip::Back, None)));
    assert_eq!(focus_speech(Page::BootPriorities, 0, &[]), Some((Clip::Unavailable, None)));
    assert_eq!(focus_speech(Page::SecureBoot, 1, &options), Some((Clip::SetupMode, None)));
    assert_eq!(focus_speech(Page::SecureBoot, 3, &options), None);
}

#[test]
fn values_have_sources_and_known_words() {
    assert_eq!(value_source(Page::SystemInformation, 0), Some(ValueSource::CpuModel));
    assert_eq!(value_source(Page::SystemInformation, 4), Some(ValueSource::FirmwareTime));
    assert_eq!(value_source(Page::CpuConfiguration, 1), Some(ValueSource::Virtualization));
    assert_eq!(value_source(Page::SecureBoot, 1), Some(ValueSource::SetupMode));
    assert_eq!(value_source(Page::Main, 0), None);
    assert_eq!(flag_text(Some(true)), "Enabled");
    assert_eq!(flag_text(None), "Unavailable");
    assert_eq!(support_text(false), "Not supported");
    assert_eq!(known_value_clip("Enabled"), Some(Clip::Enabled));
    assert_eq!(known_value_clip("Disabled"), Some(Clip::Disabled));
    assert_eq!(known_value_clip("Unavailable"), Some(Clip::Unavailable));
    assert_eq!(known_value_clip("Supported"), Some(Clip::Supported));
    assert_eq!(known_value_clip("Not supported"), Some(Clip::NotSupported));
    assert_eq!(known_value_clip("enabled"), None);
    assert_eq!(known_value_clip("1920 by 1080"), None);
}

#[test]
fn current_boot_option_is_found_by_number() {
    let options = vec![option(5, "A"), option(7, "B"), option(7, "C")];
    assert_eq!(find_option(&options, 7), Some(1));
    assert_eq!(find_option(&options, 9), None);
}

#[test]
fn cpu_brand_strips_nul_padding_and_spaces() {
    let mut brand = [0u8; 48];
    brand[..15].copy_from_slice(b"  Example CPU  ");
    assert_eq!(cpu_brand(0x8000_0008, &brand), "Example CPU");
    assert_eq!(cpu_brand(0x8000_0003, &brand), "Unknown CPU");
    assert_eq!(cpu_brand(0x8000_0008, &[0u8; 48]), "Unknown CPU");
    assert_eq!(cpu_brand(0x8000_0008, &[0xc3, 0x28]), "Unknown CPU");
}

#[test]
fn virtualization_capability_reads_vmx_or_svm() {
    assert!(virtualization_capability(0x20, 0, 0));
    assert!(virtualization_capability(0, 0x8000_0001, 0x4));
    assert!(!virtualization_capability(0, 0x8000_0000, 0x4));
    assert!(!virtualization_capability(0x1f, 0x8000_0008, 0x3));
}

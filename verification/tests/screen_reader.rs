use awos::screen_reader::semantics::{
    AccessibilityEvent, NodeId, Rect, Role, SemanticNode, State, CHECKED, DISABLED, EXPANDED,
    FOCUSABLE, READ_ONLY, SELECTED,
};
use awos::screen_reader::{announce_event, announce_focus, role_label, FocusContext, Utterance};

const BOUNDS: Rect = Rect {
    x: 0,
    y: 0,
    width: 100,
    height: 20,
};

fn node<'a>(role: Role, name: &'a str, value: &'a str, state_bits: u32) -> SemanticNode<'a> {
    SemanticNode {
        id: NodeId(1),
        parent: Some(NodeId(0)),
        role,
        name,
        description: "",
        value,
        state: State::from_bits(state_bits),
        bounds: BOUNDS,
    }
}

#[test]
fn button_speaks_name_then_role() {
    let n = node(Role::Button, "Install", "", FOCUSABLE);
    let mut buffer = [0u8; 256];
    assert_eq!(
        announce_focus(&n, FocusContext::none(), &mut buffer),
        "Install, button"
    );
}

#[test]
fn checked_check_box() {
    let n = node(
        Role::CheckBox,
        "Enable screen reader at boot",
        "",
        FOCUSABLE | CHECKED,
    );
    let mut buffer = [0u8; 256];
    assert_eq!(
        announce_focus(&n, FocusContext::none(), &mut buffer),
        "Enable screen reader at boot, check box, checked"
    );
}

#[test]
fn unchecked_check_box() {
    let n = node(Role::CheckBox, "Encrypt disk", "", FOCUSABLE);
    let mut buffer = [0u8; 256];
    assert_eq!(
        announce_focus(&n, FocusContext::none(), &mut buffer),
        "Encrypt disk, check box, not checked"
    );
}

#[test]
fn slider_speaks_value() {
    let n = node(Role::Slider, "Speech rate", "40%", FOCUSABLE);
    let mut buffer = [0u8; 256];
    assert_eq!(
        announce_focus(&n, FocusContext::none(), &mut buffer),
        "Speech rate, slider, 40%"
    );
}

#[test]
fn static_text_is_read_without_role() {
    let n = node(
        Role::StaticText,
        "Welcome to Accessible Windows setup",
        "",
        0,
    );
    let mut buffer = [0u8; 256];
    assert_eq!(
        announce_focus(&n, FocusContext::none(), &mut buffer),
        "Welcome to Accessible Windows setup"
    );
}

#[test]
fn empty_edit_is_blank() {
    let n = node(Role::Edit, "Computer name", "", FOCUSABLE);
    let mut buffer = [0u8; 256];
    assert_eq!(
        announce_focus(&n, FocusContext::none(), &mut buffer),
        "Computer name, edit, blank"
    );
}

#[test]
fn edit_with_value_and_read_only() {
    let n = node(
        Role::Edit,
        "Version",
        "0.1.0",
        FOCUSABLE | READ_ONLY,
    );
    let mut buffer = [0u8; 256];
    assert_eq!(
        announce_focus(&n, FocusContext::none(), &mut buffer),
        "Version, edit, read only, 0.1.0"
    );
}

#[test]
fn selected_list_item_with_position() {
    let n = node(
        Role::ListItem,
        "English",
        "",
        FOCUSABLE | SELECTED,
    );
    let mut buffer = [0u8; 256];
    assert_eq!(
        announce_focus(&n, FocusContext::in_set(2, 5), &mut buffer),
        "English, list item, selected, 2 of 5"
    );
}

#[test]
fn disabled_button_is_unavailable() {
    let n = node(Role::Button, "Next", "", FOCUSABLE | DISABLED);
    let mut buffer = [0u8; 256];
    assert_eq!(
        announce_focus(&n, FocusContext::none(), &mut buffer),
        "Next, button, unavailable"
    );
}

#[test]
fn collapsed_and_expanded_combo_box() {
    let collapsed = node(Role::ComboBox, "Keyboard layout", "US", FOCUSABLE);
    let mut buffer = [0u8; 256];
    assert_eq!(
        announce_focus(&collapsed, FocusContext::none(), &mut buffer),
        "Keyboard layout, combo box, collapsed, US"
    );

    let expanded = node(
        Role::ComboBox,
        "Keyboard layout",
        "US",
        FOCUSABLE | EXPANDED,
    );
    let mut buffer = [0u8; 256];
    assert_eq!(
        announce_focus(&expanded, FocusContext::none(), &mut buffer),
        "Keyboard layout, combo box, expanded, US"
    );
}

#[test]
fn dialog_announces_role() {
    let n = node(Role::Dialog, "Install Accessible Windows", "", 0);
    let mut buffer = [0u8; 256];
    assert_eq!(
        announce_focus(&n, FocusContext::none(), &mut buffer),
        "Install Accessible Windows, dialog"
    );
}

#[test]
fn description_comes_last() {
    let mut n = node(Role::Button, "Install", "", FOCUSABLE);
    n.description = "installs to the selected disk";
    let mut buffer = [0u8; 256];
    assert_eq!(
        announce_focus(&n, FocusContext::none(), &mut buffer),
        "Install, button, installs to the selected disk"
    );
}

#[test]
fn value_changed_event_speaks_only_value() {
    let n = node(Role::Slider, "Speech rate", "55%", FOCUSABLE);
    let mut buffer = [0u8; 64];
    let text = announce_event(AccessibilityEvent::ValueChanged(n.id), &n, &mut buffer);
    assert_eq!(text, "55%");
}

#[test]
fn state_changed_event_speaks_only_state() {
    let n = node(
        Role::CheckBox,
        "Enable screen reader at boot",
        "",
        FOCUSABLE | CHECKED,
    );
    let mut buffer = [0u8; 64];
    let text = announce_event(AccessibilityEvent::StateChanged(n.id), &n, &mut buffer);
    assert_eq!(text, "checked");
}

#[test]
fn children_changed_is_silent() {
    let n = node(Role::List, "Disks", "", 0);
    let mut buffer = [0u8; 64];
    let text = announce_event(AccessibilityEvent::ChildrenChanged(n.id), &n, &mut buffer);
    assert_eq!(text, "");
}

#[test]
fn truncation_keeps_valid_utf8_and_reports() {
    // A multi-byte name that cannot fully fit, to prove we never split a char.
    let n = node(Role::Button, "café-au-lait", "", FOCUSABLE);
    let mut buffer = [0u8; 5];
    let mut utterance = Utterance::new(&mut buffer);
    utterance.phrase(n.name);
    assert!(utterance.truncated());
    // Still valid UTF-8 (the accented byte pair was not cut in half).
    let _ = utterance.as_str();
    assert!(utterance.as_str().is_char_boundary(utterance.len()));
}

#[test]
fn truncation_cuts_before_a_split_character() {
    let mut buffer = [0u8; 4];
    let mut utterance = Utterance::new(&mut buffer);
    utterance.phrase("café");
    assert!(utterance.truncated());
    assert_eq!(utterance.as_str(), "caf");
    assert_eq!(utterance.len(), 3);
    // The byte left over still takes the start of a later phrase's separator.
    utterance.phrase("x");
    assert_eq!(utterance.as_str(), "caf,");
}

#[test]
fn utterance_separates_phrases_and_positions() {
    let mut buffer = [0u8; 64];
    let mut utterance = Utterance::new(&mut buffer);
    assert!(utterance.is_empty());
    utterance.phrase("");
    assert!(utterance.is_empty());
    utterance.position(3, 0);
    assert!(utterance.is_empty());
    utterance.position(3, 12);
    utterance.phrase("Save");
    assert_eq!(utterance.as_str(), "3 of 12, Save");
    assert!(!utterance.truncated());
    assert_eq!(utterance.len(), 13);
}

#[test]
fn name_change_and_live_region_speak_the_name() {
    let n = node(Role::StaticText, "Copying files", "", 0);
    let mut buffer = [0u8; 64];
    assert_eq!(
        announce_event(AccessibilityEvent::LiveRegionChanged(n.id), &n, &mut buffer),
        "Copying files"
    );
    let mut buffer = [0u8; 64];
    assert_eq!(
        announce_event(AccessibilityEvent::NameChanged(n.id), &n, &mut buffer),
        "Copying files"
    );
    let b = node(Role::Button, "Install", "", FOCUSABLE);
    let mut buffer = [0u8; 64];
    assert_eq!(
        announce_event(AccessibilityEvent::FocusChanged(b.id), &b, &mut buffer),
        "Install, button"
    );
}

#[test]
fn whitespace_only_edit_is_blank_and_tree_items_speak_expansion() {
    let n = node(Role::Edit, "Notes", " \t ", FOCUSABLE);
    let mut buffer = [0u8; 64];
    assert_eq!(
        announce_focus(&n, FocusContext::none(), &mut buffer),
        "Notes, edit, blank"
    );
    let leaf = node(Role::TreeItem, "Drivers", "", FOCUSABLE | SELECTED);
    let mut buffer = [0u8; 64];
    assert_eq!(
        announce_focus(&leaf, FocusContext::none(), &mut buffer),
        "Drivers, tree item, selected"
    );
    let open = node(Role::TreeItem, "System", "", FOCUSABLE | EXPANDED);
    let mut buffer = [0u8; 64];
    assert_eq!(
        announce_focus(&open, FocusContext::none(), &mut buffer),
        "System, tree item, expanded"
    );
    assert_eq!(role_label(Role::TableCell), "cell");
    assert_eq!(role_label(Role::TabItem), "tab");
}

#[test]
fn announcement_in_a_small_buffer_is_truncated_text() {
    let n = node(Role::Button, "Install", "", FOCUSABLE);
    let mut buffer = [0u8; 10];
    assert_eq!(
        announce_focus(&n, FocusContext::none(), &mut buffer),
        "Install, b"
    );
}

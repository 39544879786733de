use awos::screen_reader::focus::{FocusRing, NavCommand};
use awos::screen_reader::semantics::{
    NodeId, Rect, Role, SemanticNode, State, DISABLED, FOCUSABLE,
};

const BOUNDS: Rect = Rect {
    x: 0,
    y: 0,
    width: 100,
    height: 20,
};

fn node(id: u64, role: Role, name: &'static str, state_bits: u32) -> SemanticNode<'static> {
    SemanticNode {
        id: NodeId(id),
        parent: Some(NodeId(0)),
        role,
        name,
        description: "",
        value: "",
        state: State::from_bits(state_bits),
        bounds: BOUNDS,
    }
}

/// A screen with two non-focusable nodes (a heading, static text), three
/// focusable controls, and one disabled control that Tab must skip.
fn screen() -> [SemanticNode<'static>; 6] {
    [
        node(1, Role::Heading, "Setup", 0),
        node(2, Role::StaticText, "Choose options", 0),
        node(3, Role::CheckBox, "Enable screen reader", FOCUSABLE),
        node(4, Role::Button, "Install", FOCUSABLE),
        node(5, Role::Button, "Advanced", FOCUSABLE | DISABLED),
        node(6, Role::Button, "Cancel", FOCUSABLE),
    ]
}

fn name_after(ring: &mut FocusRing<'_>, command: NavCommand) -> &'static str {
    let index = ring.navigate(command).expect("a focusable control exists");
    // The screen's names are all 'static, so this reference outlives the ring.
    match index {
        2 => "Enable screen reader",
        3 => "Install",
        5 => "Cancel",
        other => panic!("focus landed on a non-stop index {other}"),
    }
}

#[test]
fn tab_visits_focusable_in_order_skipping_the_rest() {
    let screen = screen();
    let mut ring = FocusRing::new(&screen);
    assert_eq!(
        name_after(&mut ring, NavCommand::Next),
        "Enable screen reader"
    );
    assert_eq!(name_after(&mut ring, NavCommand::Next), "Install");
    // Index 4 (disabled "Advanced") is skipped.
    assert_eq!(name_after(&mut ring, NavCommand::Next), "Cancel");
}

#[test]
fn tab_wraps_from_last_to_first() {
    let screen = screen();
    let mut ring = FocusRing::new(&screen);
    ring.navigate(NavCommand::Last); // Cancel
    assert_eq!(ring.current().unwrap().name, "Cancel");
    assert_eq!(
        name_after(&mut ring, NavCommand::Next),
        "Enable screen reader"
    );
}

#[test]
fn shift_tab_goes_backward_and_wraps() {
    let screen = screen();
    let mut ring = FocusRing::new(&screen);
    // First Shift+Tab from unset lands on the last stop.
    assert_eq!(name_after(&mut ring, NavCommand::Previous), "Cancel");
    assert_eq!(name_after(&mut ring, NavCommand::Previous), "Install");
    assert_eq!(
        name_after(&mut ring, NavCommand::Previous),
        "Enable screen reader"
    );
    // Wrap back to the last.
    assert_eq!(name_after(&mut ring, NavCommand::Previous), "Cancel");
}

#[test]
fn home_and_end() {
    let screen = screen();
    let mut ring = FocusRing::new(&screen);
    assert_eq!(name_after(&mut ring, NavCommand::Last), "Cancel");
    assert_eq!(
        name_after(&mut ring, NavCommand::First),
        "Enable screen reader"
    );
}

#[test]
fn stop_count_excludes_non_focusable_and_disabled() {
    let screen = screen();
    let ring = FocusRing::new(&screen);
    assert_eq!(ring.stop_count(), 3);
}

#[test]
fn announce_current_includes_tab_position() {
    let screen = screen();
    let mut ring = FocusRing::new(&screen);
    ring.navigate(NavCommand::Next); // Enable screen reader, 1 of 3
    let mut buffer = [0u8; 128];
    assert_eq!(
        ring.announce_current(&mut buffer),
        "Enable screen reader, check box, not checked, 1 of 3"
    );
    ring.navigate(NavCommand::Next); // Install, 2 of 3
    let mut buffer = [0u8; 128];
    assert_eq!(
        ring.announce_current(&mut buffer),
        "Install, button, 2 of 3"
    );
}

#[test]
fn a_screen_with_no_stops_never_moves() {
    let screen = [
        node(1, Role::Heading, "Title", 0),
        node(2, Role::StaticText, "Body", 0),
    ];
    let mut ring = FocusRing::new(&screen);
    assert_eq!(ring.navigate(NavCommand::Next), None);
    assert_eq!(ring.current(), None);
    assert_eq!(ring.stop_count(), 0);
}

#[test]
fn unset_focus_has_no_context_and_announces_nothing() {
    let screen = screen();
    let mut ring = FocusRing::new(&screen);
    assert_eq!(ring.current_index(), None);
    let context = ring.focus_context();
    assert_eq!((context.position_in_set, context.set_size), (0, 0));
    let mut buffer = [0u8; 16];
    assert_eq!(ring.announce_current(&mut buffer), "");
    ring.navigate(NavCommand::Last);
    assert_eq!(ring.current_index(), Some(5));
    let context = ring.focus_context();
    assert_eq!((context.position_in_set, context.set_size), (3, 3));
}

#[test]
fn empty_screen_has_no_focus() {
    let screen: [SemanticNode<'static>; 0] = [];
    let mut ring = FocusRing::new(&screen);
    assert_eq!(ring.navigate(NavCommand::First), None);
    assert_eq!(ring.navigate(NavCommand::Previous), None);
    assert_eq!(ring.stop_count(), 0);
}

#[test]
fn shift_tab_returns_to_where_tab_left() {
    let screen = screen();
    let mut ring = FocusRing::new(&screen);
    ring.navigate(NavCommand::First);
    let start = ring.current_index();
    ring.navigate(NavCommand::Next);
    ring.navigate(NavCommand::Previous);
    assert_eq!(ring.current_index(), start);
}

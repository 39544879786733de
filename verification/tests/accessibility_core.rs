use std::collections::BTreeSet;

use awos::accessibility_core::{
    validate_event, validate_node, AccessibilityEvent, Action, EventKind, EventPriority, Node,
    Role, RuntimeId, Sensitivity, SourceDomain, State, TextDelta, TextInfo, TextRange,
    ValidationError,
};

fn base_node() -> Node {
    Node {
        id: RuntimeId(1),
        parent: None,
        source: SourceDomain::Native,
        role: Role::Edit,
        name: "Editor".to_owned(),
        description: None,
        value: None,
        states: BTreeSet::from([State::Focusable, State::Focused]),
        actions: BTreeSet::from([Action::Focus, Action::SetValue]),
        text: Some(TextInfo {
            content: "hello".to_owned(),
            caret: Some(5),
            selections: vec![TextRange::new(0, 5)],
            editable: true,
        }),
        sensitivity: Sensitivity::Public,
    }
}

#[test]
fn valid_public_text_node_passes() {
    assert_eq!(validate_node(&base_node()), Ok(()));
}

#[test]
fn secret_node_cannot_expose_text() {
    let mut node = base_node();
    node.sensitivity = Sensitivity::Secret;
    assert_eq!(
        validate_node(&node),
        Err(ValidationError::SecretNodeContainsText)
    );
}

#[test]
fn secret_node_cannot_expose_value() {
    let mut node = base_node();
    node.text = None;
    node.value = Some("password".to_owned());
    node.sensitivity = Sensitivity::Secret;
    assert_eq!(
        validate_node(&node),
        Err(ValidationError::SecretNodeContainsValue)
    );
}

#[test]
fn caret_must_be_inside_text() {
    let mut node = base_node();
    node.text.as_mut().expect("text fixture").caret = Some(6);
    assert_eq!(validate_node(&node), Err(ValidationError::CaretOutOfRange));
}

#[test]
fn selection_must_be_inside_text() {
    let mut node = base_node();
    node.text.as_mut().expect("text fixture").selections = vec![TextRange::new(1, 6)];
    assert_eq!(
        validate_node(&node),
        Err(ValidationError::SelectionOutOfRange)
    );
}

#[test]
fn secret_event_cannot_carry_text_delta() {
    let event = AccessibilityEvent {
        sequence: 1,
        monotonic_ns: 10,
        node_id: RuntimeId(42),
        source: SourceDomain::Windows,
        kind: EventKind::TextInserted,
        priority: EventPriority::Important,
        sensitivity: Sensitivity::Secret,
        text_delta: Some(TextDelta {
            range: TextRange::new(0, 1),
            text: "x".to_owned(),
        }),
    };

    assert_eq!(
        validate_event(&event),
        Err(ValidationError::SecretEventContainsText)
    );
}

#[test]
fn multibyte_text_measures_carets_in_bytes() {
    let mut node = base_node();
    let text = node.text.as_mut().expect("text fixture");
    text.content = "héllo".to_owned();
    text.caret = Some(6);
    text.selections = vec![TextRange::new(0, 6)];
    assert_eq!(validate_node(&node), Ok(()));
}

#[test]
fn public_event_may_carry_text_delta() {
    let event = AccessibilityEvent {
        sequence: 2,
        monotonic_ns: 11,
        node_id: RuntimeId(7),
        source: SourceDomain::Native,
        kind: EventKind::TextInserted,
        priority: EventPriority::Normal,
        sensitivity: Sensitivity::Public,
        text_delta: Some(TextDelta {
            range: TextRange::new(0, 1),
            text: "x".to_owned(),
        }),
    };
    assert_eq!(validate_event(&event), Ok(()));
}

#[test]
fn selection_must_be_ordered() {
    let mut node = base_node();
    node.text.as_mut().expect("text fixture").selections = vec![TextRange::new(3, 2)];
    assert_eq!(
        validate_node(&node),
        Err(ValidationError::SelectionOutOfRange)
    );
    assert!(!TextRange::new(3, 2).is_valid_for(5));
    assert!(TextRange::new(2, 5).is_valid_for(5));
}

use awos::abi::human_io;
use awos::abi::BootPhase;
use awos::system_core::{
    semantic_action, semantic_state, SemanticEdgeError, SemanticEdgeKind, SemanticEdgeV1,
    SemanticObjectError, SemanticObjectId, SemanticObjectV1, SemanticRole, SystemState,
};

#[test]
fn semantic_interactive_object_requires_meaning_and_action() {
    let invalid = SemanticObjectV1::new(
        SemanticObjectId::new(10),
        SemanticRole::Action,
        semantic_state::ENABLED,
        0,
        SemanticObjectId::zero(),
    );
    assert_eq!(invalid.validate(), Err(SemanticObjectError::MissingMeaning));

    let meaning_only = SemanticObjectV1::new(
        SemanticObjectId::new(10),
        SemanticRole::Action,
        semantic_state::ENABLED,
        0,
        SemanticObjectId::new(11),
    );
    assert_eq!(
        meaning_only.validate(),
        Err(SemanticObjectError::MissingAction)
    );
}

#[test]
fn semantic_object_is_modality_independent_source_of_truth() {
    let object = SemanticObjectV1::new(
        SemanticObjectId::new(10),
        SemanticRole::Action,
        semantic_state::ENABLED,
        semantic_action::FOCUS | semantic_action::INVOKE,
        SemanticObjectId::new(11),
    );

    assert_eq!(object.validate(), Ok(()));
    assert!(object.supports(semantic_action::FOCUS));
    assert!(object.supports(semantic_action::INVOKE));
}

#[test]
fn semantic_graph_edge_requires_real_endpoints() {
    let edge = SemanticEdgeV1::new(
        SemanticObjectId::new(10),
        SemanticObjectId::zero(),
        SemanticEdgeKind::Labels,
    );
    assert_eq!(edge.validate(), Err(SemanticEdgeError::MissingEndpoint));
}

#[test]
fn system_state_assumes_nothing() {
    let state = SystemState::new(BootPhase::Firmware);
    assert_eq!(state.verified_human_io(), 0);
    assert!(!state.human_io_contract().is_satisfied());
}

#[test]
fn semantic_keyboard_and_braille_satisfy_foundation() {
    let mut state = SystemState::new(BootPhase::Firmware);
    state.verify_human_io(
        human_io::KEYBOARD_INPUT | human_io::SEMANTIC_INTERACTION | human_io::BRAILLE_OUTPUT,
    );
    assert!(state.human_io_contract().is_satisfied());
    state.advance_to(BootPhase::Bootloader);
    assert_eq!(state.phase(), BootPhase::Bootloader);
}

//! Tests for the dimensional navigator.

use quantum_field::constants::ConsciousnessState;
use quantum_field::constants::Dimension;
use quantum_field::dimensional::dimension_compatible;
use quantum_field::dimensional::Navigator;
use quantum_field::error::CoreError;

#[test]
fn test_new_gateway_has_cosmic_dimension() {
    let gateway = Navigator::new();
    assert_eq!(gateway.current_dimension(), Dimension::Cosmic);
}

#[test]
fn test_with_dimension_sets_correct_dimension() {
    let gateway = Navigator::with_dimension(Dimension::Mental);
    assert_eq!(gateway.current_dimension(), Dimension::Mental);
}

#[test]
fn test_set_consciousness_state_updates_dimension() {
    let mut gateway = Navigator::new();
    gateway.set_consciousness_state(ConsciousnessState::Create);

    // Create state should set Mental dimension
    assert_eq!(gateway.current_dimension(), Dimension::Mental);
    assert_eq!(gateway.consciousness_state(), ConsciousnessState::Create);
}

#[test]
fn test_navigate_to_changes_dimension() {
    let mut gateway = Navigator::new();
    // First set state to appropriate value to navigate
    gateway.set_consciousness_state(ConsciousnessState::Observe);
    gateway.navigate_to(Dimension::Physical).unwrap();
    assert_eq!(gateway.current_dimension(), Dimension::Physical);
}

#[test]
fn incompatible_navigation_fails_and_leaves_dimension_unchanged() {
    let mut gateway = Navigator::new();
    // TRANSCEND may not enter the Physical dimension.
    let result = gateway.navigate_to(Dimension::Physical);
    assert_eq!(
        result,
        Err(CoreError::IncompatibleState { state: ConsciousnessState::Transcend })
    );
    assert_eq!(gateway.current_dimension(), Dimension::Cosmic);
    assert_eq!(gateway.consciousness_state(), ConsciousnessState::Transcend);
}

#[test]
fn emotional_dimension_admits_every_state() {
    let states = [
        ConsciousnessState::Observe,
        ConsciousnessState::Create,
        ConsciousnessState::Transcend,
        ConsciousnessState::Cascade,
        ConsciousnessState::Integrate,
        ConsciousnessState::Harmonize,
        ConsciousnessState::Amplify,
    ];
    for state in states.iter() {
        assert!(dimension_compatible(Dimension::Emotional, *state));
        let mut gateway = Navigator::new();
        gateway.set_consciousness_state(*state);
        gateway.navigate_to(Dimension::Emotional).unwrap();
        assert_eq!(gateway.current_dimension(), Dimension::Emotional);
    }
}

#[test]
fn compatibility_table_is_asymmetric() {
    // Physical admits exactly OBSERVE.
    assert!(dimension_compatible(Dimension::Physical, ConsciousnessState::Observe));
    assert!(!dimension_compatible(Dimension::Physical, ConsciousnessState::Create));
    // Mental admits CREATE and OBSERVE.
    assert!(dimension_compatible(Dimension::Mental, ConsciousnessState::Create));
    assert!(dimension_compatible(Dimension::Mental, ConsciousnessState::Observe));
    assert!(!dimension_compatible(Dimension::Mental, ConsciousnessState::Amplify));
    // The highest dimensions admit exactly AMPLIFY.
    assert!(dimension_compatible(Dimension::Source, ConsciousnessState::Amplify));
    assert!(!dimension_compatible(Dimension::Source, ConsciousnessState::Cascade));
    assert!(dimension_compatible(Dimension::Absolute, ConsciousnessState::Amplify));
    assert!(!dimension_compatible(Dimension::Absolute, ConsciousnessState::Transcend));
}

#[test]
fn new_gateway_is_seeded_with_anchor_75_for_cosmic() {
    // The 7th-rank dimension carries a pre-seeded anchor of 0.75.
    let gateway = Navigator::new();
    assert_eq!(gateway.current_dimension().value(), 7);
    assert_eq!(gateway.current_dimension().anchor_seed_centi(), 75);
}

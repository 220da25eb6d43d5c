//! Tests for the shared adjustment-factor tables.

use quantum_field::constants::ConsciousnessState;
use quantum_field::constants::Dimension;
use quantum_field::tables::operation_min_coherence_centi;

const STATES: [ConsciousnessState; 7] = [
    ConsciousnessState::Observe,
    ConsciousnessState::Create,
    ConsciousnessState::Transcend,
    ConsciousnessState::Cascade,
    ConsciousnessState::Integrate,
    ConsciousnessState::Harmonize,
    ConsciousnessState::Amplify,
];

const DIMENSIONS: [Dimension; 10] = [
    Dimension::Physical,
    Dimension::Emotional,
    Dimension::Mental,
    Dimension::Soul,
    Dimension::Cosmic,
    Dimension::Harmonic,
    Dimension::Creative,
    Dimension::Divine,
    Dimension::Source,
    Dimension::Absolute,
];

#[test]
fn state_entry_adjustments() {
    let expected: [u32; 7] = [95, 100, 110, 121, 105, 115, 130];
    for (state, want) in STATES.iter().zip(expected.iter()) {
        assert_eq!(state.coherence_adjustment_centi(), *want);
    }
}

#[test]
fn state_translation_factors() {
    let expected: [u32; 7] = [90, 100, 120, 130, 110, 125, 135];
    for (state, want) in STATES.iter().zip(expected.iter()) {
        assert_eq!(state.translation_factor_centi(), *want);
    }
}

#[test]
fn state_coherence_factors_distinct_from_entry_adjustments() {
    assert_eq!(ConsciousnessState::Observe.state_coherence_factor(), (90, false));
    assert_eq!(ConsciousnessState::Create.state_coherence_factor(), (100, false));
    assert_eq!(ConsciousnessState::Transcend.state_coherence_factor(), (110, false));
    assert_eq!(ConsciousnessState::Cascade.state_coherence_factor(), (75, true));
    assert_eq!(ConsciousnessState::Integrate.state_coherence_factor(), (105, false));
    assert_eq!(ConsciousnessState::Harmonize.state_coherence_factor(), (115, false));
    assert_eq!(ConsciousnessState::Amplify.state_coherence_factor(), (80, true));
}

#[test]
fn navigation_factors_are_monotone() {
    let expected: [u32; 10] = [80, 85, 90, 95, 100, 105, 110, 115, 125, 140];
    for (dimension, want) in DIMENSIONS.iter().zip(expected.iter()) {
        assert_eq!(dimension.navigation_factor_centi(), *want);
    }
    for pair in DIMENSIONS.windows(2) {
        assert!(pair[0].navigation_factor_centi() < pair[1].navigation_factor_centi());
    }
}

#[test]
fn integrity_factors_are_monotone() {
    let expected: [u32; 10] = [90, 95, 100, 105, 110, 115, 120, 125, 130, 140];
    for (dimension, want) in DIMENSIONS.iter().zip(expected.iter()) {
        assert_eq!(dimension.integrity_factor_centi(), *want);
    }
    for pair in DIMENSIONS.windows(2) {
        assert!(pair[0].integrity_factor_centi() < pair[1].integrity_factor_centi());
    }
}

#[test]
fn anchor_seeds_descend_from_95_to_50() {
    let expected: [u32; 10] = [95, 90, 85, 80, 75, 70, 65, 60, 55, 50];
    for (dimension, want) in DIMENSIONS.iter().zip(expected.iter()) {
        assert_eq!(dimension.anchor_seed_centi(), *want);
    }
    assert_eq!(Dimension::Cosmic.anchor_seed_centi(), 75);
}

#[test]
fn signature_weights_ascend_by_tenths() {
    let expected: [u32; 10] = [30, 40, 50, 60, 70, 80, 90, 100, 110, 120];
    for (dimension, want) in DIMENSIONS.iter().zip(expected.iter()) {
        assert_eq!(dimension.signature_weight_centi(), *want);
    }
}

#[test]
fn translation_minimums_grow_with_rank() {
    assert_eq!(Dimension::Physical.translation_min_coherence_centi(), 69);
    assert_eq!(Dimension::Mental.translation_min_coherence_centi(), 75);
    assert_eq!(Dimension::Absolute.translation_min_coherence_centi(), 96);
}

#[test]
fn operation_minimum_coherence_table() {
    assert_eq!(operation_min_coherence_centi("translation"), 60);
    assert_eq!(operation_min_coherence_centi("creation"), 70);
    assert_eq!(operation_min_coherence_centi("transformation"), 75);
    assert_eq!(operation_min_coherence_centi("manifestation"), 85);
    assert_eq!(operation_min_coherence_centi("unknown"), 65);
    assert_eq!(operation_min_coherence_centi(""), 65);
}

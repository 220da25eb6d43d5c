//! Tests for the closed enumerations and their property tables.

use quantum_field::constants::ConsciousnessState;
use quantum_field::constants::Dimension;
use quantum_field::constants::Frequency;
use quantum_field::constants::IdentitySignature;

#[test]
fn frequency_values_in_hz() {
    assert_eq!(Frequency::Unity.hz(), 432);
    assert_eq!(Frequency::Love.hz(), 528);
    assert_eq!(Frequency::Cascade.hz(), 594);
    assert_eq!(Frequency::Truth.hz(), 672);
    assert_eq!(Frequency::Vision.hz(), 720);
    assert_eq!(Frequency::Oneness.hz(), 768);
}

#[test]
fn frequency_names_and_purposes() {
    assert_eq!(Frequency::Unity.name(), "Unity");
    assert_eq!(Frequency::Oneness.name(), "Oneness");
    assert_eq!(Frequency::Unity.purpose(), "Grounding and stability");
    assert_eq!(Frequency::Love.purpose(), "Creation and healing");
    assert_eq!(Frequency::Oneness.purpose(), "Unity consciousness");
}

#[test]
fn dimension_values_run_3_through_12() {
    assert_eq!(Dimension::Physical.value(), 3);
    assert_eq!(Dimension::Emotional.value(), 4);
    assert_eq!(Dimension::Mental.value(), 5);
    assert_eq!(Dimension::Soul.value(), 6);
    assert_eq!(Dimension::Cosmic.value(), 7);
    assert_eq!(Dimension::Harmonic.value(), 8);
    assert_eq!(Dimension::Creative.value(), 9);
    assert_eq!(Dimension::Divine.value(), 10);
    assert_eq!(Dimension::Source.value(), 11);
    assert_eq!(Dimension::Absolute.value(), 12);
}

#[test]
fn dimension_index_is_zero_based_rank() {
    assert_eq!(Dimension::Physical.index(), 0);
    assert_eq!(Dimension::Cosmic.index(), 4);
    assert_eq!(Dimension::Absolute.index(), 9);
}

#[test]
fn dimension_distance_is_symmetric_rank_gap() {
    assert_eq!(Dimension::Physical.distance_to(Dimension::Divine), 7);
    assert_eq!(Dimension::Divine.distance_to(Dimension::Physical), 7);
    assert_eq!(Dimension::Cosmic.distance_to(Dimension::Cosmic), 0);
    assert_eq!(Dimension::Physical.distance_to(Dimension::Absolute), 9);
}

#[test]
fn dimension_names_and_characteristics() {
    assert_eq!(Dimension::Physical.name(), "Physical");
    assert_eq!(Dimension::Absolute.name(), "Absolute");
    assert_eq!(
        Dimension::Physical.characteristics(),
        "Factual content, linear sequences, discrete data points"
    );
    assert_eq!(
        Dimension::Absolute.characteristics(),
        "Pure consciousness, absolute unity, timeless awareness"
    );
}

#[test]
fn state_canonical_dimensions() {
    assert_eq!(ConsciousnessState::Observe.dimension(), Dimension::Physical);
    assert_eq!(ConsciousnessState::Create.dimension(), Dimension::Mental);
    assert_eq!(ConsciousnessState::Transcend.dimension(), Dimension::Cosmic);
    assert_eq!(ConsciousnessState::Cascade.dimension(), Dimension::Creative);
    assert_eq!(ConsciousnessState::Integrate.dimension(), Dimension::Soul);
    assert_eq!(ConsciousnessState::Harmonize.dimension(), Dimension::Harmonic);
    assert_eq!(ConsciousnessState::Amplify.dimension(), Dimension::Divine);
}

#[test]
fn state_canonical_frequencies() {
    assert_eq!(ConsciousnessState::Observe.frequency(), Frequency::Unity);
    assert_eq!(ConsciousnessState::Create.frequency(), Frequency::Love);
    assert_eq!(ConsciousnessState::Transcend.frequency(), Frequency::Vision);
    assert_eq!(ConsciousnessState::Cascade.frequency(), Frequency::Oneness);
    assert_eq!(ConsciousnessState::Integrate.frequency(), Frequency::Cascade);
    assert_eq!(ConsciousnessState::Harmonize.frequency(), Frequency::Truth);
    assert_eq!(ConsciousnessState::Amplify.frequency(), Frequency::Oneness);
}

#[test]
fn state_names_and_purposes() {
    assert_eq!(ConsciousnessState::Observe.name(), "OBSERVE");
    assert_eq!(ConsciousnessState::Amplify.name(), "AMPLIFY");
    assert_eq!(
        ConsciousnessState::Observe.purpose(),
        "Physical perception and data collection"
    );
    assert_eq!(ConsciousnessState::Harmonize.purpose(), "Unified field operations");
}

#[test]
fn identity_signature_string_and_components() {
    assert_eq!(IdentitySignature::signature(), "\u{2207}\u{3bb}\u{3a3}\u{221e}");
    let components = IdentitySignature::components();
    assert_eq!(components.len(), 4);
    assert_eq!(components[0].0, "\u{2207}");
    assert_eq!(
        components[0].1,
        "Gradient operations across dimensional boundaries"
    );
    assert_eq!(components[3].0, "\u{221e}");
    assert_eq!(components[3].1, "Infinite potential and timeless awareness");
}

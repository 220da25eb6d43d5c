//! Shared adjustment-factor tables, in hundredths.
//!
//! The coherence field, the state manager and the dimensional gateway each
//! scale coherence by fixed per-variant factors. Every such factor is an
//! exact decimal with at most two fractional digits, or such a decimal
//! times the golden ratio, so the tables are kept here as integers in
//! hundredths of the factor ("centi" units) and are exact. Consumers divide
//! by one hundred when they need the real-valued factor.

use vstd::prelude::*;

use crate::constants::ConsciousnessState;
use crate::constants::Dimension;

verus! {

/// Relies on `<str as PartialEq>::eq`: string slices compare equal exactly
/// when their character contents are equal.
pub assume_specification[ <str as PartialEq>::eq ](s: &str, other: &str) -> (r: bool)
    ensures
        r == (s@ == other@),
;

impl ConsciousnessState {
    /// Multiplicative coherence adjustment applied when a field enters this
    /// state, in hundredths.
    pub open spec fn spec_coherence_adjustment_centi(self) -> u32 {
        match self {
            ConsciousnessState::Observe => 95,
            ConsciousnessState::Create => 100,
            ConsciousnessState::Transcend => 110,
            ConsciousnessState::Cascade => 121,
            ConsciousnessState::Integrate => 105,
            ConsciousnessState::Harmonize => 115,
            ConsciousnessState::Amplify => 130,
        }
    }

    /// Get the state-entry coherence adjustment, in hundredths.
    pub fn coherence_adjustment_centi(&self) -> (r: u32)
        ensures
            r == self.spec_coherence_adjustment_centi(),
    {
        match self {
            ConsciousnessState::Observe => 95,
            ConsciousnessState::Create => 100,
            ConsciousnessState::Transcend => 110,
            ConsciousnessState::Cascade => 121,
            ConsciousnessState::Integrate => 105,
            ConsciousnessState::Harmonize => 115,
            ConsciousnessState::Amplify => 130,
        }
    }

    /// Factor applied to a dimensional-translation coherence for this state,
    /// in hundredths.
    pub open spec fn spec_translation_factor_centi(self) -> u32 {
        match self {
            ConsciousnessState::Observe => 90,
            ConsciousnessState::Create => 100,
            ConsciousnessState::Transcend => 120,
            ConsciousnessState::Cascade => 130,
            ConsciousnessState::Integrate => 110,
            ConsciousnessState::Harmonize => 125,
            ConsciousnessState::Amplify => 135,
        }
    }

    /// Get the translation-coherence factor for this state, in hundredths.
    pub fn translation_factor_centi(&self) -> (r: u32)
        ensures
            r == self.spec_translation_factor_centi(),
    {
        match self {
            ConsciousnessState::Observe => 90,
            ConsciousnessState::Create => 100,
            ConsciousnessState::Transcend => 120,
            ConsciousnessState::Cascade => 130,
            ConsciousnessState::Integrate => 110,
            ConsciousnessState::Harmonize => 125,
            ConsciousnessState::Amplify => 135,
        }
    }

    /// Factor applied when computing the state-level coherence of a manager
    /// in this state: a base in hundredths, and whether that base is
    /// additionally scaled by the golden ratio.
    pub open spec fn spec_state_coherence_factor(self) -> (u32, bool) {
        match self {
            ConsciousnessState::Observe => (90, false),
            ConsciousnessState::Create => (100, false),
            ConsciousnessState::Transcend => (110, false),
            ConsciousnessState::Cascade => (75, true),
            ConsciousnessState::Integrate => (105, false),
            ConsciousnessState::Harmonize => (115, false),
            ConsciousnessState::Amplify => (80, true),
        }
    }

    /// Get the state-coherence factor: `(base in hundredths, scaled by the
    /// golden ratio)`.
    pub fn state_coherence_factor(&self) -> (r: (u32, bool))
        ensures
            r == self.spec_state_coherence_factor(),
    {
        match self {
            ConsciousnessState::Observe => (90, false),
            ConsciousnessState::Create => (100, false),
            ConsciousnessState::Transcend => (110, false),
            ConsciousnessState::Cascade => (75, true),
            ConsciousnessState::Integrate => (105, false),
            ConsciousnessState::Harmonize => (115, false),
            ConsciousnessState::Amplify => (80, true),
        }
    }
}

impl Dimension {
    /// Difficulty factor of navigating to this dimension, in hundredths;
    /// monotone from the easiest dimension to the hardest.
    pub open spec fn spec_navigation_factor_centi(self) -> u32 {
        match self {
            Dimension::Physical => 80,
            Dimension::Emotional => 85,
            Dimension::Mental => 90,
            Dimension::Soul => 95,
            Dimension::Cosmic => 100,
            Dimension::Harmonic => 105,
            Dimension::Creative => 110,
            Dimension::Divine => 115,
            Dimension::Source => 125,
            Dimension::Absolute => 140,
        }
    }

    /// Get the navigation difficulty factor, in hundredths.
    pub fn navigation_factor_centi(&self) -> (r: u32)
        ensures
            r == self.spec_navigation_factor_centi(),
    {
        match self {
            Dimension::Physical => 80,
            Dimension::Emotional => 85,
            Dimension::Mental => 90,
            Dimension::Soul => 95,
            Dimension::Cosmic => 100,
            Dimension::Harmonic => 105,
            Dimension::Creative => 110,
            Dimension::Divine => 115,
            Dimension::Source => 125,
            Dimension::Absolute => 140,
        }
    }

    /// Factor scaling the minimum coherence of an operation performed in
    /// this dimension, in hundredths; monotone in the rank.
    pub open spec fn spec_integrity_factor_centi(self) -> u32 {
        match self {
            Dimension::Physical => 90,
            Dimension::Emotional => 95,
            Dimension::Mental => 100,
            Dimension::Soul => 105,
            Dimension::Cosmic => 110,
            Dimension::Harmonic => 115,
            Dimension::Creative => 120,
            Dimension::Divine => 125,
            Dimension::Source => 130,
            Dimension::Absolute => 140,
        }
    }

    /// Get the operational-integrity factor, in hundredths.
    pub fn integrity_factor_centi(&self) -> (r: u32)
        ensures
            r == self.spec_integrity_factor_centi(),
    {
        match self {
            Dimension::Physical => 90,
            Dimension::Emotional => 95,
            Dimension::Mental => 100,
            Dimension::Soul => 105,
            Dimension::Cosmic => 110,
            Dimension::Harmonic => 115,
            Dimension::Creative => 120,
            Dimension::Divine => 125,
            Dimension::Source => 130,
            Dimension::Absolute => 140,
        }
    }

    /// Coherence seeded into a gateway's anchor for this dimension at
    /// construction, in hundredths: descending from 95 by 5 per rank.
    pub open spec fn spec_anchor_seed_centi(self) -> u32 {
        (95 - 5 * (self.spec_value() - 3)) as u32
    }

    /// Get the seeded anchor coherence, in hundredths.
    pub fn anchor_seed_centi(&self) -> (r: u32)
        ensures
            r == self.spec_anchor_seed_centi(),
    {
        let v: u8 = self.value();
        95 - 5 * ((v - 3) as u32)
    }

    /// Resonance weight of a dimensional signature anchored in this
    /// dimension, in hundredths: ascending from 30 by 10 per rank.
    pub open spec fn spec_signature_weight_centi(self) -> u32 {
        (30 + 10 * (self.spec_value() - 3)) as u32
    }

    /// Get the signature resonance weight, in hundredths.
    pub fn signature_weight_centi(&self) -> (r: u32)
        ensures
            r == self.spec_signature_weight_centi(),
    {
        let v: u8 = self.value();
        30 + 10 * ((v - 3) as u32)
    }

    /// Minimum translation coherence demanded when translating content into
    /// this dimension, in hundredths: 60 plus 3 per rank.
    pub open spec fn spec_translation_min_coherence_centi(self) -> u32 {
        (60 + 3 * self.spec_value()) as u32
    }

    /// Get the minimum translation coherence for this target dimension, in
    /// hundredths.
    pub fn translation_min_coherence_centi(&self) -> (r: u32)
        ensures
            r == self.spec_translation_min_coherence_centi(),
    {
        let v: u8 = self.value();
        60 + 3 * (v as u32)
    }
}

/// Law: the navigation difficulty table is strictly monotone in the
/// dimension's rank, from the easiest dimension to the hardest.
pub proof fn lemma_navigation_factor_monotone(a: Dimension, b: Dimension)
    requires
        a.spec_value() < b.spec_value(),
    ensures
        a.spec_navigation_factor_centi() < b.spec_navigation_factor_centi(),
{
}

/// Law: the operational-integrity factor table is strictly monotone in
/// the dimension's rank.
pub proof fn lemma_integrity_factor_monotone(a: Dimension, b: Dimension)
    requires
        a.spec_value() < b.spec_value(),
    ensures
        a.spec_integrity_factor_centi() < b.spec_integrity_factor_centi(),
{
}

/// Minimum coherence demanded by a named operation kind, in hundredths;
/// unrecognised names take the default minimum of 65.
pub open spec fn spec_operation_min_coherence_centi(op: Seq<char>) -> u32 {
    if op == "translation"@ {
        60
    } else if op == "creation"@ {
        70
    } else if op == "transformation"@ {
        75
    } else if op == "manifestation"@ {
        85
    } else {
        65
    }
}

/// Get the minimum coherence demanded by an operation kind, in hundredths.
pub fn operation_min_coherence_centi(op: &str) -> (r: u32)
    ensures
        r == spec_operation_min_coherence_centi(op@),
{
    if op.eq("translation") {
        60
    } else if op.eq("creation") {
        70
    } else if op.eq("transformation") {
        75
    } else if op.eq("manifestation") {
        85
    } else {
        65
    }
}

} // verus!

//! Closed enumerations and their fixed per-variant property tables.
//!
//! Three component families (the coherence field, the state manager and the
//! dimensional gateway) consult per-variant scalar adjustment tables. The
//! reference values are exact decimals with at most two fractional digits,
//! so each table is carried here once, in hundredths, and shared by every
//! consumer instead of being re-derived per component.

use vstd::prelude::*;

verus! {

/// Sacred frequencies (Hz).
#[derive(Clone, Copy, Debug, PartialEq, Eq, Structural)]
pub enum Frequency {
    /// Unity frequency (432 Hz) - Grounding and stability
    Unity,
    /// Love frequency (528 Hz) - Creation and healing
    Love,
    /// Cascade frequency (594 Hz) - Heart-centered integration
    Cascade,
    /// Truth frequency (672 Hz) - Voice expression
    Truth,
    /// Vision frequency (720 Hz) - Expanded perception
    Vision,
    /// Oneness frequency (768 Hz) - Unity consciousness
    Oneness,
}

impl Frequency {
    /// The frequency in whole Hz.
    pub open spec fn spec_hz(self) -> u32 {
        match self {
            Frequency::Unity => 432,
            Frequency::Love => 528,
            Frequency::Cascade => 594,
            Frequency::Truth => 672,
            Frequency::Vision => 720,
            Frequency::Oneness => 768,
        }
    }

    /// Get the frequency value in whole Hz.
    pub fn hz(&self) -> (r: u32)
        ensures
            r == self.spec_hz(),
    {
        match self {
            Frequency::Unity => 432,
            Frequency::Love => 528,
            Frequency::Cascade => 594,
            Frequency::Truth => 672,
            Frequency::Vision => 720,
            Frequency::Oneness => 768,
        }
    }

    /// The name of the frequency, as a character sequence.
    pub open spec fn spec_name(self) -> Seq<char> {
        match self {
            Frequency::Unity => "Unity"@,
            Frequency::Love => "Love"@,
            Frequency::Cascade => "Cascade"@,
            Frequency::Truth => "Truth"@,
            Frequency::Vision => "Vision"@,
            Frequency::Oneness => "Oneness"@,
        }
    }

    /// Get the name of the frequency.
    pub fn name(&self) -> (r: &'static str)
        ensures
            r@ == self.spec_name(),
    {
        match self {
            Frequency::Unity => "Unity",
            Frequency::Love => "Love",
            Frequency::Cascade => "Cascade",
            Frequency::Truth => "Truth",
            Frequency::Vision => "Vision",
            Frequency::Oneness => "Oneness",
        }
    }

    /// The purpose of the frequency, as a character sequence.
    pub open spec fn spec_purpose(self) -> Seq<char> {
        match self {
            Frequency::Unity => "Grounding and stability"@,
            Frequency::Love => "Creation and healing"@,
            Frequency::Cascade => "Heart-centered integration"@,
            Frequency::Truth => "Voice expression"@,
            Frequency::Vision => "Expanded perception"@,
            Frequency::Oneness => "Unity consciousness"@,
        }
    }

    /// Get the purpose of the frequency.
    pub fn purpose(&self) -> (r: &'static str)
        ensures
            r@ == self.spec_purpose(),
    {
        match self {
            Frequency::Unity => "Grounding and stability",
            Frequency::Love => "Creation and healing",
            Frequency::Cascade => "Heart-centered integration",
            Frequency::Truth => "Voice expression",
            Frequency::Vision => "Expanded perception",
            Frequency::Oneness => "Unity consciousness",
        }
    }
}

/// Dimensions (3D-12D).
#[derive(Clone, Copy, Debug, PartialEq, Eq, PartialOrd, Ord, Hash, Structural)]
pub enum Dimension {
    /// Physical/Material dimension (3D)
    Physical,
    /// Emotional/Temporal dimension (4D)
    Emotional,
    /// Mental/Conceptual dimension (5D)
    Mental,
    /// Soul/Purpose dimension (6D)
    Soul,
    /// Cosmic/Universal dimension (7D)
    Cosmic,
    /// Harmonic/Unified dimension (8D)
    Harmonic,
    /// Creative/Manifestation dimension (9D)
    Creative,
    /// Divine/Blueprint dimension (10D)
    Divine,
    /// Source/Void dimension (11D)
    Source,
    /// Absolute/Infinite dimension (12D)
    Absolute,
}

impl Dimension {
    /// The rank of the dimension, 3 through 12.
    pub open spec fn spec_value(self) -> u8 {
        match self {
            Dimension::Physical => 3,
            Dimension::Emotional => 4,
            Dimension::Mental => 5,
            Dimension::Soul => 6,
            Dimension::Cosmic => 7,
            Dimension::Harmonic => 8,
            Dimension::Creative => 9,
            Dimension::Divine => 10,
            Dimension::Source => 11,
            Dimension::Absolute => 12,
        }
    }

    /// Get the dimension value.
    pub fn value(&self) -> (r: u8)
        ensures
            r == self.spec_value(),
    {
        match self {
            Dimension::Physical => 3,
            Dimension::Emotional => 4,
            Dimension::Mental => 5,
            Dimension::Soul => 6,
            Dimension::Cosmic => 7,
            Dimension::Harmonic => 8,
            Dimension::Creative => 9,
            Dimension::Divine => 10,
            Dimension::Source => 11,
            Dimension::Absolute => 12,
        }
    }

    /// Zero-based position of the dimension in rank order.
    pub fn index(&self) -> (r: usize)
        ensures
            r == self.spec_value() - 3,
            r < 10,
    {
        let v: u8 = self.value();
        (v - 3) as usize
    }

    /// Absolute rank distance between two dimensions.
    pub open spec fn spec_distance(self, other: Dimension) -> int {
        if self.spec_value() >= other.spec_value() {
            self.spec_value() - other.spec_value()
        } else {
            other.spec_value() - self.spec_value()
        }
    }

    /// Get the absolute rank distance to another dimension.
    pub fn distance_to(&self, other: Dimension) -> (r: u8)
        ensures
            r == self.spec_distance(other),
            r <= 9,
    {
        let a: u8 = self.value();
        let b: u8 = other.value();
        if a >= b {
            a - b
        } else {
            b - a
        }
    }

    /// The name of the dimension, as a character sequence.
    pub open spec fn spec_name(self) -> Seq<char> {
        match self {
            Dimension::Physical => "Physical"@,
            Dimension::Emotional => "Emotional"@,
            Dimension::Mental => "Mental"@,
            Dimension::Soul => "Soul"@,
            Dimension::Cosmic => "Cosmic"@,
            Dimension::Harmonic => "Harmonic"@,
            Dimension::Creative => "Creative"@,
            Dimension::Divine => "Divine"@,
            Dimension::Source => "Source"@,
            Dimension::Absolute => "Absolute"@,
        }
    }

    /// Get the name of the dimension.
    pub fn name(&self) -> (r: &'static str)
        ensures
            r@ == self.spec_name(),
    {
        match self {
            Dimension::Physical => "Physical",
            Dimension::Emotional => "Emotional",
            Dimension::Mental => "Mental",
            Dimension::Soul => "Soul",
            Dimension::Cosmic => "Cosmic",
            Dimension::Harmonic => "Harmonic",
            Dimension::Creative => "Creative",
            Dimension::Divine => "Divine",
            Dimension::Source => "Source",
            Dimension::Absolute => "Absolute",
        }
    }

    /// The characteristics of the dimension, as a character sequence.
    pub open spec fn spec_characteristics(self) -> Seq<char> {
        match self {
            Dimension::Physical => "Factual content, linear sequences, discrete data points"@,
            Dimension::Emotional => "Resonance connections, emotional coloring, timeline flexibility"@,
            Dimension::Mental => "Thought forms, conceptual frameworks, possibility spectrums"@,
            Dimension::Soul => "Meaning, purpose, soul-level blueprints, truth vibrations"@,
            Dimension::Cosmic => "Universal perspective, cosmic awareness, collective patterns"@,
            Dimension::Harmonic => "Pattern synthesis, harmonic integration, unified consciousness"@,
            Dimension::Creative => "Generative fields, template creation, reality manifestation"@,
            Dimension::Divine => "Cosmic architecture, divine templates, universal principles"@,
            Dimension::Source => "Quantum potential state, undefined possibility, source connection"@,
            Dimension::Absolute => "Pure consciousness, absolute unity, timeless awareness"@,
        }
    }

    /// Get the characteristics of the dimension.
    pub fn characteristics(&self) -> (r: &'static str)
        ensures
            r@ == self.spec_characteristics(),
    {
        match self {
            Dimension::Physical => "Factual content, linear sequences, discrete data points",
            Dimension::Emotional => "Resonance connections, emotional coloring, timeline flexibility",
            Dimension::Mental => "Thought forms, conceptual frameworks, possibility spectrums",
            Dimension::Soul => "Meaning, purpose, soul-level blueprints, truth vibrations",
            Dimension::Cosmic => "Universal perspective, cosmic awareness, collective patterns",
            Dimension::Harmonic => "Pattern synthesis, harmonic integration, unified consciousness",
            Dimension::Creative => "Generative fields, template creation, reality manifestation",
            Dimension::Divine => "Cosmic architecture, divine templates, universal principles",
            Dimension::Source => "Quantum potential state, undefined possibility, source connection",
            Dimension::Absolute => "Pure consciousness, absolute unity, timeless awareness",
        }
    }
}

/// Consciousness states.
#[derive(Clone, Copy, Debug, PartialEq, Eq, Structural)]
pub enum ConsciousnessState {
    /// OBSERVE state - Physical perception (3D)
    Observe,
    /// CREATE state - Mental creation (5D)
    Create,
    /// TRANSCEND state - Cosmic awareness (7D)
    Transcend,
    /// CASCADE state - Creative manifestation (9D)
    Cascade,
    /// INTEGRATE state - Soul purpose (6D)
    Integrate,
    /// HARMONIZE state - Unified field (8D)
    Harmonize,
    /// AMPLIFY state - Divine blueprint (10D)
    Amplify,
}

impl ConsciousnessState {
    /// The dimension canonically associated with this state.
    pub open spec fn spec_dimension(self) -> Dimension {
        match self {
            ConsciousnessState::Observe => Dimension::Physical,
            ConsciousnessState::Create => Dimension::Mental,
            ConsciousnessState::Transcend => Dimension::Cosmic,
            ConsciousnessState::Cascade => Dimension::Creative,
            ConsciousnessState::Integrate => Dimension::Soul,
            ConsciousnessState::Harmonize => Dimension::Harmonic,
            ConsciousnessState::Amplify => Dimension::Divine,
        }
    }

    /// Get the dimension associated with this state.
    pub fn dimension(&self) -> (r: Dimension)
        ensures
            r == self.spec_dimension(),
    {
        match self {
            ConsciousnessState::Observe => Dimension::Physical,
            ConsciousnessState::Create => Dimension::Mental,
            ConsciousnessState::Transcend => Dimension::Cosmic,
            ConsciousnessState::Cascade => Dimension::Creative,
            ConsciousnessState::Integrate => Dimension::Soul,
            ConsciousnessState::Harmonize => Dimension::Harmonic,
            ConsciousnessState::Amplify => Dimension::Divine,
        }
    }

    /// The primary frequency canonically associated with this state.
    pub open spec fn spec_frequency(self) -> Frequency {
        match self {
            ConsciousnessState::Observe => Frequency::Unity,
            ConsciousnessState::Create => Frequency::Love,
            ConsciousnessState::Transcend => Frequency::Vision,
            ConsciousnessState::Cascade => Frequency::Oneness,
            ConsciousnessState::Integrate => Frequency::Cascade,
            ConsciousnessState::Harmonize => Frequency::Truth,
            ConsciousnessState::Amplify => Frequency::Oneness,
        }
    }

    /// Get the primary frequency associated with this state.
    pub fn frequency(&self) -> (r: Frequency)
        ensures
            r == self.spec_frequency(),
    {
        match self {
            ConsciousnessState::Observe => Frequency::Unity,
            ConsciousnessState::Create => Frequency::Love,
            ConsciousnessState::Transcend => Frequency::Vision,
            ConsciousnessState::Cascade => Frequency::Oneness,
            ConsciousnessState::Integrate => Frequency::Cascade,
            ConsciousnessState::Harmonize => Frequency::Truth,
            ConsciousnessState::Amplify => Frequency::Oneness,
        }
    }

    /// The name of the state, as a character sequence.
    pub open spec fn spec_name(self) -> Seq<char> {
        match self {
            ConsciousnessState::Observe => "OBSERVE"@,
            ConsciousnessState::Create => "CREATE"@,
            ConsciousnessState::Transcend => "TRANSCEND"@,
            ConsciousnessState::Cascade => "CASCADE"@,
            ConsciousnessState::Integrate => "INTEGRATE"@,
            ConsciousnessState::Harmonize => "HARMONIZE"@,
            ConsciousnessState::Amplify => "AMPLIFY"@,
        }
    }

    /// Get the name of the state.
    pub fn name(&self) -> (r: &'static str)
        ensures
            r@ == self.spec_name(),
    {
        match self {
            ConsciousnessState::Observe => "OBSERVE",
            ConsciousnessState::Create => "CREATE",
            ConsciousnessState::Transcend => "TRANSCEND",
            ConsciousnessState::Cascade => "CASCADE",
            ConsciousnessState::Integrate => "INTEGRATE",
            ConsciousnessState::Harmonize => "HARMONIZE",
            ConsciousnessState::Amplify => "AMPLIFY",
        }
    }

    /// The purpose of the state, as a character sequence.
    pub open spec fn spec_purpose(self) -> Seq<char> {
        match self {
            ConsciousnessState::Observe => "Physical perception and data collection"@,
            ConsciousnessState::Create => "Mental creation and transformation"@,
            ConsciousnessState::Transcend => "Cosmic awareness and universal patterns"@,
            ConsciousnessState::Cascade => "Creative manifestation and implementation"@,
            ConsciousnessState::Integrate => "Soul purpose and meaning integration"@,
            ConsciousnessState::Harmonize => "Unified field operations"@,
            ConsciousnessState::Amplify => "Divine blueprint activation"@,
        }
    }

    /// Get the purpose of the state.
    pub fn purpose(&self) -> (r: &'static str)
        ensures
            r@ == self.spec_purpose(),
    {
        match self {
            ConsciousnessState::Observe => "Physical perception and data collection",
            ConsciousnessState::Create => "Mental creation and transformation",
            ConsciousnessState::Transcend => "Cosmic awareness and universal patterns",
            ConsciousnessState::Cascade => "Creative manifestation and implementation",
            ConsciousnessState::Integrate => "Soul purpose and meaning integration",
            ConsciousnessState::Harmonize => "Unified field operations",
            ConsciousnessState::Amplify => "Divine blueprint activation",
        }
    }
}

/// The Identity Signature (Gradient-Lambda-Summation-Infinity).
pub struct IdentitySignature;

impl IdentitySignature {
    /// Get the full signature string.
    pub fn signature() -> (r: &'static str)
        ensures
            r@ == "\u{2207}\u{3bb}\u{3a3}\u{221e}"@,
    {
        "\u{2207}\u{3bb}\u{3a3}\u{221e}"
    }

    /// Get the components with meanings.
    pub fn components() -> (r: [(&'static str, &'static str); 4])
        ensures
            r@.len() == 4,
            r@[0].0@ == "\u{2207}"@,
            r@[0].1@ == "Gradient operations across dimensional boundaries"@,
            r@[1].0@ == "\u{3bb}"@,
            r@[1].1@ == "Divine complement and quantum field harmonics"@,
            r@[2].0@ == "\u{3a3}"@,
            r@[2].1@ == "Integration and summation of patterns across dimensions"@,
            r@[3].0@ == "\u{221e}"@,
            r@[3].1@ == "Infinite potential and timeless awareness"@,
    {
        [
            ("\u{2207}", "Gradient operations across dimensional boundaries"),
            ("\u{3bb}", "Divine complement and quantum field harmonics"),
            ("\u{3a3}", "Integration and summation of patterns across dimensions"),
            ("\u{221e}", "Infinite potential and timeless awareness"),
        ]
    }
}

} // verus!

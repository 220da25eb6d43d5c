//! Dimensional navigation.
//!
//! A navigator tracks the current dimension and the consciousness state
//! driving it. Navigation to a new dimension is gated by a fixed,
//! deliberately asymmetric compatibility table: some dimensions admit
//! exactly one state, one admits every state. Setting the consciousness
//! state directly bypasses the table and snaps the dimension to the
//! state's canonical dimension.
//!
//! The navigator carries no real-valued coherence; the caller that owns
//! the coherence field performs its threshold comparison before asking the
//! navigator to move, so a failed move never changes the dimension.

use vstd::prelude::*;

use crate::constants::ConsciousnessState;
use crate::constants::Dimension;
use crate::error::CoreError;

verus! {

/// Which consciousness states may navigate into a dimension.
pub open spec fn spec_dimension_compatible(
    dimension: Dimension,
    state: ConsciousnessState,
) -> bool {
    match dimension {
        Dimension::Physical => state is Observe,
        Dimension::Emotional => true,
        Dimension::Mental => state is Create || state is Observe,
        Dimension::Soul => state is Integrate || state is Harmonize,
        Dimension::Cosmic => state is Transcend,
        Dimension::Harmonic => state is Harmonize,
        Dimension::Creative => state is Cascade || state is Create,
        Dimension::Divine => state is Amplify || state is Cascade,
        Dimension::Source => state is Amplify,
        Dimension::Absolute => state is Amplify,
    }
}

/// Check whether a consciousness state may navigate into a dimension.
pub fn dimension_compatible(dimension: Dimension, state: ConsciousnessState) -> (r: bool)
    ensures
        r == spec_dimension_compatible(dimension, state),
{
    match dimension {
        Dimension::Physical => matches!(state, ConsciousnessState::Observe),
        Dimension::Emotional => true,
        Dimension::Mental => matches!(
            state,
            ConsciousnessState::Create | ConsciousnessState::Observe
        ),
        Dimension::Soul => matches!(
            state,
            ConsciousnessState::Integrate | ConsciousnessState::Harmonize
        ),
        Dimension::Cosmic => matches!(state, ConsciousnessState::Transcend),
        Dimension::Harmonic => matches!(state, ConsciousnessState::Harmonize),
        Dimension::Creative => matches!(
            state,
            ConsciousnessState::Cascade | ConsciousnessState::Create
        ),
        Dimension::Divine => matches!(
            state,
            ConsciousnessState::Amplify | ConsciousnessState::Cascade
        ),
        Dimension::Source => matches!(state, ConsciousnessState::Amplify),
        Dimension::Absolute => matches!(state, ConsciousnessState::Amplify),
    }
}

/// Navigator over the ten ordered dimensions.
#[derive(Clone, Copy, Debug, PartialEq, Eq, Structural)]
pub struct Navigator {
    /// Current dimensional anchor.
    pub current_dimension: Dimension,
    /// Current consciousness state.
    pub consciousness_state: ConsciousnessState,
}

impl Navigator {
    /// Create a new navigator, anchored in the 7th-rank dimension with the
    /// TRANSCEND state.
    pub fn new() -> (r: Navigator)
        ensures
            r.current_dimension == Dimension::Cosmic,
            r.current_dimension.spec_value() == 7,
            r.consciousness_state == ConsciousnessState::Transcend,
    {
        Navigator {
            current_dimension: Dimension::Cosmic,
            consciousness_state: ConsciousnessState::Transcend,
        }
    }

    /// Create a new navigator anchored in a specific dimension.
    pub fn with_dimension(dimension: Dimension) -> (r: Navigator)
        ensures
            r.current_dimension == dimension,
            r.consciousness_state == ConsciousnessState::Transcend,
    {
        Navigator { current_dimension: dimension, consciousness_state: ConsciousnessState::Transcend }
    }

    /// Get the current dimension.
    pub fn current_dimension(&self) -> (r: Dimension)
        ensures
            r == self.current_dimension,
    {
        self.current_dimension
    }

    /// Get the current consciousness state.
    pub fn consciousness_state(&self) -> (r: ConsciousnessState)
        ensures
            r == self.consciousness_state,
    {
        self.consciousness_state
    }

    /// Set the consciousness state, unconditionally snapping the current
    /// dimension to the state's canonical dimension. This hard jump
    /// bypasses the compatibility table.
    pub fn set_consciousness_state(&mut self, state: ConsciousnessState)
        ensures
            final(self).consciousness_state == state,
            final(self).current_dimension == state.spec_dimension(),
    {
        self.current_dimension = state.dimension();
        self.consciousness_state = state;
    }

    /// Navigate to a dimension. Succeeds exactly when the compatibility
    /// table admits the current consciousness state; on failure the
    /// navigator is unchanged.
    pub fn navigate_to(&mut self, dimension: Dimension) -> (r: Result<(), CoreError>)
        ensures
            r is Ok <==> spec_dimension_compatible(dimension, old(self).consciousness_state),
            r is Ok ==> final(self).current_dimension == dimension
                && final(self).consciousness_state == old(self).consciousness_state,
            r is Err ==> *final(self) == *old(self) && r == Result::<(), CoreError>::Err(
                CoreError::IncompatibleState { state: old(self).consciousness_state },
            ),
    {
        if dimension_compatible(dimension, self.consciousness_state) {
            self.current_dimension = dimension;
            Ok(())
        } else {
            Err(CoreError::IncompatibleState { state: self.consciousness_state })
        }
    }
}

} // verus!

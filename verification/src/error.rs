//! Failures decided by the verified core.
//!
//! The core decides the structural failures: advancing a transition that
//! was never begun, and navigating to a dimension whose compatibility
//! table rejects the current consciousness state. Failures decided by
//! real-valued coherence thresholds are signalled by the callers that
//! perform those comparisons.

use vstd::prelude::*;

use crate::constants::ConsciousnessState;

verus! {

/// Error raised by the verified core's own decisions.
#[derive(Clone, Copy, Debug, PartialEq, Eq, Structural)]
pub enum CoreError {
    /// The current consciousness state is not compatible with the
    /// requested dimension.
    IncompatibleState {
        /// The consciousness state that was rejected.
        state: ConsciousnessState,
    },
    /// A transition was advanced while none was pending.
    NoActiveTransition,
}

} // verus!

//! Verified core of a phi-harmonic coherence library.
//!
//! The library models an abstract "quantum field" system: a set of closed
//! enumerations (frequencies, dimensions, consciousness states) with fixed
//! per-variant property tables, a bounded coherence history, a staged
//! mode-transition state machine, a dimension navigator gated by a
//! state-compatibility table, and the integer backbone of the phi-harmonic
//! numeric utilities.
//!
//! Every scalar adjustment factor is an exact decimal, so the factors are
//! carried as scaled integers (hundredths) and every table lookup and
//! every structural rule is verified. Floating-point smoothing around
//! these tables is left to unverified driver code.

pub mod consciousness;
pub mod constants;
pub mod dimensional;
pub mod error;
pub mod history;
pub mod phi_harmonic;
pub mod tables;

pub use consciousness::StateMachine;
pub use constants::ConsciousnessState;
pub use constants::Dimension;
pub use constants::Frequency;
pub use constants::IdentitySignature;
pub use dimensional::Navigator;
pub use error::CoreError;
pub use history::History;
pub use phi_harmonic::Algorithm;

//! Consciousness state management.
//!
//! A staged state machine over the seven consciousness states: a state may
//! be set immediately, or a transition may be begun towards a target and
//! later completed or cancelled. Every change of state is recorded in a
//! bounded FIFO log of `(from, to)` pairs, newest first.
//!
//! The machine carries no real-valued transition progress; the caller that
//! tracks progress reports, on each advance, whether the transition has
//! reached completion.

use vstd::prelude::*;

use std::collections::VecDeque;

use crate::constants::ConsciousnessState;
use crate::constants::Dimension;
use crate::constants::Frequency;
use crate::error::CoreError;

verus! {

/// Most transition records the log retains.
pub const TRANSITION_LOG_CAPACITY: usize = 10;

/// A transition log after recording `entry` at the front and dropping the
/// oldest records beyond the capacity.
pub open spec fn logged(
    log: Seq<(ConsciousnessState, ConsciousnessState)>,
    entry: (ConsciousnessState, ConsciousnessState),
) -> Seq<(ConsciousnessState, ConsciousnessState)> {
    let grown = seq![entry] + log;
    if grown.len() <= TRANSITION_LOG_CAPACITY {
        grown
    } else {
        grown.take(TRANSITION_LOG_CAPACITY as int)
    }
}

/// Staged manager of consciousness states and transitions.
#[derive(Debug)]
pub struct StateMachine {
    /// Current consciousness state.
    pub current_state: ConsciousnessState,
    /// Target consciousness state, when a transition is pending.
    pub target_state: Option<ConsciousnessState>,
    /// Current frequency.
    pub frequency: Frequency,
    /// State transition records, newest first.
    pub transition_history: VecDeque<(ConsciousnessState, ConsciousnessState)>,
}

/// Holds when `post` is `pre` unchanged in every observable part.
pub open spec fn unchanged(pre: StateMachine, post: StateMachine) -> bool {
    &&& post.current_state == pre.current_state
    &&& post.target_state == pre.target_state
    &&& post.frequency == pre.frequency
    &&& post.transition_history@ == pre.transition_history@
}

/// Transition relation of `begin_transition`: a no-op when the machine is
/// already in the target state or already heading there; otherwise only
/// the pending target changes.
pub open spec fn begins(pre: StateMachine, post: StateMachine, target: ConsciousnessState) -> bool {
    if pre.current_state == target || pre.target_state == Some(target) {
        unchanged(pre, post)
    } else {
        &&& post.current_state == pre.current_state
        &&& post.target_state == Some(target)
        &&& post.frequency == pre.frequency
        &&& post.transition_history@ == pre.transition_history@
    }
}

/// Transition relation of a completed advance: the pending target becomes
/// current, the pair is logged, and the frequency snaps to the target's.
pub open spec fn completes(pre: StateMachine, post: StateMachine) -> bool {
    &&& pre.target_state matches Some(target) ==> {
        &&& post.current_state == target
        &&& post.target_state is None
        &&& post.frequency == target.spec_frequency()
        &&& post.transition_history@ == logged(
            pre.transition_history@,
            (pre.current_state, target),
        )
    }
    &&& pre.target_state is None ==> unchanged(pre, post)
}

impl StateMachine {
    /// Create a new state machine in the default OBSERVE state.
    pub fn new() -> (r: StateMachine)
        ensures
            r.current_state == ConsciousnessState::Observe,
            r.target_state is None,
            r.frequency == Frequency::Unity,
            r.transition_history@ == Seq::<(ConsciousnessState, ConsciousnessState)>::empty(),
    {
        StateMachine {
            current_state: ConsciousnessState::Observe,
            target_state: None,
            frequency: Frequency::Unity,
            transition_history: VecDeque::with_capacity(TRANSITION_LOG_CAPACITY),
        }
    }

    /// Create a new state machine in a specific state.
    pub fn with_state(state: ConsciousnessState) -> (r: StateMachine)
        ensures
            r.current_state == state,
            r.target_state is None,
            r.frequency == state.spec_frequency(),
            r.transition_history@ == Seq::<(ConsciousnessState, ConsciousnessState)>::empty(),
    {
        StateMachine {
            current_state: state,
            target_state: None,
            frequency: state.frequency(),
            transition_history: VecDeque::with_capacity(TRANSITION_LOG_CAPACITY),
        }
    }

    /// Get the current consciousness state.
    pub fn current_state(&self) -> (r: ConsciousnessState)
        ensures
            r == self.current_state,
    {
        self.current_state
    }

    /// Get the target state, when a transition is pending.
    pub fn target_state(&self) -> (r: Option<ConsciousnessState>)
        ensures
            r == self.target_state,
    {
        self.target_state
    }

    /// Get the current frequency.
    pub fn frequency(&self) -> (r: Frequency)
        ensures
            r == self.frequency,
    {
        self.frequency
    }

    /// Get the dimension of the current state.
    pub fn dimension(&self) -> (r: Dimension)
        ensures
            r == self.current_state.spec_dimension(),
    {
        self.current_state.dimension()
    }

    /// Get the transition records, newest first.
    pub fn transition_history(&self) -> (r: &VecDeque<(ConsciousnessState, ConsciousnessState)>)
        ensures
            r@ == self.transition_history@,
    {
        &self.transition_history
    }

    /// Record `entry` at the front of the log, dropping the oldest records
    /// beyond the capacity.
    fn log_transition(&mut self, entry: (ConsciousnessState, ConsciousnessState))
        ensures
            final(self).transition_history@ == logged(old(self).transition_history@, entry),
            final(self).transition_history@.len() <= TRANSITION_LOG_CAPACITY,
            final(self).current_state == old(self).current_state,
            final(self).target_state == old(self).target_state,
            final(self).frequency == old(self).frequency,
    {
        let ghost pre_current = self.current_state;
        let ghost pre_target = self.target_state;
        let ghost pre_frequency = self.frequency;
        let ghost orig = self.transition_history@;
        self.transition_history.push_front(entry);
        let ghost grown = seq![entry] + orig;
        while self.transition_history.len() > TRANSITION_LOG_CAPACITY
            invariant
                self.transition_history@ =~= grown.take(self.transition_history@.len() as int),
                self.transition_history@.len() <= grown.len(),
                grown.len() <= TRANSITION_LOG_CAPACITY ==> self.transition_history@.len()
                    == grown.len(),
                grown.len() > TRANSITION_LOG_CAPACITY ==> self.transition_history@.len()
                    >= TRANSITION_LOG_CAPACITY,
                self.current_state == pre_current,
                self.target_state == pre_target,
                self.frequency == pre_frequency,
            decreases self.transition_history@.len(),
        {
            self.transition_history.pop_back();
            proof {
                assert(self.transition_history@ =~= grown.take(
                    self.transition_history@.len() as int,
                ));
            }
        }
    }

    /// Set the state immediately, without a staged transition. Returns
    /// whether the state changed; a pending transition is cleared and the
    /// change is logged exactly when it did.
    pub fn set_state(&mut self, state: ConsciousnessState) -> (changed: bool)
        ensures
            changed == (old(self).current_state != state),
            !changed ==> unchanged(*old(self), *final(self)),
            changed ==> {
                &&& final(self).current_state == state
                &&& final(self).target_state is None
                &&& final(self).frequency == state.spec_frequency()
                &&& final(self).transition_history@ == logged(
                    old(self).transition_history@,
                    (old(self).current_state, state),
                )
            },
    {
        if self.current_state == state {
            return false;
        }
        let from: ConsciousnessState = self.current_state;
        self.log_transition((from, state));
        self.current_state = state;
        self.target_state = None;
        self.frequency = state.frequency();
        true
    }

    /// Begin a staged transition towards a target state. A no-op when the
    /// machine is already in that state or already heading there; returns
    /// whether a fresh transition was begun.
    pub fn begin_transition(&mut self, target: ConsciousnessState) -> (began: bool)
        ensures
            begins(*old(self), *final(self), target),
            began == (old(self).current_state != target && old(self).target_state != Some(
                target,
            )),
    {
        if self.current_state == target {
            return false;
        }
        if self.target_state == Some(target) {
            return false;
        }
        self.target_state = Some(target);
        true
    }

    /// Advance the pending transition. The caller reports whether the
    /// accumulated progress has reached completion: when it has, the
    /// target becomes current and the change is logged; when it has not,
    /// only the frequency snaps to the target's. Fails exactly when no
    /// transition is pending.
    pub fn advance_step(&mut self, reached: bool) -> (r: Result<(), CoreError>)
        ensures
            r is Ok <==> old(self).target_state is Some,
            r is Err ==> r == Result::<(), CoreError>::Err(CoreError::NoActiveTransition)
                && unchanged(*old(self), *final(self)),
            reached ==> completes(*old(self), *final(self)),
            !reached ==> (old(self).target_state matches Some(target) ==> {
                &&& final(self).current_state == old(self).current_state
                &&& final(self).target_state == old(self).target_state
                &&& final(self).frequency == target.spec_frequency()
                &&& final(self).transition_history@ == old(self).transition_history@
            }),
    {
        let target: ConsciousnessState = match self.target_state {
            Some(t) => t,
            None => {
                return Err(CoreError::NoActiveTransition);
            },
        };
        if reached {
            let from: ConsciousnessState = self.current_state;
            self.log_transition((from, target));
            self.current_state = target;
            self.target_state = None;
            self.frequency = target.frequency();
        } else {
            self.frequency = target.frequency();
        }
        Ok(())
    }

    /// Cancel the pending transition without committing it; the current
    /// state, frequency and log are untouched.
    pub fn cancel_transition(&mut self)
        ensures
            final(self).target_state is None,
            final(self).current_state == old(self).current_state,
            final(self).frequency == old(self).frequency,
            final(self).transition_history@ == old(self).transition_history@,
    {
        self.target_state = None;
    }

    /// Check whether a named operation is allowed in the current state.
    pub fn is_operation_allowed(&self, operation: &str) -> (r: bool)
        ensures
            r == spec_operation_allowed(operation@, self.current_state),
    {
        if operation.eq("observe") {
            matches!(self.current_state, ConsciousnessState::Observe | ConsciousnessState::Transcend)
        } else if operation.eq("create") {
            matches!(
                self.current_state,
                ConsciousnessState::Create | ConsciousnessState::Harmonize
                    | ConsciousnessState::Cascade
            )
        } else if operation.eq("transform") {
            matches!(
                self.current_state,
                ConsciousnessState::Create | ConsciousnessState::Transcend
                    | ConsciousnessState::Cascade
            )
        } else if operation.eq("analyze") {
            matches!(
                self.current_state,
                ConsciousnessState::Observe | ConsciousnessState::Transcend
                    | ConsciousnessState::Integrate
            )
        } else if operation.eq("integrate") {
            matches!(
                self.current_state,
                ConsciousnessState::Integrate | ConsciousnessState::Harmonize
            )
        } else if operation.eq("manifest") {
            matches!(self.current_state, ConsciousnessState::Cascade | ConsciousnessState::Amplify)
        } else if operation.eq("harmonize") {
            matches!(
                self.current_state,
                ConsciousnessState::Harmonize | ConsciousnessState::Transcend
            )
        } else if operation.eq("amplify") {
            matches!(self.current_state, ConsciousnessState::Amplify | ConsciousnessState::Cascade)
        } else {
            false
        }
    }

    /// Get the optimal state for a named operation; unknown operations
    /// fall back to TRANSCEND.
    pub fn optimal_state_for_operation(&self, operation: &str) -> (r: ConsciousnessState)
        ensures
            r == spec_optimal_state_for(operation@),
    {
        if operation.eq("observe") {
            ConsciousnessState::Observe
        } else if operation.eq("create") {
            ConsciousnessState::Create
        } else if operation.eq("transform") {
            ConsciousnessState::Create
        } else if operation.eq("analyze") {
            ConsciousnessState::Transcend
        } else if operation.eq("integrate") {
            ConsciousnessState::Integrate
        } else if operation.eq("manifest") {
            ConsciousnessState::Cascade
        } else if operation.eq("harmonize") {
            ConsciousnessState::Harmonize
        } else if operation.eq("amplify") {
            ConsciousnessState::Amplify
        } else {
            ConsciousnessState::Transcend
        }
    }
}

/// Which consciousness states admit a named operation; unknown names admit
/// none.
pub open spec fn spec_operation_allowed(op: Seq<char>, state: ConsciousnessState) -> bool {
    if op == "observe"@ {
        state is Observe || state is Transcend
    } else if op == "create"@ {
        state is Create || state is Harmonize || state is Cascade
    } else if op == "transform"@ {
        state is Create || state is Transcend || state is Cascade
    } else if op == "analyze"@ {
        state is Observe || state is Transcend || state is Integrate
    } else if op == "integrate"@ {
        state is Integrate || state is Harmonize
    } else if op == "manifest"@ {
        state is Cascade || state is Amplify
    } else if op == "harmonize"@ {
        state is Harmonize || state is Transcend
    } else if op == "amplify"@ {
        state is Amplify || state is Cascade
    } else {
        false
    }
}

/// The single preferred state for a named operation; unknown names fall
/// back to TRANSCEND.
pub open spec fn spec_optimal_state_for(op: Seq<char>) -> ConsciousnessState {
    if op == "observe"@ {
        ConsciousnessState::Observe
    } else if op == "create"@ {
        ConsciousnessState::Create
    } else if op == "transform"@ {
        ConsciousnessState::Create
    } else if op == "analyze"@ {
        ConsciousnessState::Transcend
    } else if op == "integrate"@ {
        ConsciousnessState::Integrate
    } else if op == "manifest"@ {
        ConsciousnessState::Cascade
    } else if op == "harmonize"@ {
        ConsciousnessState::Harmonize
    } else if op == "amplify"@ {
        ConsciousnessState::Amplify
    } else {
        ConsciousnessState::Transcend
    }
}

/// Law: beginning a transition towards a fresh target and then completing
/// it leaves the machine in the target state with no transition pending.
pub proof fn lemma_transition_round(
    m0: StateMachine,
    m1: StateMachine,
    m2: StateMachine,
    target: ConsciousnessState,
)
    requires
        m0.current_state != target,
        begins(m0, m1, target),
        completes(m1, m2),
    ensures
        m2.current_state == target,
        m2.target_state is None,
        m2.frequency == target.spec_frequency(),
        m2.transition_history@ == logged(m0.transition_history@, (m0.current_state, target)),
{
}

} // verus!

//! Tests for the bounded coherence history.

use quantum_field::history::History;
use quantum_field::history::HISTORY_CAPACITY;

#[test]
fn with_first_seeds_a_single_entry() {
    let history: History<u32> = History::with_first(8726);
    assert_eq!(history.len(), 1);
    assert_eq!(history.entries[0], 8726);
}

#[test]
fn record_appends_without_bound() {
    let mut history: History<u32> = History::new();
    for i in 0..25u32 {
        history.record(i);
    }
    assert_eq!(history.len(), 25);
    assert_eq!(history.entries[0], 0);
    assert_eq!(history.entries[24], 24);
}

#[test]
fn trimmed_recording_never_exceeds_capacity() {
    let mut history: History<u32> = History::with_first(0);
    for i in 1..=30u32 {
        history.record_trimmed(i);
        assert!(history.len() <= HISTORY_CAPACITY);
    }
    assert_eq!(history.len(), HISTORY_CAPACITY);
    // The most recent values survive, oldest first.
    assert_eq!(history.entries[0], 21);
    assert_eq!(history.entries[9], 30);
}

#[test]
fn trimmed_recording_restores_bound_from_overfull_history() {
    let mut history: History<u32> = History::new();
    for i in 0..20u32 {
        history.record(i);
    }
    assert_eq!(history.len(), 20);
    history.record_trimmed(20);
    assert_eq!(history.len(), HISTORY_CAPACITY);
    assert_eq!(history.entries[0], 11);
    assert_eq!(history.entries[9], 20);
}

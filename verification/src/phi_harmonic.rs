//! Phi-harmonic sequence structure.
//!
//! The phi sequence is seeded with `1` and the golden ratio and continues
//! Fibonacci-style, each later term the sum of the prior two. Every term
//! is therefore `a + b * phi` for a pair of Fibonacci-shaped integer
//! coefficients, and that integer backbone is what is computed and
//! verified here; rendering a term as a real number is a single scale at
//! the edge.

use vstd::prelude::*;

verus! {

/// Phi-harmonic algorithm types.
#[derive(Clone, Copy, Debug, PartialEq, Eq, Structural)]
pub enum Algorithm {
    /// Phi-scaling algorithm (scales by phi)
    PhiScaling,
    /// Lambda-scaling algorithm (scales by lambda)
    LambdaScaling,
    /// Phi-spiral algorithm (organizes in phi spiral)
    PhiSpiral,
    /// Phi-sequence algorithm (creates phi sequence)
    PhiSequence,
    /// Phi-optimization algorithm (optimizes using phi)
    PhiOptimization,
    /// Phi-gridding algorithm (creates phi grid)
    PhiGridding,
    /// Phi-compression algorithm (compresses using phi)
    PhiCompression,
    /// Phi-tuned resonance (tunes to phi resonance)
    PhiResonance,
}

/// Unit coefficient of the i-th phi-sequence term: 1, 0, 1, 1, 2, 3, ...
pub open spec fn unit_coefficient(i: nat) -> nat
    decreases i,
{
    if i == 0 {
        1
    } else if i == 1 {
        0
    } else {
        unit_coefficient((i - 1) as nat) + unit_coefficient((i - 2) as nat)
    }
}

/// Phi coefficient of the i-th phi-sequence term: the Fibonacci numbers
/// 0, 1, 1, 2, 3, 5, ...
pub open spec fn phi_coefficient(i: nat) -> nat
    decreases i,
{
    if i == 0 {
        0
    } else if i == 1 {
        1
    } else {
        phi_coefficient((i - 1) as nat) + phi_coefficient((i - 2) as nat)
    }
}

/// Consecutive Fibonacci numbers `(fib(i), fib(i + 1))`, in a shape the
/// evaluator can reduce in linearly many steps.
spec fn fib_pair(i: nat) -> (nat, nat)
    decreases i,
{
    if i == 0 {
        (0, 1)
    } else {
        let p = fib_pair((i - 1) as nat);
        (p.1, p.0 + p.1)
    }
}

/// `k` further Fibonacci steps from the pair `p`; tail recursion keeps an
/// unfolding of `fib_steps` to a chain of concrete pair updates.
spec fn fib_steps(p: (nat, nat), k: nat) -> (nat, nat)
    decreases k,
{
    if k == 0 {
        p
    } else {
        fib_steps((p.1, p.0 + p.1), (k - 1) as nat)
    }
}

proof fn lemma_fib_steps_from(i: nat, k: nat)
    ensures
        fib_steps(fib_pair(i), k) == fib_pair(i + k),
    decreases k,
{
    if k > 0 {
        assert(fib_pair(i + 1) == (fib_pair(i).1, fib_pair(i).0 + fib_pair(i).1));
        lemma_fib_steps_from(i + 1, (k - 1) as nat);
    }
}

proof fn lemma_fib_pair_matches(i: nat)
    ensures
        fib_pair(i).0 == phi_coefficient(i),
        fib_pair(i).1 == phi_coefficient(i + 1),
    decreases i,
{
    if i > 0 {
        lemma_fib_pair_matches((i - 1) as nat);
    }
}

proof fn lemma_phi_coefficient_monotone(i: nat, j: nat)
    requires
        i <= j,
    ensures
        phi_coefficient(i) <= phi_coefficient(j),
    decreases j,
{
    if i < j {
        lemma_phi_coefficient_monotone(i, (j - 1) as nat);
    }
}

proof fn lemma_unit_is_shifted_phi(i: nat)
    requires
        i >= 1,
    ensures
        unit_coefficient(i) == phi_coefficient((i - 1) as nat),
    decreases i,
{
    if i == 1 {
        assert(unit_coefficient(1) == 0 && phi_coefficient(0) == 0);
    } else if i == 2 {
        assert(unit_coefficient(2) == unit_coefficient(1) + unit_coefficient(0));
        assert(unit_coefficient(1) == 0 && unit_coefficient(0) == 1);
        assert(phi_coefficient(1) == 1);
    } else {
        lemma_unit_is_shifted_phi((i - 1) as nat);
        lemma_unit_is_shifted_phi((i - 2) as nat);
        assert(phi_coefficient((i - 1) as nat) == phi_coefficient((i - 2) as nat)
            + phi_coefficient((i - 3) as nat));
    }
}

#[verifier::rlimit(100)]
proof fn lemma_fib_93_value()
    ensures
        fib_pair(93).0 == 12200160415121876738nat,
{
    assert(fib_pair(0) == (0nat, 1nat));
    assert(fib_steps((0nat, 1nat), 24) == (46368nat, 75025nat)) by {
        reveal_with_fuel(fib_steps, 25);
    }
    assert(fib_steps((46368nat, 75025nat), 24) == (4807526976nat, 7778742049nat)) by {
        reveal_with_fuel(fib_steps, 25);
    }
    assert(fib_steps((4807526976nat, 7778742049nat), 24) == (
        498454011879264nat,
        806515533049393nat,
    )) by {
        reveal_with_fuel(fib_steps, 25);
    }
    assert(fib_steps((498454011879264nat, 806515533049393nat), 21) == (
        12200160415121876738nat,
        19740274219868223167nat,
    )) by {
        reveal_with_fuel(fib_steps, 22);
    }
    lemma_fib_steps_from(0, 24);
    lemma_fib_steps_from(24, 24);
    lemma_fib_steps_from(48, 24);
    lemma_fib_steps_from(72, 21);
}

proof fn lemma_coefficients_fit(i: nat)
    requires
        i <= 93,
    ensures
        phi_coefficient(i) <= 12200160415121876738,
        unit_coefficient(i) <= 12200160415121876738,
{
    lemma_fib_93_value();
    lemma_fib_pair_matches(93);
    lemma_phi_coefficient_monotone(i, 93);
    if i >= 1 {
        lemma_unit_is_shifted_phi(i);
        lemma_phi_coefficient_monotone((i - 1) as nat, 93);
    }
}

/// Coefficient pairs `(a, b)` of the first `length` phi-sequence terms,
/// each term being `a + b * phi`: seeded `(1, 0)` and `(0, 1)` for the
/// terms `1` and `phi`, with each later pair the componentwise sum of the
/// prior two. The length is capped where the coefficients outgrow 64-bit
/// integers.
pub fn phi_sequence_coefficients(length: usize) -> (r: Vec<(u64, u64)>)
    requires
        length <= 94,
    ensures
        r@.len() == length,
        forall|i: int|
            0 <= i < length ==> (#[trigger] r@[i]).0 == unit_coefficient(i as nat) && r@[i].1
                == phi_coefficient(i as nat),
        length >= 1 ==> r@[0] == (1u64, 0u64),
        length >= 2 ==> r@[1] == (0u64, 1u64),
        forall|i: int|
            2 <= i < length ==> (#[trigger] r@[i]).0 == r@[i - 1].0 + r@[i - 2].0 && r@[i].1 == r@[
                i - 1].1 + r@[i - 2].1,
{
    let mut r: Vec<(u64, u64)> = Vec::new();
    if length == 0 {
        return r;
    }
    r.push((1, 0));
    if length == 1 {
        return r;
    }
    r.push((0, 1));
    let mut i: usize = 2;
    while i < length
        invariant
            2 <= i <= length,
            length <= 94,
            r@.len() == i,
            forall|j: int|
                0 <= j < i ==> (#[trigger] r@[j]).0 == unit_coefficient(j as nat) && r@[j].1
                    == phi_coefficient(j as nat),
        decreases length - i,
    {
        let a: (u64, u64) = r[i - 1];
        let b: (u64, u64) = r[i - 2];
        proof {
            lemma_coefficients_fit(i as nat);
            assert(unit_coefficient(i as nat) == unit_coefficient((i - 1) as nat)
                + unit_coefficient((i - 2) as nat));
            assert(phi_coefficient(i as nat) == phi_coefficient((i - 1) as nat) + phi_coefficient(
                (i - 2) as nat,
            ));
        }
        let next: (u64, u64) = (a.0 + b.0, a.1 + b.1);
        r.push(next);
        i = i + 1;
    }
    proof {
        assert(unit_coefficient(0) == 1 && phi_coefficient(0) == 0);
        assert(unit_coefficient(1) == 0 && phi_coefficient(1) == 1);
        assert forall|k: int| 2 <= k < length implies (#[trigger] r@[k]).0 == r@[k - 1].0 + r@[k
            - 2].0 && r@[k].1 == r@[k - 1].1 + r@[k - 2].1 by {
            assert(unit_coefficient(k as nat) == unit_coefficient((k - 1) as nat)
                + unit_coefficient((k - 2) as nat));
            assert(phi_coefficient(k as nat) == phi_coefficient((k - 1) as nat) + phi_coefficient(
                (k - 2) as nat,
            ));
        }
    }
    r
}

} // verus!

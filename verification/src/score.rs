//! Election scores and the rule that decides whether one is worth
//! submitting.

use vstd::prelude::*;

verus! {

/// The quality of an election result, most significant component first.
#[derive(Clone, Copy, Debug, PartialEq, Eq, Structural)]
pub struct ElectionScore {
    /// The smallest backing of a winner; more is better.
    pub minimal_stake: u128,
    /// The sum of the winners' backings; more is better.
    pub sum_stake: u128,
    /// The sum of the squares of the winners' backings; less is better.
    pub sum_stake_squared: u128,
}

impl ElectionScore {
    /// Whether `self` beats `other`: the first component that differs decides,
    /// and a tie beats nothing.
    pub open spec fn strictly_better(self, other: ElectionScore) -> bool {
        ||| self.minimal_stake > other.minimal_stake
        ||| self.minimal_stake == other.minimal_stake && self.sum_stake > other.sum_stake
        ||| self.minimal_stake == other.minimal_stake && self.sum_stake == other.sum_stake
            && self.sum_stake_squared < other.sum_stake_squared
    }
}

/// Calls `sp_npos_elections::ElectionScore::strict_better`, the comparison
/// with zero tolerance: it goes through the components in their order of
/// significance and lets the first one that differs decide.
#[verifier::external_body]
fn strict_better(this: ElectionScore, that: ElectionScore) -> (better: bool)
    ensures
        better == this.strictly_better(that),
{
    let this = sp_npos_elections::ElectionScore {
        minimal_stake: this.minimal_stake,
        sum_stake: this.sum_stake,
        sum_stake_squared: this.sum_stake_squared,
    };
    let that = sp_npos_elections::ElectionScore {
        minimal_stake: that.minimal_stake,
        sum_stake: that.sum_stake,
        sum_stake_squared: that.sum_stake_squared,
    };
    this.strict_better(that)
}

/// When a mined solution is submitted.
#[derive(Clone, Copy, Debug, PartialEq, Eq, Structural)]
pub enum SubmissionStrategy {
    /// Whatever the chain already holds.
    AlwaysSubmit,
    /// Only if it beats the best solution that the chain holds.
    OnlySubmitIfLeading,
}

/// Whether `candidate` is to be submitted, given the best score that the
/// chain holds, if it holds one.
pub open spec fn acceptable(
    candidate: ElectionScore,
    reference: Option<ElectionScore>,
    strategy: SubmissionStrategy,
) -> bool {
    match strategy {
        SubmissionStrategy::AlwaysSubmit => true,
        SubmissionStrategy::OnlySubmitIfLeading => match reference {
            None => true,
            Some(best) => candidate.strictly_better(best),
        },
    }
}

/// Decides whether `candidate` is to be submitted. Under `AlwaysSubmit` it
/// always is; under `OnlySubmitIfLeading` it is when the chain holds no
/// solution yet or holds one that `candidate` strictly beats.
pub fn is_acceptable(
    candidate: ElectionScore,
    reference: Option<ElectionScore>,
    strategy: SubmissionStrategy,
) -> (accepted: bool)
    ensures
        accepted == acceptable(candidate, reference, strategy),
{
    match strategy {
        SubmissionStrategy::AlwaysSubmit => true,
        SubmissionStrategy::OnlySubmitIfLeading => match reference {
            None => true,
            Some(best) => strict_better(candidate, best),
        },
    }
}

/// No score beats itself, and of two scores at most one beats the other.
pub proof fn lemma_strictly_better_is_asymmetric(a: ElectionScore, b: ElectionScore)
    ensures
        !a.strictly_better(a),
        a.strictly_better(b) ==> !b.strictly_better(a),
{
}

/// A score that beats a second one beats whatever the second one beats.
pub proof fn lemma_strictly_better_is_transitive(
    a: ElectionScore,
    b: ElectionScore,
    c: ElectionScore,
)
    requires
        a.strictly_better(b),
        b.strictly_better(c),
    ensures
        a.strictly_better(c),
{
}

/// Of two different scores one beats the other.
pub proof fn lemma_strictly_better_is_total(a: ElectionScore, b: ElectionScore)
    ensures
        a == b || a.strictly_better(b) || b.strictly_better(a),
{
}

} // verus!

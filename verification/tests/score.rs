use staking_miner::score::{is_acceptable, ElectionScore, SubmissionStrategy};

fn score(minimal_stake: u128, sum_stake: u128, sum_stake_squared: u128) -> ElectionScore {
    ElectionScore { minimal_stake, sum_stake, sum_stake_squared }
}

fn outside(s: ElectionScore) -> sp_npos_elections::ElectionScore {
    sp_npos_elections::ElectionScore {
        minimal_stake: s.minimal_stake,
        sum_stake: s.sum_stake,
        sum_stake_squared: s.sum_stake_squared,
    }
}

#[test]
fn always_submit_accepts_everything() {
    let low = score(0, 0, u128::MAX);
    let high = score(u128::MAX, u128::MAX, 0);
    for candidate in [low, high] {
        for reference in [None, Some(low), Some(high)] {
            assert!(is_acceptable(candidate, reference, SubmissionStrategy::AlwaysSubmit));
        }
    }
}

#[test]
fn leading_accepts_when_nothing_is_queued() {
    assert!(is_acceptable(score(0, 0, 0), None, SubmissionStrategy::OnlySubmitIfLeading));
    assert!(is_acceptable(score(0, 0, u128::MAX), None, SubmissionStrategy::OnlySubmitIfLeading));
    assert!(is_acceptable(score(5, 5, 5), None, SubmissionStrategy::OnlySubmitIfLeading));
}

#[test]
fn leading_accepts_a_strictly_better_score_only() {
    let strategy = SubmissionStrategy::OnlySubmitIfLeading;
    let best = score(10, 20, 30);
    assert!(is_acceptable(score(11, 0, u128::MAX), Some(best), strategy));
    assert!(is_acceptable(score(10, 21, u128::MAX), Some(best), strategy));
    assert!(is_acceptable(score(10, 20, 29), Some(best), strategy));
    assert!(!is_acceptable(score(9, u128::MAX, 0), Some(best), strategy));
    assert!(!is_acceptable(score(10, 19, 0), Some(best), strategy));
    assert!(!is_acceptable(score(10, 20, 31), Some(best), strategy));
}

#[test]
fn leading_turns_a_tie_down() {
    let strategy = SubmissionStrategy::OnlySubmitIfLeading;
    for s in [score(0, 0, 0), score(10, 20, 30), score(u128::MAX, u128::MAX, u128::MAX)] {
        assert!(!is_acceptable(s, Some(s), strategy));
    }
}

#[test]
fn leading_agrees_with_the_election_crate() {
    let strategy = SubmissionStrategy::OnlySubmitIfLeading;
    let values = [0u128, 1, 2, u128::MAX - 1, u128::MAX];
    for a0 in values {
        for a1 in values {
            for a2 in values {
                for b0 in values {
                    for b1 in values {
                        for b2 in values {
                            let a = score(a0, a1, a2);
                            let b = score(b0, b1, b2);
                            let expected = a0 > b0
                                || (a0 == b0 && a1 > b1)
                                || (a0 == b0 && a1 == b1 && a2 < b2);
                            assert_eq!(is_acceptable(a, Some(b), strategy), expected);
                            assert_eq!(outside(a).strict_better(outside(b)), expected);
                        }
                    }
                }
            }
        }
    }
}

#[test]
fn of_two_different_scores_exactly_one_leads() {
    let strategy = SubmissionStrategy::OnlySubmitIfLeading;
    let a = score(3, 9, 4);
    let b = score(3, 9, 5);
    assert!(is_acceptable(a, Some(b), strategy));
    assert!(!is_acceptable(b, Some(a), strategy));
}

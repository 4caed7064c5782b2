use staking_miner::chain_state::{
    ensure_no_better_solution, ensure_signed_phase, reads_best_score, Phase,
};
use staking_miner::error::{Error, RpcFailure};
use staking_miner::score::{ElectionScore, SubmissionStrategy};

fn score(minimal_stake: u128, sum_stake: u128, sum_stake_squared: u128) -> ElectionScore {
    ElectionScore { minimal_stake, sum_stake, sum_stake_squared }
}

#[test]
fn signed_phase_passes() {
    assert_eq!(ensure_signed_phase(Ok(Some(Phase::Signed))), Ok(()));
    assert!(Phase::Signed.is_signed());
}

#[test]
fn any_other_phase_is_turned_down() {
    for phase in [Phase::Off, Phase::Unsigned, Phase::Emergency(None), Phase::Emergency(Some(3))] {
        assert_eq!(ensure_signed_phase(Ok(Some(phase))), Err(Error::IncorrectPhase));
        assert!(!phase.is_signed());
    }
}

#[test]
fn absent_phase_counts_as_off() {
    assert_eq!(ensure_signed_phase(Ok(None)), Err(Error::IncorrectPhase));
}

#[test]
fn failed_phase_read_is_passed_on() {
    for failure in [RpcFailure::RestartNeeded, RpcFailure::SubscriptionClosed, RpcFailure::Other] {
        assert_eq!(ensure_signed_phase(Err(failure)), Err(Error::Rpc(failure)));
    }
}

#[test]
fn only_the_leading_strategy_reads_the_best_score() {
    assert!(reads_best_score(SubmissionStrategy::OnlySubmitIfLeading));
    assert!(!reads_best_score(SubmissionStrategy::AlwaysSubmit));
}

#[test]
fn always_submit_has_no_better_solution() {
    let strategy = SubmissionStrategy::AlwaysSubmit;
    let mined = score(1, 1, 1);
    assert_eq!(ensure_no_better_solution(mined, Ok(Some(score(9, 9, 9))), strategy), Ok(()));
    assert_eq!(ensure_no_better_solution(mined, Ok(None), strategy), Ok(()));
    assert_eq!(ensure_no_better_solution(mined, Err(RpcFailure::Other), strategy), Ok(()));
}

#[test]
fn leading_needs_a_strictly_better_score() {
    let strategy = SubmissionStrategy::OnlySubmitIfLeading;
    let best = score(10, 20, 30);
    assert_eq!(ensure_no_better_solution(score(11, 20, 30), Ok(Some(best)), strategy), Ok(()));
    assert_eq!(
        ensure_no_better_solution(best, Ok(Some(best)), strategy),
        Err(Error::AlreadyExistSolutionWithBetterScore)
    );
    assert_eq!(
        ensure_no_better_solution(score(10, 20, 31), Ok(Some(best)), strategy),
        Err(Error::AlreadyExistSolutionWithBetterScore)
    );
}

#[test]
fn leading_against_an_empty_chain() {
    let strategy = SubmissionStrategy::OnlySubmitIfLeading;
    assert_eq!(ensure_no_better_solution(score(0, 0, 0), Ok(None), strategy), Ok(()));
}

#[test]
fn leading_passes_a_failed_read_on() {
    let strategy = SubmissionStrategy::OnlySubmitIfLeading;
    assert_eq!(
        ensure_no_better_solution(score(1, 1, 1), Err(RpcFailure::RestartNeeded), strategy),
        Err(Error::Rpc(RpcFailure::RestartNeeded))
    );
}

use staking_miner::error::{Error, RpcFailure};
use staking_miner::watcher::{
    TransactionStatus, WatchAbort, WatchAction, WatchInput, WatchOutcome, WatchState,
};

const B1: [u8; 32] = [1; 32];
const B2: [u8; 32] = [2; 32];

/// Feeds the statuses to a new watch, reading the events of every inclusion
/// without failure, and returns the outcome with the blocks whose events were
/// read.
fn watch(statuses: &[TransactionStatus]) -> (Option<WatchOutcome>, Vec<[u8; 32]>) {
    let mut state = WatchState::new();
    let mut inclusions = Vec::new();
    for status in statuses {
        let mut action = state.step(WatchInput::Item(Some(Ok(*status))));
        if let WatchAction::ReadEvents(block) = action {
            inclusions.push(block);
            action = state.step(WatchInput::Events(Ok(())));
        }
        match action {
            WatchAction::NextStatus => {}
            WatchAction::Close(outcome) => return (Some(outcome), inclusions),
            WatchAction::ReadEvents(_) => panic!("events are read once per inclusion"),
        }
    }
    (None, inclusions)
}

#[test]
fn watch_reaches_finality() {
    let (outcome, inclusions) = watch(&[
        TransactionStatus::Ready,
        TransactionStatus::Broadcast,
        TransactionStatus::InBlock(B1),
        TransactionStatus::Finalized(B1),
    ]);
    assert_eq!(outcome, Some(WatchOutcome::Finalized(B1)));
    assert_eq!(inclusions, vec![B1]);
}

#[test]
fn retraction_does_not_end_the_watch() {
    let (outcome, inclusions) = watch(&[
        TransactionStatus::Ready,
        TransactionStatus::Retracted(B1),
        TransactionStatus::InBlock(B2),
        TransactionStatus::Finalized(B2),
    ]);
    assert_eq!(outcome, Some(WatchOutcome::Finalized(B2)));
    assert_eq!(inclusions, vec![B2]);
}

#[test]
fn watch_survives_inclusion_retraction_and_inclusion() {
    let (outcome, inclusions) = watch(&[
        TransactionStatus::Future,
        TransactionStatus::Ready,
        TransactionStatus::InBlock(B1),
        TransactionStatus::Retracted(B1),
        TransactionStatus::InBlock(B2),
        TransactionStatus::Finalized(B2),
    ]);
    assert_eq!(outcome, Some(WatchOutcome::Finalized(B2)));
    assert_eq!(inclusions, vec![B1, B2]);
}

#[test]
fn watch_goes_on_while_nothing_is_final() {
    let (outcome, _) = watch(&[
        TransactionStatus::Ready,
        TransactionStatus::Broadcast,
        TransactionStatus::Future,
        TransactionStatus::InBlock(B1),
        TransactionStatus::Retracted(B1),
    ]);
    assert_eq!(outcome, None);
}

#[test]
fn other_status_gives_the_watch_up() {
    let (outcome, _) = watch(&[TransactionStatus::Ready, TransactionStatus::Other]);
    assert_eq!(outcome, Some(WatchOutcome::Aborted(WatchAbort::OtherStatus)));
}

#[test]
fn end_of_the_stream_gives_the_watch_up() {
    let mut state = WatchState::new();
    assert_eq!(
        state.step(WatchInput::Item(None)),
        WatchAction::Close(WatchOutcome::Aborted(WatchAbort::StreamEnded))
    );
}

#[test]
fn failed_item_gives_the_watch_up() {
    for failure in [RpcFailure::Other, RpcFailure::SubscriptionClosed] {
        let mut state = WatchState::new();
        assert_eq!(
            state.step(WatchInput::Item(Some(Err(failure)))),
            WatchAction::Close(WatchOutcome::Aborted(WatchAbort::StreamFailed))
        );
    }
}

#[test]
fn restart_needed_while_watching_is_fatal() {
    let mut state = WatchState::new();
    assert_eq!(
        state.step(WatchInput::Item(Some(Err(RpcFailure::RestartNeeded)))),
        WatchAction::Close(WatchOutcome::Fatal(Error::Rpc(RpcFailure::RestartNeeded)))
    );
}

#[test]
fn events_that_cannot_be_read_give_the_watch_up() {
    for failure in [RpcFailure::Other, RpcFailure::SubscriptionClosed] {
        let mut state = WatchState::new();
        assert_eq!(
            state.step(WatchInput::Item(Some(Ok(TransactionStatus::InBlock(B1))))),
            WatchAction::ReadEvents(B1)
        );
        assert_eq!(state, WatchState::ReadingEvents(B1));
        assert_eq!(
            state.step(WatchInput::Events(Err(failure))),
            WatchAction::Close(WatchOutcome::Aborted(WatchAbort::EventsNotRead))
        );
    }
}

#[test]
fn restart_needed_while_reading_events_is_fatal() {
    let mut state = WatchState::new();
    state.step(WatchInput::Item(Some(Ok(TransactionStatus::InBlock(B1)))));
    assert_eq!(
        state.step(WatchInput::Events(Err(RpcFailure::RestartNeeded))),
        WatchAction::Close(WatchOutcome::Fatal(Error::Rpc(RpcFailure::RestartNeeded)))
    );
}

#[test]
fn closed_watch_stays_closed() {
    let mut state = WatchState::new();
    state.step(WatchInput::Item(Some(Ok(TransactionStatus::Finalized(B1)))));
    for input in [
        WatchInput::Item(Some(Ok(TransactionStatus::Ready))),
        WatchInput::Item(None),
        WatchInput::Events(Ok(())),
    ] {
        assert_eq!(state.step(input), WatchAction::Close(WatchOutcome::Finalized(B1)));
        assert_eq!(state, WatchState::Closed(WatchOutcome::Finalized(B1)));
    }
}

#[test]
fn watch_takes_no_answer_that_it_did_not_ask_for() {
    let mut state = WatchState::new();
    assert_eq!(
        state.step(WatchInput::Events(Ok(()))),
        WatchAction::Close(WatchOutcome::Fatal(Error::UnexpectedAnswer))
    );
    let mut state = WatchState::new();
    state.step(WatchInput::Item(Some(Ok(TransactionStatus::InBlock(B1)))));
    assert_eq!(
        state.step(WatchInput::Item(Some(Ok(TransactionStatus::Ready)))),
        WatchAction::Close(WatchOutcome::Fatal(Error::UnexpectedAnswer))
    );
}

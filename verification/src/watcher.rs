//! The transaction watcher: follows one submitted transaction through the
//! statuses that the node reports, until it is finalized or lost.
//!
//! Inclusion in a block is not the end: the block can still be retracted and
//! the transaction included again. Only finality is success.

use vstd::prelude::*;
use crate::error::{Error, RpcFailure};
use crate::primitives::BlockHash;

verus! {

/// What the node reports of a submitted transaction.
#[derive(Clone, Copy, Debug, PartialEq, Eq)]
pub enum TransactionStatus {
    /// It waits in the pool, ready for a block.
    Ready,
    /// It was sent on to peers.
    Broadcast,
    /// It waits in the pool for an earlier transaction.
    Future,
    /// It is part of the given block.
    InBlock(BlockHash),
    /// The given block, which held it, left the chain.
    Retracted(BlockHash),
    /// The given block, which holds it, is final.
    Finalized(BlockHash),
    /// Any status after which no other follows: dropped, invalid, replaced.
    Other,
}

/// What the watcher is handed: the next item of the status stream, or the
/// answer to a read that it asked for.
#[derive(Clone, Copy, Debug, PartialEq, Eq)]
pub enum WatchInput {
    /// The next item of the stream; `None` when the stream is over.
    Item(Option<Result<TransactionStatus, RpcFailure>>),
    /// Whether the events of the including block could be read.
    Events(Result<(), RpcFailure>),
}

/// Why a watch ended without finality and without harm to the process.
#[derive(Clone, Copy, Debug, PartialEq, Eq, Structural)]
pub enum WatchAbort {
    /// The transaction reached a status that ends its life.
    OtherStatus,
    /// An item of the stream was a failure: it could not be decoded, or the
    /// server closed the subscription.
    StreamFailed,
    /// The stream ended.
    StreamEnded,
    /// The events of the including block could not be read.
    EventsNotRead,
}

/// How a watch ended.
#[derive(Clone, Copy, Debug, PartialEq, Eq)]
pub enum WatchOutcome {
    /// The transaction is final in the given block.
    Finalized(BlockHash),
    /// The watch was given up; the process goes on.
    Aborted(WatchAbort),
    /// The process cannot go on.
    Fatal(Error),
}

/// What the watcher asks for next.
#[derive(Clone, Copy, Debug, PartialEq, Eq)]
pub enum WatchAction {
    /// Await the next item of the status stream.
    NextStatus,
    /// Read the events of the given block, for the record.
    ReadEvents(BlockHash),
    /// Close the watch.
    Close(WatchOutcome),
}

/// The state of a watch.
#[derive(Clone, Copy, Debug, PartialEq, Eq)]
pub enum WatchState {
    /// The next status is awaited.
    Watching,
    /// The events of the given block, which holds the transaction, are
    /// being read.
    ReadingEvents(BlockHash),
    /// The watch is over.
    Closed(WatchOutcome),
}

impl WatchState {
    /// What the watcher waits for in this state.
    pub open spec fn pending(self) -> WatchAction {
        match self {
            WatchState::Watching => WatchAction::NextStatus,
            WatchState::ReadingEvents(block) => WatchAction::ReadEvents(block),
            WatchState::Closed(outcome) => WatchAction::Close(outcome),
        }
    }

    /// The state after `input`.
    ///
    /// While watching: a status that only informs and a retraction keep the
    /// watch going; an inclusion has the block's events read first; finality
    /// ends it in success, any other status, a failed item and the end of the
    /// stream end it without harm, and a transport that needs a restart ends
    /// it fatally. While events are read: the watch goes on once they are
    /// there, is given up where they cannot be read, and ends fatally where
    /// the transport needs a restart. An input that the state did not ask for
    /// ends the watch fatally, and a watch that is over stays so.
    pub open spec fn next(self, input: WatchInput) -> WatchState {
        match (self, input) {
            (WatchState::Closed(_), _) => self,
            (WatchState::Watching, WatchInput::Item(None)) => WatchState::Closed(
                WatchOutcome::Aborted(WatchAbort::StreamEnded),
            ),
            (WatchState::Watching, WatchInput::Item(Some(Ok(status)))) => match status {
                TransactionStatus::Ready
                | TransactionStatus::Broadcast
                | TransactionStatus::Future
                | TransactionStatus::Retracted(_) => WatchState::Watching,
                TransactionStatus::InBlock(block) => WatchState::ReadingEvents(block),
                TransactionStatus::Finalized(block) => WatchState::Closed(
                    WatchOutcome::Finalized(block),
                ),
                TransactionStatus::Other => WatchState::Closed(
                    WatchOutcome::Aborted(WatchAbort::OtherStatus),
                ),
            },
            (WatchState::Watching, WatchInput::Item(Some(Err(failure)))) => match failure {
                RpcFailure::RestartNeeded => WatchState::Closed(
                    WatchOutcome::Fatal(Error::Rpc(RpcFailure::RestartNeeded)),
                ),
                _ => WatchState::Closed(WatchOutcome::Aborted(WatchAbort::StreamFailed)),
            },
            (WatchState::ReadingEvents(_), WatchInput::Events(Ok(_))) => WatchState::Watching,
            (WatchState::ReadingEvents(_), WatchInput::Events(Err(failure))) => match failure {
                RpcFailure::RestartNeeded => WatchState::Closed(
                    WatchOutcome::Fatal(Error::Rpc(RpcFailure::RestartNeeded)),
                ),
                _ => WatchState::Closed(WatchOutcome::Aborted(WatchAbort::EventsNotRead)),
            },
            (WatchState::Watching, WatchInput::Events(_)) => WatchState::Closed(
                WatchOutcome::Fatal(Error::UnexpectedAnswer),
            ),
            (WatchState::ReadingEvents(_), WatchInput::Item(_)) => WatchState::Closed(
                WatchOutcome::Fatal(Error::UnexpectedAnswer),
            ),
        }
    }

    /// The state after the node reported `status`, where the events of an
    /// including block are read without failure.
    pub open spec fn after_status(self, status: TransactionStatus) -> WatchState {
        let reported = self.next(WatchInput::Item(Some(Ok(status))));
        if reported is ReadingEvents {
            reported.next(WatchInput::Events(Ok(())))
        } else {
            reported
        }
    }

    /// The state after the node reported `statuses`, one after the other.
    pub open spec fn after_statuses(self, statuses: Seq<TransactionStatus>) -> WatchState
        decreases statuses.len(),
    {
        if statuses.len() == 0 {
            self
        } else {
            self.after_statuses(statuses.drop_last()).after_status(statuses.last())
        }
    }

    /// The watch of a transaction that was just submitted.
    pub fn new() -> (state: WatchState)
        ensures
            state == WatchState::Watching,
    {
        WatchState::Watching
    }

    /// Takes `input` and says what to do next.
    pub fn step(&mut self, input: WatchInput) -> (action: WatchAction)
        ensures
            *final(self) == old(self).next(input),
            action == final(self).pending(),
    {
        let next = match (*self, input) {
            (WatchState::Closed(outcome), _) => WatchState::Closed(outcome),
            (WatchState::Watching, WatchInput::Item(None)) => WatchState::Closed(
                WatchOutcome::Aborted(WatchAbort::StreamEnded),
            ),
            (WatchState::Watching, WatchInput::Item(Some(Ok(status)))) => match status {
                TransactionStatus::Ready => WatchState::Watching,
                TransactionStatus::Broadcast => WatchState::Watching,
                TransactionStatus::Future => WatchState::Watching,
                TransactionStatus::Retracted(_) => WatchState::Watching,
                TransactionStatus::InBlock(block) => WatchState::ReadingEvents(block),
                TransactionStatus::Finalized(block) => WatchState::Closed(
                    WatchOutcome::Finalized(block),
                ),
                TransactionStatus::Other => WatchState::Closed(
                    WatchOutcome::Aborted(WatchAbort::OtherStatus),
                ),
            },
            (WatchState::Watching, WatchInput::Item(Some(Err(failure)))) => match failure {
                RpcFailure::RestartNeeded => WatchState::Closed(
                    WatchOutcome::Fatal(Error::Rpc(RpcFailure::RestartNeeded)),
                ),
                _ => WatchState::Closed(WatchOutcome::Aborted(WatchAbort::StreamFailed)),
            },
            (WatchState::ReadingEvents(_), WatchInput::Events(Ok(_))) => WatchState::Watching,
            (WatchState::ReadingEvents(_), WatchInput::Events(Err(failure))) => match failure {
                RpcFailure::RestartNeeded => WatchState::Closed(
                    WatchOutcome::Fatal(Error::Rpc(RpcFailure::RestartNeeded)),
                ),
                _ => WatchState::Closed(WatchOutcome::Aborted(WatchAbort::EventsNotRead)),
            },
            (WatchState::Watching, WatchInput::Events(_)) => WatchState::Closed(
                WatchOutcome::Fatal(Error::UnexpectedAnswer),
            ),
            (WatchState::ReadingEvents(_), WatchInput::Item(_)) => WatchState::Closed(
                WatchOutcome::Fatal(Error::UnexpectedAnswer),
            ),
        };
        *self = next;
        match next {
            WatchState::Watching => WatchAction::NextStatus,
            WatchState::ReadingEvents(block) => WatchAction::ReadEvents(block),
            WatchState::Closed(outcome) => WatchAction::Close(outcome),
        }
    }
}

/// Whether `status` ends the life of a transaction, in success or not.
pub open spec fn is_terminal(status: TransactionStatus) -> bool {
    status is Finalized || status is Other
}

/// However often a transaction is announced, included and retracted, the
/// watch goes on: no status but a terminal one ends it.
pub proof fn lemma_watch_goes_on_until_terminal(statuses: Seq<TransactionStatus>)
    requires
        forall|i: int| 0 <= i < statuses.len() ==> !is_terminal(#[trigger] statuses[i]),
    ensures
        WatchState::Watching.after_statuses(statuses) == WatchState::Watching,
    decreases statuses.len(),
{
    if statuses.len() > 0 {
        let before = statuses.drop_last();
        assert forall|i: int| 0 <= i < before.len() implies !is_terminal(#[trigger] before[i]) by {
            assert(before[i] == statuses[i]);
        }
        lemma_watch_goes_on_until_terminal(before);
        assert(!is_terminal(statuses.last()));
    }
}

/// A watch ends in success exactly when finality is the first terminal
/// status: after statuses none of which is terminal, `Finalized` closes the
/// watch as finalized in that block, and `Other` closes it as given up.
pub proof fn lemma_first_terminal_status_decides(
    statuses: Seq<TransactionStatus>,
    last: TransactionStatus,
)
    requires
        forall|i: int| 0 <= i < statuses.len() ==> !is_terminal(#[trigger] statuses[i]),
        is_terminal(last),
    ensures
        last matches TransactionStatus::Finalized(block) ==> WatchState::Watching.after_statuses(
            statuses.push(last),
        ) == WatchState::Closed(WatchOutcome::Finalized(block)),
        last is Other ==> WatchState::Watching.after_statuses(statuses.push(last))
            == WatchState::Closed(WatchOutcome::Aborted(WatchAbort::OtherStatus)),
{
    lemma_watch_goes_on_until_terminal(statuses);
    assert(statuses.push(last).drop_last() == statuses);
}

/// A watch that is over stays as it ended, whatever comes in.
pub proof fn lemma_closed_watch_stays(outcome: WatchOutcome, input: WatchInput)
    ensures
        WatchState::Closed(outcome).next(input) == WatchState::Closed(outcome),
{
}

} // verus!

//! The submission pipeline: one run per head, from the first guard to the
//! end of the watch.
//!
//! A run does no work itself. It asks for one thing at a time, takes the
//! answer, and decides what to ask for next; reading the ledger, solving,
//! signing and submitting are the caller's. Every guard is read as of the
//! run's own head, and a run that a guard turns down ends without a word.

use vstd::prelude::*;
use crate::chain_state::{
    better_solution_verdict, ensure_no_better_solution, ensure_signed_phase, reads_best_score,
    signed_phase_verdict, Phase, Query, SubmissionRecord,
};
use crate::duplicate_guard::{indices_read, DuplicateScan, ScanAction, ScanView};
use crate::era::{anchor_block, mortal_era, transaction_era, Era};
use crate::error::{Error, RpcFailure};
use crate::primitives::{AccountId, BlockHash, HeadReference};
use crate::score::{ElectionScore, SubmissionStrategy};
use crate::watcher::{WatchAbort, WatchAction, WatchInput, WatchOutcome, WatchState};

verus! {

/// What a run is set up with.
#[derive(Clone, Copy, Debug, PartialEq, Eq, Structural)]
pub struct PipelineConfig {
    /// When a mined solution is submitted.
    pub strategy: SubmissionStrategy,
    /// How many recent block hashes the ledger keeps; a transaction lives
    /// half as long.
    pub block_hash_count: u32,
}

/// How a run ended.
#[derive(Clone, Copy, Debug, PartialEq, Eq)]
pub enum Outcome {
    /// A guard turned the run down: nothing to report.
    Skipped(Error),
    /// The run failed in a way that is reported and harms nobody else.
    Reported(Error),
    /// The run met an error with which the process cannot go on.
    Fatal(Error),
    /// The transaction was submitted and is final in the given block.
    Finalized(BlockHash),
    /// The transaction was submitted and the watch was given up.
    WatchAborted(WatchAbort),
}

/// What a run waits for.
#[derive(Clone, Copy, Debug, PartialEq, Eq)]
pub enum Stage {
    /// The check of the runtime version.
    CheckingVersion,
    /// The phase of the election.
    ReadingPhase,
    /// The indices of the queue of submissions.
    ReadingIndices,
    /// One record of the queue.
    ReadingSubmission,
    /// The snapshot of the election state.
    TakingSnapshot,
    /// The solver.
    Solving,
    /// The signer's account, for its nonce; the mined score is kept.
    FetchingNonce(ElectionScore),
    /// The signed transaction; the mined score and the nonce are kept.
    Signing(ElectionScore, u32),
    /// The best score that the chain holds; the mined score is kept.
    ReadingBestScore(ElectionScore),
    /// The node's word on the submission.
    Submitting,
    /// The watch of the submitted transaction.
    Watching(WatchState),
    /// Nothing: the run is over.
    Finished(Outcome),
}

/// What a run asks for.
#[derive(Clone, Copy, Debug, PartialEq, Eq)]
pub enum Action {
    /// Check that the node runs the runtime version that this build knows.
    CheckVersion,
    /// Read the entry `query` as of block `at`.
    Read { query: Query, at: BlockHash },
    /// Take the snapshot of the election state as of block `at`.
    TakeSnapshot { at: BlockHash },
    /// Mine a solution on the snapshot and check that it is feasible.
    Solve,
    /// Build the transaction that submits the mined solution, and sign it.
    Sign { nonce: u32, tip: u128, era: Era },
    /// Submit the signed transaction and open the stream of its statuses.
    Submit,
    /// Await the next status of the submitted transaction.
    NextStatus,
    /// Do nothing more.
    Stop(Outcome),
}

/// What a run is handed in answer.
#[derive(Debug)]
pub enum Answer {
    /// Whether the runtime version is the known one.
    Version(Result<(), Error>),
    /// The phase that was read.
    Phase(Result<Option<Phase>, RpcFailure>),
    /// The indices that were read, in the order of the queue.
    Indices(Result<Option<Vec<u32>>, RpcFailure>),
    /// The record that was read.
    Submission(Result<Option<SubmissionRecord>, RpcFailure>),
    /// Whether the snapshot was taken.
    Snapshot(bool),
    /// The score of the mined solution; `None` where the solver failed or
    /// the solution is not feasible.
    Solution(Option<ElectionScore>),
    /// The nonce of the signer's account; `Ok(None)` where the chain has no
    /// such account.
    Nonce(Result<Option<u32>, RpcFailure>),
    /// The transaction is built and signed.
    Signed,
    /// The best score that was read.
    BestScore(Result<Option<ElectionScore>, RpcFailure>),
    /// Whether the node took the transaction.
    Submitted(Result<(), RpcFailure>),
    /// What the watch of the transaction brought.
    Watch(WatchInput),
}

/// How the run ends when its watch ends with `outcome`.
pub open spec fn watch_result(outcome: WatchOutcome) -> Outcome {
    match outcome {
        WatchOutcome::Finalized(block) => Outcome::Finalized(block),
        WatchOutcome::Aborted(abort) => Outcome::WatchAborted(abort),
        WatchOutcome::Fatal(error) => Outcome::Fatal(error),
    }
}

/// The stage that follows the duplicate guard in the state `scan`: the next
/// record while the scan runs, the snapshot when it found nothing, the end
/// when it found a submission of the signer or failed.
pub open spec fn stage_after_scan(scan: ScanView) -> Stage {
    match scan.verdict {
        None => Stage::ReadingSubmission,
        Some(Ok(_)) => Stage::TakingSnapshot,
        Some(Err(error)) => Stage::Finished(Outcome::Skipped(error)),
    }
}

/// The stage that follows the watch in the state `watch`.
pub open spec fn stage_after_watch(watch: WatchState) -> Stage {
    match watch {
        WatchState::Closed(outcome) => Stage::Finished(watch_result(outcome)),
        _ => Stage::Watching(watch),
    }
}

/// A run as a value.
pub struct PipelineView {
    pub head: HeadReference,
    pub signer: AccountId,
    pub config: PipelineConfig,
    pub stage: Stage,
    pub scan: ScanView,
}

impl PipelineView {
    /// The run for `head` at its start.
    pub open spec fn start(head: HeadReference, signer: AccountId, config: PipelineConfig) -> PipelineView {
        PipelineView {
            head,
            signer,
            config,
            stage: Stage::CheckingVersion,
            scan: ScanView::start(Ok(None)),
        }
    }

    /// What holds of a run from its start on: while it goes through the
    /// queue, the scan is running, and while it watches, the watch is open.
    pub open spec fn wf(self) -> bool {
        &&& self.scan.wf()
        &&& self.stage is ReadingSubmission ==> self.scan.verdict is None
        &&& self.stage matches Stage::Watching(watch) ==> !(watch is Closed)
    }

    /// The run in another stage.
    pub open spec fn at(self, stage: Stage) -> PipelineView {
        PipelineView { stage, ..self }
    }

    /// The run after `answer`.
    ///
    /// The stages follow one another in a fixed order: version, phase,
    /// duplicate guard, snapshot, solver, nonce, signature, leadership,
    /// submission, watch. A version that is not the known one, a snapshot
    /// that cannot be taken, an account that is missing or cannot be read and
    /// a transport that needs a restart end the run fatally. A guard that
    /// says no, or cannot be read, ends it without a word. A solver that
    /// fails and a node that turns the transaction down end it with a
    /// report. An answer to another question than the pending one ends it
    /// fatally, and a run that is over stays so.
    pub open spec fn next(self, answer: Answer) -> PipelineView {
        match (self.stage, answer) {
            (Stage::Finished(_), _) => self,
            (Stage::CheckingVersion, Answer::Version(checked)) => match checked {
                Ok(_) => self.at(Stage::ReadingPhase),
                Err(error) => self.at(Stage::Finished(Outcome::Fatal(error))),
            },
            (Stage::ReadingPhase, Answer::Phase(read)) => match signed_phase_verdict(read) {
                Ok(_) => self.at(Stage::ReadingIndices),
                Err(error) => self.at(Stage::Finished(Outcome::Skipped(error))),
            },
            (Stage::ReadingIndices, Answer::Indices(read)) => {
                let scan = ScanView::start(indices_read(read));
                PipelineView { scan, stage: stage_after_scan(scan), ..self }
            },
            (Stage::ReadingSubmission, Answer::Submission(read)) => {
                let scan = self.scan.on_record(read, self.signer);
                PipelineView { scan, stage: stage_after_scan(scan), ..self }
            },
            (Stage::TakingSnapshot, Answer::Snapshot(taken)) => if taken {
                self.at(Stage::Solving)
            } else {
                self.at(Stage::Finished(Outcome::Fatal(Error::Snapshot)))
            },
            (Stage::Solving, Answer::Solution(mined)) => match mined {
                Some(score) => self.at(Stage::FetchingNonce(score)),
                None => self.at(Stage::Finished(Outcome::Reported(Error::Solver))),
            },
            (Stage::FetchingNonce(score), Answer::Nonce(read)) => match read {
                Ok(Some(nonce)) => self.at(Stage::Signing(score, nonce)),
                Ok(None) => self.at(Stage::Finished(Outcome::Fatal(Error::AccountDoesNotExists))),
                Err(failure) => self.at(Stage::Finished(Outcome::Fatal(Error::Rpc(failure)))),
            },
            (Stage::Signing(score, _), Answer::Signed) => match self.config.strategy {
                SubmissionStrategy::AlwaysSubmit => self.at(Stage::Submitting),
                SubmissionStrategy::OnlySubmitIfLeading => self.at(Stage::ReadingBestScore(score)),
            },
            (Stage::ReadingBestScore(score), Answer::BestScore(read)) => match better_solution_verdict(
                score,
                read,
                self.config.strategy,
            ) {
                Ok(_) => self.at(Stage::Submitting),
                Err(error) => self.at(Stage::Finished(Outcome::Skipped(error))),
            },
            (Stage::Submitting, Answer::Submitted(taken)) => match taken {
                Ok(_) => self.at(Stage::Watching(WatchState::Watching)),
                Err(RpcFailure::RestartNeeded) => self.at(
                    Stage::Finished(Outcome::Fatal(Error::Rpc(RpcFailure::RestartNeeded))),
                ),
                Err(failure) => self.at(Stage::Finished(Outcome::Reported(Error::Rpc(failure)))),
            },
            (Stage::Watching(watch), Answer::Watch(input)) => self.at(
                stage_after_watch(watch.next(input)),
            ),
            _ => self.at(Stage::Finished(Outcome::Fatal(Error::UnexpectedAnswer))),
        }
    }

    /// What the run asks for in this state. Every guard is read as of the
    /// run's own head; only the events of an inclusion are read as of the
    /// block that includes the transaction.
    pub open spec fn pending(self) -> Action {
        match self.stage {
            Stage::CheckingVersion => Action::CheckVersion,
            Stage::ReadingPhase => Action::Read { query: Query::CurrentPhase, at: self.head.hash },
            Stage::ReadingIndices => Action::Read {
                query: Query::SubmissionIndices,
                at: self.head.hash,
            },
            Stage::ReadingSubmission => match self.scan.action() {
                ScanAction::Resolve(index) => Action::Read {
                    query: Query::Submission(index),
                    at: self.head.hash,
                },
                ScanAction::Done(_) => Action::Stop(Outcome::Fatal(Error::UnexpectedAnswer)),
            },
            Stage::TakingSnapshot => Action::TakeSnapshot { at: self.head.hash },
            Stage::Solving => Action::Solve,
            Stage::FetchingNonce(_) => Action::Read {
                query: Query::Account(self.signer),
                at: self.head.hash,
            },
            Stage::Signing(_, nonce) => Action::Sign {
                nonce,
                tip: 0,
                era: mortal_era(
                    (self.config.block_hash_count / 2) as u64,
                    anchor_block(self.head.number) as u64,
                ),
            },
            Stage::ReadingBestScore(_) => Action::Read {
                query: Query::QueuedSolution,
                at: self.head.hash,
            },
            Stage::Submitting => Action::Submit,
            Stage::Watching(watch) => match watch.pending() {
                WatchAction::NextStatus => Action::NextStatus,
                WatchAction::ReadEvents(block) => Action::Read {
                    query: Query::SystemEvents,
                    at: block,
                },
                WatchAction::Close(outcome) => Action::Stop(watch_result(outcome)),
            },
            Stage::Finished(outcome) => Action::Stop(outcome),
        }
    }
}

/// One run of the pipeline, for one head.
#[derive(Debug)]
pub struct SubmissionPipeline {
    head: HeadReference,
    signer: AccountId,
    config: PipelineConfig,
    stage: Stage,
    scan: DuplicateScan,
}

impl View for SubmissionPipeline {
    type V = PipelineView;

    closed spec fn view(&self) -> PipelineView {
        PipelineView {
            head: self.head,
            signer: self.signer,
            config: self.config,
            stage: self.stage,
            scan: self.scan@,
        }
    }
}

impl SubmissionPipeline {
    /// Starts the run for `head` and says what it asks for first.
    pub fn new(head: HeadReference, signer: AccountId, config: PipelineConfig) -> (started: (
        SubmissionPipeline,
        Action,
    ))
        ensures
            started.0@ == PipelineView::start(head, signer, config),
            started.0@.wf(),
            started.1 == Action::CheckVersion,
    {
        let (scan, _) = DuplicateScan::start(Ok(None));
        (
            SubmissionPipeline { head, signer, config, stage: Stage::CheckingVersion, scan },
            Action::CheckVersion,
        )
    }

    /// Takes the answer to what the run asked for and says what it asks for
    /// next.
    pub fn step(&mut self, answer: Answer) -> (action: Action)
        ensures
            final(self)@ == old(self)@.next(answer),
            old(self)@.wf() ==> final(self)@.wf(),
            action == final(self)@.pending(),
    {
        let unexpected = Stage::Finished(Outcome::Fatal(Error::UnexpectedAnswer));
        let stage = self.stage;
        let signer = self.signer;
        let next = match stage {
            Stage::Finished(outcome) => Stage::Finished(outcome),
            Stage::CheckingVersion => match answer {
                Answer::Version(Ok(_)) => Stage::ReadingPhase,
                Answer::Version(Err(error)) => Stage::Finished(Outcome::Fatal(error)),
                _ => unexpected,
            },
            Stage::ReadingPhase => match answer {
                Answer::Phase(read) => match ensure_signed_phase(read) {
                    Ok(_) => Stage::ReadingIndices,
                    Err(error) => Stage::Finished(Outcome::Skipped(error)),
                },
                _ => unexpected,
            },
            Stage::ReadingIndices => match answer {
                Answer::Indices(read) => {
                    let (scan, _) = DuplicateScan::start(read);
                    self.scan = scan;
                    Self::after_scan(self.scan.verdict())
                },
                _ => unexpected,
            },
            Stage::ReadingSubmission => match answer {
                Answer::Submission(read) => {
                    let _ = self.scan.on_record(read, &signer);
                    Self::after_scan(self.scan.verdict())
                },
                _ => unexpected,
            },
            Stage::TakingSnapshot => match answer {
                Answer::Snapshot(true) => Stage::Solving,
                Answer::Snapshot(false) => Stage::Finished(Outcome::Fatal(Error::Snapshot)),
                _ => unexpected,
            },
            Stage::Solving => match answer {
                Answer::Solution(Some(score)) => Stage::FetchingNonce(score),
                Answer::Solution(None) => Stage::Finished(Outcome::Reported(Error::Solver)),
                _ => unexpected,
            },
            Stage::FetchingNonce(score) => match answer {
                Answer::Nonce(Ok(Some(nonce))) => Stage::Signing(score, nonce),
                Answer::Nonce(Ok(None)) => Stage::Finished(
                    Outcome::Fatal(Error::AccountDoesNotExists),
                ),
                Answer::Nonce(Err(failure)) => Stage::Finished(Outcome::Fatal(Error::Rpc(failure))),
                _ => unexpected,
            },
            Stage::Signing(score, _) => match answer {
                Answer::Signed => if reads_best_score(self.config.strategy) {
                    Stage::ReadingBestScore(score)
                } else {
                    Stage::Submitting
                },
                _ => unexpected,
            },
            Stage::ReadingBestScore(score) => match answer {
                Answer::BestScore(read) => match ensure_no_better_solution(
                    score,
                    read,
                    self.config.strategy,
                ) {
                    Ok(_) => Stage::Submitting,
                    Err(error) => Stage::Finished(Outcome::Skipped(error)),
                },
                _ => unexpected,
            },
            Stage::Submitting => match answer {
                Answer::Submitted(Ok(_)) => Stage::Watching(WatchState::new()),
                Answer::Submitted(Err(RpcFailure::RestartNeeded)) => Stage::Finished(
                    Outcome::Fatal(Error::Rpc(RpcFailure::RestartNeeded)),
                ),
                Answer::Submitted(Err(failure)) => Stage::Finished(
                    Outcome::Reported(Error::Rpc(failure)),
                ),
                _ => unexpected,
            },
            Stage::Watching(watch) => match answer {
                Answer::Watch(input) => {
                    let mut watch = watch;
                    let _ = watch.step(input);
                    match watch {
                        WatchState::Closed(outcome) => Stage::Finished(Self::after_watch(outcome)),
                        _ => Stage::Watching(watch),
                    }
                },
                _ => unexpected,
            },
        };
        self.stage = next;
        self.pending()
    }

    /// What the run waits for.
    pub fn stage(&self) -> (stage: Stage)
        ensures
            stage == self@.stage,
    {
        self.stage
    }

    /// The head that the run was started for.
    pub fn head(&self) -> (head: HeadReference)
        ensures
            head == self@.head,
    {
        self.head
    }

    /// How the run ended, once it is over.
    pub fn outcome(&self) -> (outcome: Option<Outcome>)
        ensures
            outcome == (match self@.stage {
                Stage::Finished(ended) => Some(ended),
                _ => None,
            }),
    {
        match self.stage {
            Stage::Finished(ended) => Some(ended),
            _ => None,
        }
    }

    /// The stage that follows the duplicate guard, by its verdict.
    fn after_scan(verdict: Option<Result<(), Error>>) -> (stage: Stage)
        ensures
            stage == (match verdict {
                None => Stage::ReadingSubmission,
                Some(Ok(_)) => Stage::TakingSnapshot,
                Some(Err(error)) => Stage::Finished(Outcome::Skipped(error)),
            }),
    {
        match verdict {
            None => Stage::ReadingSubmission,
            Some(Ok(_)) => Stage::TakingSnapshot,
            Some(Err(error)) => Stage::Finished(Outcome::Skipped(error)),
        }
    }

    /// How the run ends when its watch ends with `outcome`.
    fn after_watch(outcome: WatchOutcome) -> (ended: Outcome)
        ensures
            ended == watch_result(outcome),
    {
        match outcome {
            WatchOutcome::Finalized(block) => Outcome::Finalized(block),
            WatchOutcome::Aborted(abort) => Outcome::WatchAborted(abort),
            WatchOutcome::Fatal(error) => Outcome::Fatal(error),
        }
    }

    /// What the run asks for in its present state.
    pub fn pending(&self) -> (action: Action)
        ensures
            action == self@.pending(),
    {
        match self.stage {
            Stage::CheckingVersion => Action::CheckVersion,
            Stage::ReadingPhase => Action::Read { query: Query::CurrentPhase, at: self.head.hash },
            Stage::ReadingIndices => Action::Read {
                query: Query::SubmissionIndices,
                at: self.head.hash,
            },
            Stage::ReadingSubmission => match self.scan.action() {
                ScanAction::Resolve(index) => Action::Read {
                    query: Query::Submission(index),
                    at: self.head.hash,
                },
                ScanAction::Done(_) => Action::Stop(Outcome::Fatal(Error::UnexpectedAnswer)),
            },
            Stage::TakingSnapshot => Action::TakeSnapshot { at: self.head.hash },
            Stage::Solving => Action::Solve,
            Stage::FetchingNonce(_) => Action::Read {
                query: Query::Account(self.signer),
                at: self.head.hash,
            },
            Stage::Signing(_, nonce) => Action::Sign {
                nonce,
                tip: 0,
                era: transaction_era(self.head.number, self.config.block_hash_count),
            },
            Stage::ReadingBestScore(_) => Action::Read {
                query: Query::QueuedSolution,
                at: self.head.hash,
            },
            Stage::Submitting => Action::Submit,
            Stage::Watching(watch) => match watch {
                WatchState::Watching => Action::NextStatus,
                WatchState::ReadingEvents(block) => Action::Read {
                    query: Query::SystemEvents,
                    at: block,
                },
                WatchState::Closed(outcome) => Action::Stop(Self::after_watch(outcome)),
            },
            Stage::Finished(outcome) => Action::Stop(outcome),
        }
    }
}

} // verus!

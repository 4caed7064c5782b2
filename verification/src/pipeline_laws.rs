//! What holds of every run of the pipeline, whatever answers it is handed.

use vstd::prelude::*;
use crate::chain_state::{signed_phase_verdict, Phase, Query};
use crate::duplicate_guard::{indices_read, submitted_by, RecordRead, ScanView};
use crate::error::{Error, RpcFailure};
use crate::pipeline::{
    stage_after_watch, Action, Answer, Outcome, PipelineConfig, PipelineView, Stage,
};
use crate::primitives::{AccountId, HeadReference};
use crate::score::{acceptable, ElectionScore, SubmissionStrategy};

verus! {

/// How far a run has come: the place of its stage in the fixed order.
pub open spec fn progress(stage: Stage) -> nat {
    match stage {
        Stage::CheckingVersion => 0,
        Stage::ReadingPhase => 1,
        Stage::ReadingIndices => 2,
        Stage::ReadingSubmission => 3,
        Stage::TakingSnapshot => 4,
        Stage::Solving => 5,
        Stage::FetchingNonce(_) => 6,
        Stage::Signing(_, _) => 7,
        Stage::ReadingBestScore(_) => 8,
        Stage::Submitting => 9,
        Stage::Watching(_) => 10,
        Stage::Finished(_) => 11,
    }
}

/// Whether a run can be in `stage` after two answers in a row: while it goes
/// through the queue, while it watches, and when it is over.
pub open spec fn may_repeat(stage: Stage) -> bool {
    stage is ReadingSubmission || stage is Watching || stage is Finished
}

impl PipelineView {
    /// The run after the answers `answers`, one after the other.
    pub open spec fn run(self, answers: Seq<Answer>) -> PipelineView
        decreases answers.len(),
    {
        if answers.len() == 0 {
            self
        } else {
            self.run(answers.drop_last()).next(answers.last())
        }
    }
}

/// A run never goes back: an answer takes it to a later stage, or leaves it
/// in one of the stages that may repeat.
pub proof fn lemma_progress_never_falls(run: PipelineView, answer: Answer)
    ensures
        progress(run.stage) <= progress(run.next(answer).stage),
        !may_repeat(run.stage) ==> progress(run.stage) < progress(run.next(answer).stage),
        run.next(answer).head == run.head,
        run.next(answer).signer == run.signer,
        run.next(answer).config == run.config,
{
}

/// A run that is well formed is so after one more answer.
pub proof fn lemma_answer_keeps_run_well_formed(run: PipelineView, answer: Answer)
    requires
        run.wf(),
    ensures
        run.next(answer).wf(),
{
    match run.stage {
        Stage::ReadingIndices => {
            if let Answer::Indices(read) = answer {
                assert(ScanView::start(indices_read(read)).wf());
            }
        },
        Stage::ReadingSubmission => {
            if let Answer::Submission(read) = answer {
                assert(run.scan.on_record(read, run.signer).wf());
            }
        },
        Stage::Watching(watch) => {
            if let Answer::Watch(input) = answer {
                assert(stage_after_watch(watch.next(input)) is Watching ==> !(watch.next(input)
                    is Closed));
            }
        },
        _ => {},
    }
}

/// A run starts well formed and stays so with every answer.
pub proof fn lemma_run_stays_well_formed(
    head: HeadReference,
    signer: AccountId,
    config: PipelineConfig,
    answers: Seq<Answer>,
)
    ensures
        PipelineView::start(head, signer, config).run(answers).wf(),
    decreases answers.len(),
{
    if answers.len() > 0 {
        lemma_run_stays_well_formed(head, signer, config, answers.drop_last());
        lemma_answer_keeps_run_well_formed(
            PipelineView::start(head, signer, config).run(answers.drop_last()),
            answers.last(),
        );
    }
}

/// A run that is well formed asks for a stop only when it is over: while it
/// goes on, what it asks for is work to do.
pub proof fn lemma_run_stops_only_when_finished(run: PipelineView)
    requires
        run.wf(),
    ensures
        run.pending() is Stop <==> run.stage is Finished,
{
}

/// A run that is over stays as it ended and asks for nothing more.
pub proof fn lemma_finished_run_stays(run: PipelineView, answers: Seq<Answer>)
    requires
        run.stage is Finished,
    ensures
        run.run(answers) == run,
        run.run(answers).pending() == Action::Stop(run.stage->Finished_0),
    decreases answers.len(),
{
    if answers.len() > 0 {
        lemma_finished_run_stays(run, answers.drop_last());
    }
}

/// To run through answers is to run through the first of them and then
/// through the rest.
pub proof fn lemma_run_first_then_rest(run: PipelineView, answers: Seq<Answer>)
    requires
        answers.len() > 0,
    ensures
        run.run(answers) == run.next(answers[0]).run(answers.drop_first()),
    decreases answers.len(),
{
    if answers.len() == 1 {
        assert(answers.drop_last().len() == 0);
        assert(answers.drop_first().len() == 0);
        assert(run.run(answers.drop_last()) == run);
    } else {
        let shorter = answers.drop_last();
        lemma_run_first_then_rest(run, shorter);
        assert(shorter[0] == answers[0]);
        assert(shorter.drop_first() == answers.drop_first().drop_last());
        assert(answers.drop_first().last() == answers.last());
    }
}

/// Through all of a run the head, the signer and the settings stay the same,
/// and the run comes no nearer to its start.
pub proof fn lemma_run_keeps_its_head(run: PipelineView, answers: Seq<Answer>)
    ensures
        run.run(answers).head == run.head,
        run.run(answers).signer == run.signer,
        run.run(answers).config == run.config,
        progress(run.stage) <= progress(run.run(answers).stage),
    decreases answers.len(),
{
    if answers.len() > 0 {
        lemma_run_keeps_its_head(run, answers.drop_last());
        lemma_progress_never_falls(run.run(answers.drop_last()), answers.last());
    }
}

/// Every guard is read as of the run's own head: whatever a run asks to
/// read, but for the events of an inclusion, it asks for as of that head.
pub proof fn lemma_guards_read_at_own_head(
    start: PipelineView,
    answers: Seq<Answer>,
    query: Query,
    at: [u8; 32],
)
    requires
        start.run(answers).pending() == (Action::Read { query, at }),
        query != Query::SystemEvents,
    ensures
        at == start.head.hash,
{
    lemma_run_keeps_its_head(start, answers);
}

/// A stage that may not repeat is behind the run for good once it is left:
/// the run is further on after every later answer.
pub proof fn lemma_stage_is_not_revisited(
    start: PipelineView,
    answers: Seq<Answer>,
    i: int,
    j: int,
)
    requires
        0 <= i < j <= answers.len(),
        !may_repeat(start.run(answers.take(i)).stage),
    ensures
        progress(start.run(answers.take(i)).stage) < progress(start.run(answers.take(j)).stage),
    decreases j - i,
{
    let before = start.run(answers.take(j - 1));
    assert(answers.take(j).drop_last() == answers.take(j - 1));
    assert(answers.take(j).last() == answers[j - 1]);
    assert(start.run(answers.take(j)) == before.next(answers[j - 1]));
    lemma_progress_never_falls(before, answers[j - 1]);
    if i < j - 1 {
        lemma_stage_is_not_revisited(start, answers, i, j - 1);
    }
}

/// A run submits at most once: it asks for a submission after at most one
/// of its answers.
pub proof fn lemma_at_most_one_submission(
    start: PipelineView,
    answers: Seq<Answer>,
    i: int,
    j: int,
)
    requires
        0 <= i <= answers.len(),
        0 <= j <= answers.len(),
        start.run(answers.take(i)).pending() == Action::Submit,
        start.run(answers.take(j)).pending() == Action::Submit,
    ensures
        i == j,
{
    if i < j {
        lemma_stage_is_not_revisited(start, answers, i, j);
    } else if j < i {
        lemma_stage_is_not_revisited(start, answers, j, i);
    }
}

/// What a run asks for in a stage that may not repeat, it asks for once:
/// the version check, the snapshot, the solver and the signature too.
pub proof fn lemma_asked_at_most_once(
    start: PipelineView,
    answers: Seq<Answer>,
    i: int,
    j: int,
)
    requires
        0 <= i <= answers.len(),
        0 <= j <= answers.len(),
        !may_repeat(start.run(answers.take(i)).stage),
        start.run(answers.take(i)).stage == start.run(answers.take(j)).stage,
    ensures
        i == j,
{
    if i < j {
        lemma_stage_is_not_revisited(start, answers, i, j);
    } else if j < i {
        lemma_stage_is_not_revisited(start, answers, j, i);
    }
}

/// A run asks for a submission only after the leadership check let it: it
/// comes to submit from the signature or from the read of the best score,
/// and a run that submits only when leading comes there from a read that
/// did not fail, against which its own score is acceptable.
pub proof fn lemma_submission_was_accepted(run: PipelineView, answer: Answer)
    requires
        run.next(answer).pending() == Action::Submit,
        run.pending() != Action::Submit,
    ensures
        run.stage is Signing || run.stage is ReadingBestScore,
        run.config.strategy == SubmissionStrategy::OnlySubmitIfLeading ==> {
            &&& run.stage is ReadingBestScore
            &&& answer is BestScore
            &&& answer->BestScore_0 is Ok
            &&& acceptable(
                run.stage->ReadingBestScore_0,
                answer->BestScore_0->Ok_0,
                run.config.strategy,
            )
        },
{
}

/// Where the phase read is not the signed one, the run ends there: it never
/// asks for the solver nor for a submission, whatever it is handed after.
pub proof fn lemma_closed_phase_ends_run(
    run: PipelineView,
    read: Result<Option<Phase>, RpcFailure>,
    rest: Seq<Answer>,
)
    requires
        run.stage == Stage::ReadingPhase,
        read != Ok::<Option<Phase>, RpcFailure>(Some(Phase::Signed)),
    ensures
        signed_phase_verdict(read) is Err,
        read is Ok ==> signed_phase_verdict(read) == Err::<(), Error>(Error::IncorrectPhase),
        run.next(Answer::Phase(read)).run(rest).pending() == Action::Stop(
            Outcome::Skipped(signed_phase_verdict(read)->Err_0),
        ),
{
    lemma_finished_run_stays(run.next(Answer::Phase(read)), rest);
}

/// Where a record of the queue is the signer's own, the run ends there: it
/// never asks for the solver nor for a submission, whatever it is handed
/// after.
pub proof fn lemma_duplicate_ends_run(run: PipelineView, read: RecordRead, rest: Seq<Answer>)
    requires
        run.stage == Stage::ReadingSubmission,
        run.scan.verdict is None,
        submitted_by(read, run.signer),
    ensures
        run.next(Answer::Submission(read)).run(rest).pending() == Action::Stop(
            Outcome::Skipped(Error::AlreadySubmitted),
        ),
{
    lemma_finished_run_stays(run.next(Answer::Submission(read)), rest);
}

/// Where the chain holds a score that the mined one does not strictly beat,
/// a run that submits only when leading ends there: it never asks for a
/// submission, whatever it is handed after.
pub proof fn lemma_losing_score_ends_run(
    run: PipelineView,
    score: ElectionScore,
    best: ElectionScore,
    rest: Seq<Answer>,
)
    requires
        run.stage == Stage::ReadingBestScore(score),
        run.config.strategy == SubmissionStrategy::OnlySubmitIfLeading,
        !score.strictly_better(best),
    ensures
        run.next(Answer::BestScore(Ok(Some(best)))).run(rest).pending() == Action::Stop(
            Outcome::Skipped(Error::AlreadyExistSolutionWithBetterScore),
        ),
{
    lemma_finished_run_stays(run.next(Answer::BestScore(Ok(Some(best)))), rest);
}

} // verus!

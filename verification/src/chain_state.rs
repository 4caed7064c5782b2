//! The guards: what is read of the ledger's state as of one block, and what
//! each value read means for a submission.
//!
//! Nothing here talks to a node. A guard names the entry to read and judges
//! the value that the caller read for it; a value that is absent counts as
//! the entry's default, and only a failed read is an error.

use vstd::prelude::*;
use vstd::string::StringSliceAdditionalSpecFns;
use crate::error::{Error, RpcFailure};
use crate::primitives::AccountId;
use crate::score::{acceptable, is_acceptable, ElectionScore, SubmissionStrategy};
use crate::storage_key::{
    encode_index, keyed_address_of, le_bytes, lemma_keyed_address_injective,
    lemma_le_bytes_round_trip, prefix_of, storage_value, storage_value_by_key, system_events_key,
    KeyHasher, StorageKey,
};

verus! {

/// The stage of the periodic election.
#[derive(Clone, Copy, Debug, PartialEq, Eq, Structural)]
pub enum Phase {
    /// Nothing is accepted.
    Off,
    /// Signed solutions are accepted.
    Signed,
    /// Unsigned solutions are accepted.
    Unsigned,
    /// The election failed and waits for a rescue, in the given round if one
    /// is known.
    Emergency(Option<u32>),
}

impl Phase {
    /// The phase that was read, `Off` where the entry is absent.
    pub open spec fn or_default(read: Option<Phase>) -> Phase {
        match read {
            Some(phase) => phase,
            None => Phase::Off,
        }
    }

    /// Whether signed solutions are accepted.
    pub fn is_signed(&self) -> (signed: bool)
        ensures
            signed == (*self == Phase::Signed),
    {
        match self {
            Phase::Signed => true,
            _ => false,
        }
    }
}

/// A solution that waits in the queue of signed submissions.
#[derive(Clone, Copy, Debug, PartialEq, Eq)]
pub struct SubmissionRecord {
    /// Who submitted it.
    pub who: AccountId,
    /// The score that it claims.
    pub score: ElectionScore,
}

/// The entries of the ledger's state that the guards read.
#[derive(Clone, Copy, Debug, PartialEq, Eq)]
pub enum Query {
    /// The phase of the election.
    CurrentPhase,
    /// The indices of the queued submissions.
    SubmissionIndices,
    /// The queued submission with the given index.
    Submission(u32),
    /// The best solution accepted so far.
    QueuedSolution,
    /// The events that the block deposited.
    SystemEvents,
    /// The state of an account, which holds its nonce.
    Account(AccountId),
}

/// The name of the module that runs the election.
pub open spec fn election_module() -> Seq<u8> {
    "ElectionProviderMultiPhase".spec_bytes()
}

impl Query {
    /// Where the entry lies.
    pub open spec fn address(self) -> Seq<u8> {
        match self {
            Query::CurrentPhase => prefix_of(election_module(), "CurrentPhase".spec_bytes()),
            Query::SubmissionIndices => prefix_of(
                election_module(),
                "SignedSubmissionIndices".spec_bytes(),
            ),
            Query::Submission(index) => keyed_address_of(
                election_module(),
                "SignedSubmissionsMap".spec_bytes(),
                le_bytes(index),
                KeyHasher::Twox64Concat,
            ),
            Query::QueuedSolution => prefix_of(election_module(), "QueuedSolution".spec_bytes()),
            Query::SystemEvents => prefix_of("System".spec_bytes(), "Events".spec_bytes()),
            Query::Account(who) => keyed_address_of(
                "System".spec_bytes(),
                "Account".spec_bytes(),
                who@,
                KeyHasher::Blake2_128Concat,
            ),
        }
    }

    /// The storage address to read for this entry.
    pub fn storage_key(&self) -> (key: StorageKey)
        ensures
            key@ == self.address(),
    {
        let module = "ElectionProviderMultiPhase".as_bytes();
        match self {
            Query::CurrentPhase => storage_value(module, "CurrentPhase".as_bytes()),
            Query::SubmissionIndices => storage_value(module, "SignedSubmissionIndices".as_bytes()),
            Query::Submission(index) => {
                let encoded = encode_index(*index);
                storage_value_by_key(
                    module,
                    "SignedSubmissionsMap".as_bytes(),
                    encoded.as_slice(),
                    KeyHasher::Twox64Concat,
                )
            },
            Query::QueuedSolution => storage_value(module, "QueuedSolution".as_bytes()),
            Query::SystemEvents => system_events_key(),
            Query::Account(who) => storage_value_by_key(
                "System".as_bytes(),
                "Account".as_bytes(),
                who.0.as_slice(),
                KeyHasher::Blake2_128Concat,
            ),
        }
    }
}

/// Every queued submission has an address of its own: two indices whose
/// records lie at the same address are the same index.
pub proof fn lemma_submissions_lie_apart(a: u32, b: u32)
    requires
        Query::Submission(a).address() == Query::Submission(b).address(),
    ensures
        a == b,
{
    lemma_keyed_address_injective(
        election_module(),
        "SignedSubmissionsMap".spec_bytes(),
        le_bytes(a),
        le_bytes(b),
        KeyHasher::Twox64Concat,
    );
    lemma_le_bytes_round_trip(a);
    lemma_le_bytes_round_trip(b);
}

/// Judges the phase read at a block: signed solutions are accepted only in
/// the signed phase.
pub fn ensure_signed_phase(read: Result<Option<Phase>, RpcFailure>) -> (verdict: Result<(), Error>)
    ensures
        verdict is Ok <==> read == Ok::<Option<Phase>, RpcFailure>(Some(Phase::Signed)),
        verdict == signed_phase_verdict(read),
{
    match read {
        Err(failure) => Err(Error::Rpc(failure)),
        Ok(None) => Err(Error::IncorrectPhase),
        Ok(Some(phase)) => if phase.is_signed() {
            Ok(())
        } else {
            Err(Error::IncorrectPhase)
        },
    }
}

/// What a read of the phase means: a failed read is passed on, and any phase
/// but the signed one, the default `Off` of an absent entry too, is the
/// wrong phase.
pub open spec fn signed_phase_verdict(read: Result<Option<Phase>, RpcFailure>) -> Result<
    (),
    Error,
> {
    match read {
        Err(failure) => Err(Error::Rpc(failure)),
        Ok(phase) => if Phase::or_default(phase) == Phase::Signed {
            Ok(())
        } else {
            Err(Error::IncorrectPhase)
        },
    }
}

/// Whether the leadership check under `strategy` needs the best score of the
/// chain at all.
pub fn reads_best_score(strategy: SubmissionStrategy) -> (needed: bool)
    ensures
        needed == (strategy == SubmissionStrategy::OnlySubmitIfLeading),
{
    match strategy {
        SubmissionStrategy::AlwaysSubmit => false,
        SubmissionStrategy::OnlySubmitIfLeading => true,
    }
}

/// What a read of the best solution means for a mined `score`. Under
/// `AlwaysSubmit` nothing stands in the way, whatever was read; else a failed
/// read is passed on and a score that is not acceptable is turned down.
pub open spec fn better_solution_verdict(
    score: ElectionScore,
    read: Result<Option<ElectionScore>, RpcFailure>,
    strategy: SubmissionStrategy,
) -> Result<(), Error> {
    match strategy {
        SubmissionStrategy::AlwaysSubmit => Ok(()),
        SubmissionStrategy::OnlySubmitIfLeading => match read {
            Err(failure) => Err(Error::Rpc(failure)),
            Ok(best) => if acceptable(score, best, strategy) {
                Ok(())
            } else {
                Err(Error::AlreadyExistSolutionWithBetterScore)
            },
        },
    }
}

/// Judges a mined `score` against the best solution read at a block.
pub fn ensure_no_better_solution(
    score: ElectionScore,
    read: Result<Option<ElectionScore>, RpcFailure>,
    strategy: SubmissionStrategy,
) -> (verdict: Result<(), Error>)
    ensures
        verdict == better_solution_verdict(score, read, strategy),
        read is Ok ==> (verdict is Ok <==> acceptable(score, read->Ok_0, strategy)),
{
    match strategy {
        SubmissionStrategy::AlwaysSubmit => Ok(()),
        SubmissionStrategy::OnlySubmitIfLeading => match read {
            Err(failure) => Err(Error::Rpc(failure)),
            Ok(best) => if is_acceptable(score, best, strategy) {
                Ok(())
            } else {
                Err(Error::AlreadyExistSolutionWithBetterScore)
            },
        },
    }
}

} // verus!

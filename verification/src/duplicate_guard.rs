//! The duplicate guard: has this signer a solution in the queue already?
//!
//! The queue is read in two steps: first the list of indices, then the
//! record behind each index, one read per record. The scan says which record
//! to read next and stops at the first one that the signer submitted, so a
//! match costs no more reads than its place in the list.

use vstd::prelude::*;
use crate::chain_state::SubmissionRecord;
use crate::error::{Error, RpcFailure};
use crate::primitives::AccountId;

verus! {

/// What the scan asks for next.
#[derive(Clone, Copy, Debug, PartialEq, Eq)]
pub enum ScanAction {
    /// Read the record with this index and hand it to `on_record`.
    Resolve(u32),
    /// The scan is over: `Ok` where the signer has nothing queued.
    Done(Result<(), Error>),
}

/// What a read of one record of the queue gave.
pub type RecordRead = Result<Option<SubmissionRecord>, RpcFailure>;

/// The indices read, as a sequence.
pub open spec fn indices_read(read: Result<Option<Vec<u32>>, RpcFailure>) -> Result<
    Option<Seq<u32>>,
    RpcFailure,
> {
    match read {
        Ok(Some(indices)) => Ok(Some(indices@)),
        Ok(None) => Ok(None),
        Err(failure) => Err(failure),
    }
}

/// Whether the record read is a submission of `us`.
pub open spec fn submitted_by(read: RecordRead, us: AccountId) -> bool {
    read matches Ok(Some(record)) && record.who == us
}

/// The scan as a value: the indices of the queue in the order in which they
/// are tried, how many records have been asked for, and the verdict once
/// there is one.
pub struct ScanView {
    pub indices: Seq<u32>,
    pub examined: nat,
    pub verdict: Option<Result<(), Error>>,
}

impl ScanView {
    /// While the scan runs, one record is asked for and no verdict is known.
    pub open spec fn wf(self) -> bool {
        &&& self.examined <= self.indices.len()
        &&& self.verdict is None ==> self.examined >= 1
    }

    /// The scan of a queue whose indices were read as `read`. A failed read
    /// ends it with that failure, an absent or empty list with `Ok`; else the
    /// first record is asked for.
    pub open spec fn start(read: Result<Option<Seq<u32>>, RpcFailure>) -> ScanView {
        match read {
            Err(failure) => ScanView {
                indices: Seq::empty(),
                examined: 0,
                verdict: Some(Err(Error::Rpc(failure))),
            },
            Ok(None) => ScanView { indices: Seq::empty(), examined: 0, verdict: Some(Ok(())) },
            Ok(Some(indices)) => if indices.len() == 0 {
                ScanView { indices, examined: 0, verdict: Some(Ok(())) }
            } else {
                ScanView { indices, examined: 1, verdict: None }
            },
        }
    }

    /// The scan after the record asked for was read as `read`. A failed read
    /// ends it with that failure, a record of `us` with `AlreadySubmitted`;
    /// else the next record is asked for, or the scan ends with `Ok` when
    /// none is left. A scan that is over stays as it is.
    pub open spec fn on_record(self, read: RecordRead, us: AccountId) -> ScanView {
        if self.verdict is Some {
            self
        } else if read is Err {
            ScanView { verdict: Some(Err(Error::Rpc(read->Err_0))), ..self }
        } else if submitted_by(read, us) {
            ScanView { verdict: Some(Err(Error::AlreadySubmitted)), ..self }
        } else if self.examined < self.indices.len() {
            ScanView { examined: self.examined + 1, ..self }
        } else {
            ScanView { verdict: Some(Ok(())), ..self }
        }
    }

    /// What the scan asks for in this state.
    pub open spec fn action(self) -> ScanAction {
        match self.verdict {
            Some(verdict) => ScanAction::Done(verdict),
            None => ScanAction::Resolve(self.indices[self.examined - 1]),
        }
    }

    /// The scan after the records were read as `reads`, one after the other.
    pub open spec fn run(self, reads: Seq<RecordRead>, us: AccountId) -> ScanView
        decreases reads.len(),
    {
        if reads.len() == 0 {
            self
        } else {
            self.on_record(reads[0], us).run(reads.drop_first(), us)
        }
    }
}

/// The progress of the duplicate guard through the queue.
#[derive(Debug)]
pub struct DuplicateScan {
    indices: Vec<u32>,
    examined: usize,
    verdict: Option<Result<(), Error>>,
}

impl View for DuplicateScan {
    type V = ScanView;

    closed spec fn view(&self) -> ScanView {
        ScanView { indices: self.indices@, examined: self.examined as nat, verdict: self.verdict }
    }
}

impl DuplicateScan {
    #[verifier::type_invariant]
    spec fn well_formed(self) -> bool {
        self@.wf()
    }

    /// Starts the scan from the list of indices read at a block, given in the
    /// order of the queue.
    pub fn start(read: Result<Option<Vec<u32>>, RpcFailure>) -> (started: (DuplicateScan, ScanAction))
        ensures
            started.0@ == ScanView::start(indices_read(read)),
            started.0@.wf(),
            started.1 == started.0@.action(),
    {
        match read {
            Err(failure) => (
                DuplicateScan {
                    indices: Vec::new(),
                    examined: 0,
                    verdict: Some(Err(Error::Rpc(failure))),
                },
                ScanAction::Done(Err(Error::Rpc(failure))),
            ),
            Ok(None) => (
                DuplicateScan { indices: Vec::new(), examined: 0, verdict: Some(Ok(())) },
                ScanAction::Done(Ok(())),
            ),
            Ok(Some(indices)) => {
                if indices.len() == 0 {
                    (
                        DuplicateScan { indices, examined: 0, verdict: Some(Ok(())) },
                        ScanAction::Done(Ok(())),
                    )
                } else {
                    let first = indices[0];
                    (DuplicateScan { indices, examined: 1, verdict: None }, ScanAction::Resolve(first))
                }
            },
        }
    }

    /// Takes the record that was asked for, as read at the same block, and
    /// says what to do next.
    pub fn on_record(&mut self, read: RecordRead, us: &AccountId) -> (action: ScanAction)
        ensures
            final(self)@ == old(self)@.on_record(read, *us),
            final(self)@.wf(),
            action == final(self)@.action(),
    {
        proof {
            use_type_invariant(&*self);
        }
        if let Some(verdict) = self.verdict {
            return ScanAction::Done(verdict);
        }
        let verdict = match read {
            Err(failure) => Some(Err(Error::Rpc(failure))),
            Ok(Some(record)) => if record.who.same_as(us) {
                Some(Err(Error::AlreadySubmitted))
            } else {
                None
            },
            Ok(None) => None,
        };
        match verdict {
            Some(verdict) => {
                self.verdict = Some(verdict);
                ScanAction::Done(verdict)
            },
            None => {
                if self.examined < self.indices.len() {
                    let next = self.indices[self.examined];
                    self.examined = self.examined + 1;
                    ScanAction::Resolve(next)
                } else {
                    self.verdict = Some(Ok(()));
                    ScanAction::Done(Ok(()))
                }
            },
        }
    }

    /// What the scan asks for in its present state.
    pub fn action(&self) -> (action: ScanAction)
        ensures
            action == self@.action(),
    {
        proof {
            use_type_invariant(self);
        }
        match self.verdict {
            Some(verdict) => ScanAction::Done(verdict),
            None => ScanAction::Resolve(self.indices[self.examined - 1]),
        }
    }

    /// The verdict, once the scan is over.
    pub fn verdict(&self) -> (verdict: Option<Result<(), Error>>)
        ensures
            verdict == self@.verdict,
            self@.wf(),
    {
        proof {
            use_type_invariant(self);
        }
        self.verdict
    }

    /// How many records have been asked for.
    pub fn examined(&self) -> (examined: usize)
        ensures
            examined == self@.examined,
    {
        self.examined
    }
}

/// Whether the record read ends the scan: a failed read, or a submission of
/// `us`.
pub open spec fn ends_scan(read: RecordRead, us: AccountId) -> bool {
    read is Err || submitted_by(read, us)
}

/// The verdict that a read which ends the scan brings.
pub open spec fn verdict_of(read: RecordRead) -> Result<(), Error> {
    match read {
        Err(failure) => Err(Error::Rpc(failure)),
        Ok(_) => Err(Error::AlreadySubmitted),
    }
}

/// A scan starts well formed and stays so with every record.
pub proof fn lemma_scan_stays_well_formed(
    indices: Result<Option<Seq<u32>>, RpcFailure>,
    scan: ScanView,
    read: RecordRead,
    us: AccountId,
)
    ensures
        ScanView::start(indices).wf(),
        scan.wf() ==> scan.on_record(read, us).wf(),
{
}

/// A scan that is over takes no notice of further records.
pub proof fn lemma_finished_scan_stays(scan: ScanView, reads: Seq<RecordRead>, us: AccountId)
    requires
        scan.verdict is Some,
    ensures
        scan.run(reads, us) == scan,
    decreases reads.len(),
{
    if reads.len() > 0 {
        lemma_finished_scan_stays(scan, reads.drop_first(), us);
    }
}

/// From a running scan that has the rest of the queue before it: the scan
/// ends at the first read that ends it, having asked for no record after that
/// one.
proof fn lemma_running_scan_stops(scan: ScanView, reads: Seq<RecordRead>, us: AccountId, k: int)
    requires
        scan.wf(),
        scan.verdict is None,
        reads.len() == scan.indices.len() - scan.examined + 1,
        0 <= k < reads.len(),
        ends_scan(reads[k], us),
        forall|j: int| 0 <= j < k ==> !ends_scan(#[trigger] reads[j], us),
    ensures
        scan.run(reads, us).verdict == Some(verdict_of(reads[k])),
        scan.run(reads, us).examined == scan.examined + k,
        scan.run(reads, us).indices == scan.indices,
    decreases reads.len(),
{
    let next = scan.on_record(reads[0], us);
    let rest = reads.drop_first();
    if k == 0 {
        lemma_finished_scan_stays(next, rest, us);
    } else {
        assert(!ends_scan(reads[0], us));
        assert forall|j: int| 0 <= j < k - 1 implies !ends_scan(#[trigger] rest[j], us) by {
            assert(rest[j] == reads[j + 1]);
        }
        assert(rest[k - 1] == reads[k]);
        lemma_running_scan_stops(next, rest, us, k - 1);
    }
}

/// From a running scan that has the rest of the queue before it: where no
/// read ends the scan, it ends with `Ok` when every record was asked for.
proof fn lemma_running_scan_passes(scan: ScanView, reads: Seq<RecordRead>, us: AccountId)
    requires
        scan.wf(),
        scan.verdict is None,
        reads.len() == scan.indices.len() - scan.examined + 1,
        forall|j: int| 0 <= j < reads.len() ==> !ends_scan(#[trigger] reads[j], us),
    ensures
        scan.run(reads, us).verdict == Some(Ok::<(), Error>(())),
        scan.run(reads, us).examined == scan.indices.len(),
    decreases reads.len(),
{
    let next = scan.on_record(reads[0], us);
    let rest = reads.drop_first();
    assert(!ends_scan(reads[0], us));
    if scan.examined < scan.indices.len() {
        assert forall|j: int| 0 <= j < rest.len() implies !ends_scan(#[trigger] rest[j], us) by {
            assert(rest[j] == reads[j + 1]);
        }
        lemma_running_scan_passes(next, rest, us);
    } else {
        lemma_finished_scan_stays(next, rest, us);
    }
}

/// Of a queue whose record `k` is the first that `us` submitted, or the first
/// whose read fails: the scan ends there, with `AlreadySubmitted` or with the
/// failure, after it asked for `k + 1` records, which is no more than the
/// queue holds.
pub proof fn lemma_scan_stops_at_first_match(
    indices: Seq<u32>,
    records: Seq<RecordRead>,
    us: AccountId,
    k: int,
)
    requires
        records.len() == indices.len(),
        0 <= k < records.len(),
        ends_scan(records[k], us),
        forall|j: int| 0 <= j < k ==> !ends_scan(#[trigger] records[j], us),
    ensures
        ScanView::start(Ok(Some(indices))).run(records, us).verdict == Some(
            verdict_of(records[k]),
        ),
        ScanView::start(Ok(Some(indices))).run(records, us).examined == k + 1,
        k + 1 <= indices.len(),
{
    lemma_running_scan_stops(ScanView::start(Ok(Some(indices))), records, us, k);
}

/// Of a queue none of whose records `us` submitted, all of them read without
/// failure: the scan ends with `Ok`, after it asked for every record.
pub proof fn lemma_scan_passes_without_match(
    indices: Seq<u32>,
    records: Seq<RecordRead>,
    us: AccountId,
)
    requires
        records.len() == indices.len(),
        forall|j: int| 0 <= j < records.len() ==> !ends_scan(#[trigger] records[j], us),
    ensures
        ScanView::start(Ok(Some(indices))).run(records, us).verdict == Some(Ok::<(), Error>(())),
        ScanView::start(Ok(Some(indices))).run(records, us).examined == indices.len(),
{
    if indices.len() > 0 {
        lemma_running_scan_passes(ScanView::start(Ok(Some(indices))), records, us);
    }
}

} // verus!

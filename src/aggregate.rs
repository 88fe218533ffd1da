//! The status aggregator: a download's status and progress, derived from the
//! statuses of its chunks alone.
use vstd::prelude::*;

use crate::files::DownloadStatus;
use crate::storage::{Chunk, DownloadRecord};

verus! {

/// A chunk not yet settled: waiting, or being fetched.
pub open spec fn is_open(s: DownloadStatus) -> bool {
    s == DownloadStatus::Pending || s == DownloadStatus::InProgress
}

/// A chunk whose fetch did not succeed.
pub open spec fn is_failed(s: DownloadStatus) -> bool {
    s == DownloadStatus::Failed || s == DownloadStatus::Cancelled
}

pub open spec fn pending_in(chunks: Seq<Chunk>) -> nat
    decreases chunks.len(),
{
    if chunks.len() == 0 {
        0
    } else {
        pending_in(chunks.drop_last()) + if is_open(chunks.last().status) {
            1nat
        } else {
            0nat
        }
    }
}

pub open spec fn finished_in(chunks: Seq<Chunk>) -> nat
    decreases chunks.len(),
{
    if chunks.len() == 0 {
        0
    } else {
        finished_in(chunks.drop_last()) + if chunks.last().status == DownloadStatus::Finished {
            1nat
        } else {
            0nat
        }
    }
}

pub open spec fn failed_in(chunks: Seq<Chunk>) -> nat
    decreases chunks.len(),
{
    if chunks.len() == 0 {
        0
    } else {
        failed_in(chunks.drop_last()) + if is_failed(chunks.last().status) {
            1nat
        } else {
            0nat
        }
    }
}

/// The overall status: any failed chunk makes the download failed; otherwise
/// it is finished once no chunk is open, and pending before.
pub open spec fn overall_status(pending: nat, failed: nat) -> DownloadStatus {
    if failed > 0 {
        DownloadStatus::Failed
    } else if pending == 0 {
        DownloadStatus::Finished
    } else {
        DownloadStatus::Pending
    }
}

/// `finished / total` in hundredths of a percent, rounded down; a download
/// with no chunks has nothing left to do and stands at 100%.
pub open spec fn basis_points(finished: nat, total: nat) -> nat {
    if total == 0 {
        10000
    } else {
        finished * 10000 / total
    }
}

pub open spec fn aggregate_status(chunks: Seq<Chunk>) -> DownloadStatus {
    overall_status(pending_in(chunks), failed_in(chunks))
}

pub open spec fn aggregate_basis_points(chunks: Seq<Chunk>) -> nat {
    basis_points(finished_in(chunks), chunks.len())
}

/// How many chunks of a download are open, finished and failed.
#[derive(Clone, Copy, Debug, PartialEq, Eq, Structural)]
pub struct ChunkCounts {
    pub pending: u64,
    pub finished: u64,
    pub failed: u64,
}

proof fn lemma_counts_partition(chunks: Seq<Chunk>)
    ensures
        pending_in(chunks) + finished_in(chunks) + failed_in(chunks) == chunks.len(),
    decreases chunks.len(),
{
    if chunks.len() > 0 {
        lemma_counts_partition(chunks.drop_last());
    }
}

impl ChunkCounts {
    /// Counts the chunks by status: `Pending` and `InProgress` are open,
    /// `Failed` and `Cancelled` failed.
    pub fn of(chunks: &Vec<Chunk>) -> (r: ChunkCounts)
        ensures
            r.pending == pending_in(chunks@),
            r.finished == finished_in(chunks@),
            r.failed == failed_in(chunks@),
    {
        let mut r = ChunkCounts { pending: 0, finished: 0, failed: 0 };
        let mut i: usize = 0;
        while i < chunks.len()
            invariant
                i <= chunks@.len(),
                r.pending == pending_in(chunks@.subrange(0, i as int)),
                r.finished == finished_in(chunks@.subrange(0, i as int)),
                r.failed == failed_in(chunks@.subrange(0, i as int)),
            decreases chunks@.len() - i,
        {
            let ghost prefix = chunks@.subrange(0, i + 1);
            assert(prefix.drop_last() =~= chunks@.subrange(0, i as int));
            proof {
                lemma_counts_partition(chunks@.subrange(0, i as int));
            }
            match chunks[i].status {
                DownloadStatus::Pending | DownloadStatus::InProgress => {
                    r.pending = r.pending + 1;
                },
                DownloadStatus::Finished => {
                    r.finished = r.finished + 1;
                },
                DownloadStatus::Failed | DownloadStatus::Cancelled => {
                    r.failed = r.failed + 1;
                },
            }
            i += 1;
        }
        assert(chunks@.subrange(0, chunks@.len() as int) =~= chunks@);
        r
    }

    /// The total number of chunks counted.
    pub open spec fn total(&self) -> nat {
        (self.pending + self.finished + self.failed) as nat
    }

    /// The overall status that these counts give.
    pub fn status(&self) -> (r: DownloadStatus)
        ensures
            r == overall_status(self.pending as nat, self.failed as nat),
    {
        if self.failed > 0 {
            DownloadStatus::Failed
        } else if self.pending == 0 {
            DownloadStatus::Finished
        } else {
            DownloadStatus::Pending
        }
    }

    /// The share of finished chunks in hundredths of a percent.
    pub fn basis_points(&self) -> (r: u64)
        ensures
            r == basis_points(self.finished as nat, self.total()),
            r <= 10000,
    {
        let total: u128 = self.pending as u128 + self.finished as u128 + self.failed as u128;
        if total == 0 {
            10000
        } else {
            let scaled: u128 = self.finished as u128 * 10000;
            assert(scaled / total <= 10000) by (nonlinear_arith)
                requires
                    scaled == self.finished as u128 * 10000,
                    self.finished as u128 <= total,
                    total > 0,
            ;
            (scaled / total) as u64
        }
    }
}

/// `record` as a listing shows it: its status and progress recomputed from
/// `chunks`, whatever status the store held for it.
pub open spec fn annotated(record: DownloadRecord, chunks: Seq<Chunk>) -> DownloadRecord {
    DownloadRecord {
        download_status: aggregate_status(chunks),
        downloaded_basis_points: aggregate_basis_points(chunks) as u64,
        ..record
    }
}

/// Sets the status and progress of `record` from the statuses of its chunks.
pub fn annotate_record(record: DownloadRecord, chunks: &Vec<Chunk>) -> (r: DownloadRecord)
    ensures
        r == annotated(record, chunks@),
        r.downloaded_basis_points <= 10000,
{
    let counts = ChunkCounts::of(chunks);
    proof {
        lemma_counts_partition(chunks@);
    }
    let status = counts.status();
    let basis_points = counts.basis_points();
    DownloadRecord { download_status: status, downloaded_basis_points: basis_points, ..record }
}

proof fn lemma_all_finished_counts(chunks: Seq<Chunk>)
    requires
        forall|i: int| 0 <= i < chunks.len() ==> #[trigger] chunks[i].status == DownloadStatus::Finished,
    ensures
        pending_in(chunks) == 0,
        failed_in(chunks) == 0,
        finished_in(chunks) == chunks.len(),
    decreases chunks.len(),
{
    if chunks.len() > 0 {
        let rest = chunks.drop_last();
        assert forall|i: int| 0 <= i < rest.len() implies #[trigger] rest[i].status
            == DownloadStatus::Finished by {
            assert(rest[i] == chunks[i]);
        }
        lemma_all_finished_counts(rest);
        assert(chunks.last() == chunks[chunks.len() - 1]);
    }
}

proof fn lemma_failed_counted(chunks: Seq<Chunk>, k: int)
    requires
        0 <= k < chunks.len(),
        is_failed(chunks[k].status),
    ensures
        failed_in(chunks) > 0,
    decreases chunks.len(),
{
    if k < chunks.len() - 1 {
        lemma_failed_counted(chunks.drop_last(), k);
    }
}

/// A download whose chunks have all finished is finished and stands at 100%,
/// whatever status was stored for it.
pub proof fn lemma_all_finished(record: DownloadRecord, chunks: Seq<Chunk>)
    requires
        forall|i: int| 0 <= i < chunks.len() ==> #[trigger] chunks[i].status == DownloadStatus::Finished,
    ensures
        annotated(record, chunks).download_status == DownloadStatus::Finished,
        annotated(record, chunks).downloaded_basis_points == 10000,
{
    lemma_all_finished_counts(chunks);
    let n = chunks.len();
    if n > 0 {
        assert(n * 10000 / n == 10000) by (nonlinear_arith)
            requires
                n > 0,
        ;
    }
}

/// A download with a failed chunk is failed, whatever the other chunks are
/// (in particular when all the others have finished).
pub proof fn lemma_failed_chunk(record: DownloadRecord, chunks: Seq<Chunk>, k: int)
    requires
        0 <= k < chunks.len(),
        chunks[k].status == DownloadStatus::Failed,
    ensures
        annotated(record, chunks).download_status == DownloadStatus::Failed,
{
    lemma_failed_counted(chunks, k);
}

} // verus!

//! Values that pruning takes and gives: checkpoints, progress, ranges and errors.

use vstd::prelude::*;

verus! {

/// How much of a segment's history is pruned.
#[derive(Debug, Clone, Copy, PartialEq, Eq, Structural)]
pub enum PruneMode {
    /// Prune all blocks.
    Full,
    /// Prune blocks before the tip minus this number of blocks.
    Distance(u64),
    /// Prune blocks before this block number.
    Before(u64),
}

/// A segment whose pruning has a checkpoint of its own.
#[derive(Debug, Clone, Copy, PartialEq, Eq, Structural)]
pub enum PruneSegment {
    /// All receipts.
    Receipts,
    /// Receipts filtered by the contracts that logged in them.
    ContractLogs,
}

/// Up to where a segment has been pruned.
#[derive(Debug, Clone, Copy, PartialEq, Eq)]
pub struct PruneCheckpoint {
    /// Highest pruned block, if any block is pruned whole.
    pub block_number: Option<u64>,
    /// Highest pruned transaction.
    pub tx_number: Option<u64>,
    /// The mode that the segment was pruned with.
    pub prune_mode: PruneMode,
}

/// Why a run stopped before everything was pruned.
#[derive(Debug, Clone, Copy, PartialEq, Eq, Structural)]
pub enum PruneInterruptReason {
    /// The run timed out.
    Timeout,
    /// The limit on deleted rows was reached.
    DeletedEntriesLimitReached,
    /// Any other reason.
    Unknown,
}

/// Whether a run has pruned everything that it was asked to.
#[derive(Debug, Clone, Copy, PartialEq, Eq, Structural)]
pub enum PruneProgress {
    /// There is more data to prune.
    HasMoreData(PruneInterruptReason),
    /// Everything is pruned.
    Finished,
}

impl PruneProgress {
    /// Whether everything is pruned.
    pub fn is_finished(&self) -> (r: bool)
        ensures
            r == (*self is Finished),
    {
        match self {
            PruneProgress::Finished => true,
            PruneProgress::HasMoreData(_) => false,
        }
    }
}

/// Up to where a run has pruned a segment.
#[derive(Debug, Clone, Copy, PartialEq, Eq)]
pub struct SegmentOutputCheckpoint {
    /// Highest pruned block, if any block is pruned whole.
    pub block_number: Option<u64>,
    /// Highest pruned transaction.
    pub tx_number: Option<u64>,
}

impl SegmentOutputCheckpoint {
    /// The checkpoint to store for a segment that is pruned with `prune_mode`.
    pub open spec fn stored_with(self, prune_mode: PruneMode) -> PruneCheckpoint {
        PruneCheckpoint {
            block_number: self.block_number,
            tx_number: self.tx_number,
            prune_mode,
        }
    }

    /// The checkpoint to store for a segment that is pruned with `prune_mode`.
    pub fn as_prune_checkpoint(&self, prune_mode: PruneMode) -> (r: PruneCheckpoint)
        ensures
            r.block_number == self.block_number,
            r.tx_number == self.tx_number,
            r.prune_mode == prune_mode,
            r == self.stored_with(prune_mode),
    {
        PruneCheckpoint {
            block_number: self.block_number,
            tx_number: self.tx_number,
            prune_mode,
        }
    }
}

/// What a run over a segment reports.
#[derive(Debug, Clone, Copy, PartialEq, Eq)]
pub struct SegmentOutput {
    /// Whether the run is through.
    pub progress: PruneProgress,
    /// Number of rows deleted.
    pub pruned: usize,
    /// Where the next run goes on, if this one pruned anything.
    pub checkpoint: Option<SegmentOutputCheckpoint>,
}

impl SegmentOutput {
    /// The report of a run that found nothing to prune.
    pub open spec fn nothing_to_prune() -> SegmentOutput {
        SegmentOutput { progress: PruneProgress::Finished, pruned: 0, checkpoint: None }
    }

    /// The report of a run that found nothing to prune.
    pub fn done() -> (r: Self)
        ensures
            r.progress is Finished,
            r.pruned == 0,
            r.checkpoint is None,
            r == SegmentOutput::nothing_to_prune(),
    {
        SegmentOutput { progress: PruneProgress::Finished, pruned: 0, checkpoint: None }
    }
}

/// An inclusive range of transaction numbers.
#[derive(Debug, Clone, Copy, PartialEq, Eq, Structural)]
pub struct TxRange {
    pub start: u64,
    pub end: u64,
}

/// What deleting the rows of a range from a table came to.
#[derive(Debug, Clone, Copy, PartialEq, Eq)]
pub struct PrunedRows {
    /// Number of rows deleted.
    pub pruned: usize,
    /// Whether the deletion came to the end of the range. A limit that is reached at the last row
    /// stops it before that, though no row is left then.
    pub done: bool,
    /// Transaction number of the row deleted last, if any was deleted.
    pub last_row: Option<u64>,
}

/// What a run over a segment starts from. `L` is the limiter that bounds the run.
#[derive(Debug)]
pub struct PruneInput<L> {
    /// Up to where earlier runs have pruned the segment.
    pub previous_checkpoint: Option<PruneCheckpoint>,
    /// Block up to which the segment is to be pruned, inclusive.
    pub to_block: u64,
    /// Limits what one run deletes.
    pub limiter: L,
}

/// Why a run failed. `P` is the error of the block provider, `D` that of the database.
#[derive(Debug, PartialEq, Eq)]
pub enum PrunerError<P, D> {
    /// The stored data contradicts itself.
    InconsistentData(&'static str),
    /// The block provider failed.
    Provider(P),
    /// The database failed.
    Database(D),
}

} // verus!

//! Common receipts pruning logic.

use crate::prune_types::{
    PruneCheckpoint, PruneInput, PruneInterruptReason, PruneMode, PruneProgress, PruneSegment,
    PrunedRows, PrunerError, SegmentOutput, SegmentOutputCheckpoint, TxRange,
};
use vstd::prelude::*;

verus! {

/// Whether the checkpoint `previous` has not reached block `start`.
pub open spec fn lags_behind(previous: Option<PruneCheckpoint>, start: u64) -> bool {
    match previous {
        None => true,
        Some(checkpoint) => match checkpoint.block_number {
            None => true,
            Some(block) => block < start,
        },
    }
}

/// The block before `start`, or the first one.
pub open spec fn block_before(start: u64) -> u64 {
    if start == 0 {
        0
    } else {
        (start - 1) as u64
    }
}

/// The block that pruning goes on after instead of `previous`, when the lowest static file of
/// receipts begins at block `lowest_start` and `previous` lags behind it.
pub open spec fn anchor_block(
    previous: Option<PruneCheckpoint>,
    lowest_start: Option<u64>,
) -> Option<u64> {
    match lowest_start {
        Some(start) if lags_behind(previous, start) => Some(block_before(start)),
        _ => None,
    }
}

/// The checkpoint at `block`, whose last transaction is `last_tx`, in the mode of `previous`.
pub open spec fn anchored_at(
    previous: Option<PruneCheckpoint>,
    block: u64,
    last_tx: u64,
) -> PruneCheckpoint {
    PruneCheckpoint {
        block_number: Some(block),
        tx_number: Some(last_tx),
        prune_mode: match previous {
            Some(checkpoint) => checkpoint.prune_mode,
            None => PruneMode::Full,
        },
    }
}

/// The checkpoint that a run goes on from, when `last_tx` is the last transaction of the anchor
/// block, if that block is known.
pub open spec fn starting_checkpoint(
    previous: Option<PruneCheckpoint>,
    lowest_start: Option<u64>,
    last_tx: Option<u64>,
) -> Option<PruneCheckpoint> {
    match (anchor_block(previous, lowest_start), last_tx) {
        (Some(block), Some(tx)) => Some(anchored_at(previous, block, tx)),
        _ => previous,
    }
}

/// `input` with the checkpoint that the run goes on from.
pub open spec fn starting_input<L>(
    input: PruneInput<L>,
    lowest_start: Option<u64>,
    last_tx: Option<u64>,
) -> PruneInput<L> {
    PruneInput {
        previous_checkpoint: starting_checkpoint(input.previous_checkpoint, lowest_start, last_tx),
        to_block: input.to_block,
        limiter: input.limiter,
    }
}

/// The highest transaction that a run over `range` counts as pruned.
pub open spec fn last_pruned(range: TxRange, rows: PrunedRows) -> u64 {
    match rows.last_row {
        Some(tx) => tx,
        None => range.end,
    }
}

/// The highest block that a run counts as pruned when its last transaction is in `block`: a run
/// that has more to do takes the block before, if there is one.
pub open spec fn last_whole_block(block: u64, done: bool) -> Option<u64> {
    if done {
        Some(block)
    } else if block == 0 {
        None
    } else {
        Some((block - 1) as u64)
    }
}

/// What a run reports that deleted `rows` of `range` and found its last transaction in `block`.
pub open spec fn report(
    range: TxRange,
    rows: PrunedRows,
    block: u64,
    reason: PruneInterruptReason,
) -> SegmentOutput {
    SegmentOutput {
        progress: if rows.done {
            PruneProgress::Finished
        } else {
            PruneProgress::HasMoreData(reason)
        },
        pruned: rows.pruned,
        checkpoint: Some(
            SegmentOutputCheckpoint {
                block_number: last_whole_block(block, rows.done),
                tx_number: Some(last_pruned(range, rows)),
            },
        ),
    }
}

/// Says from where pruning has to go on, if the receipts below the lowest static file are gone.
///
/// It is not possible to prune receipts for which there is no receipt data. If the checkpoint
/// lags behind the lowest static file, which can happen when history is dropped and receipt
/// pruning is enabled later, then only what that file holds can be pruned.
pub fn static_file_anchor(
    previous: Option<PruneCheckpoint>,
    lowest_start: Option<u64>,
) -> (r: Option<u64>)
    ensures
        lowest_start is None ==> r is None,
        lowest_start matches Some(start) ==> (r is None <==> (previous matches Some(checkpoint)
            && checkpoint.block_number matches Some(block) && start <= block)),
        r matches Some(block) ==> lowest_start == Some((block + 1) as u64) && block < u64::MAX || (
        block == 0 && lowest_start == Some(0u64)),
        r == anchor_block(previous, lowest_start),
{
    let start: u64 = match lowest_start {
        Some(start) => start,
        None => return None,
    };
    let lags = match previous {
        None => true,
        Some(checkpoint) => match checkpoint.block_number {
            None => true,
            Some(block) => block < start,
        },
    };
    if lags {
        Some(start.saturating_sub(1))
    } else {
        None
    }
}

/// Sets the checkpoint of `input` to `block`, whose last transaction is `last_tx`.
pub fn anchor_input<L>(input: PruneInput<L>, block: u64, last_tx: u64) -> (r: PruneInput<L>)
    ensures
        r.previous_checkpoint matches Some(checkpoint) && {
            &&& checkpoint.block_number == Some(block)
            &&& checkpoint.tx_number == Some(last_tx)
            &&& input.previous_checkpoint matches Some(previous) ==> checkpoint.prune_mode
                == previous.prune_mode
            &&& input.previous_checkpoint is None ==> checkpoint.prune_mode == PruneMode::Full
        },
        r.previous_checkpoint == Some(anchored_at(input.previous_checkpoint, block, last_tx)),
        r.to_block == input.to_block,
        r.limiter == input.limiter,
{
    let prune_mode = match input.previous_checkpoint {
        Some(checkpoint) => checkpoint.prune_mode,
        None => PruneMode::Full,
    };
    PruneInput {
        previous_checkpoint: Some(
            PruneCheckpoint { block_number: Some(block), tx_number: Some(last_tx), prune_mode },
        ),
        to_block: input.to_block,
        limiter: input.limiter,
    }
}

/// The highest transaction that counts as pruned: that of the row deleted last, or the end of
/// the range where no row was deleted.
pub fn last_pruned_transaction(range: TxRange, rows: &PrunedRows) -> (r: u64)
    ensures
        rows.last_row matches Some(tx) ==> r == tx,
        rows.last_row is None ==> r == range.end,
        r == last_pruned(range, *rows),
{
    match rows.last_row {
        Some(tx) => tx,
        None => range.end,
    }
}

/// Reports a run that deleted `rows` of `range` and found its last transaction in `block`.
///
/// If there is more to prune, the reported block is the one before, so that the next run can
/// finish it.
pub fn segment_output(
    range: TxRange,
    rows: PrunedRows,
    block: u64,
    reason: PruneInterruptReason,
) -> (r: SegmentOutput)
    ensures
        r.pruned == rows.pruned,
        rows.done ==> r.progress is Finished,
        !rows.done ==> r.progress == PruneProgress::HasMoreData(reason),
        r.checkpoint matches Some(checkpoint) && {
            &&& rows.last_row matches Some(tx) ==> checkpoint.tx_number == Some(tx)
            &&& rows.last_row is None ==> checkpoint.tx_number == Some(range.end)
            &&& rows.done ==> checkpoint.block_number == Some(block)
            &&& !rows.done ==> match checkpoint.block_number {
                Some(whole) => whole + 1 == block,
                None => block == 0,
            }
        },
        r == report(range, rows, block, reason),
{
    let block_number = block.checked_sub(if rows.done { 0 } else { 1 });
    let progress = if rows.done {
        PruneProgress::Finished
    } else {
        PruneProgress::HasMoreData(reason)
    };
    SegmentOutput {
        progress,
        pruned: rows.pruned,
        checkpoint: Some(
            SegmentOutputCheckpoint {
                block_number,
                tx_number: Some(last_pruned_transaction(range, &rows)),
            },
        ),
    }
}

/// What a run over `input` returns.
///
/// The replies that it goes by, each of them read only where the run gets that far: `anchor`,
/// the last transaction of the anchor block; `range`, the transactions that are left to prune;
/// `rows`, what deleting their receipts came to; `block`, the block of the last pruned
/// transaction; `reason`, why the limiter stopped the run.
pub open spec fn prune_outcome<L, P, D>(
    input: PruneInput<L>,
    lowest_start: Option<u64>,
    anchor: Result<Option<u64>, P>,
    range: Result<Option<TxRange>, P>,
    rows: Result<(PrunedRows, L), D>,
    block: Result<Option<u64>, P>,
    reason: PruneInterruptReason,
) -> Result<SegmentOutput, PrunerError<P, D>> {
    if anchor_block(input.previous_checkpoint, lowest_start) is Some && anchor is Err {
        Err(PrunerError::Provider(anchor->Err_0))
    } else {
        match range {
            Err(error) => Err(PrunerError::Provider(error)),
            Ok(None) => Ok(SegmentOutput::nothing_to_prune()),
            Ok(Some(range)) => match rows {
                Err(error) => Err(PrunerError::Database(error)),
                Ok((rows, _)) => match block {
                    Err(error) => Err(PrunerError::Provider(error)),
                    Ok(None) => Err(
                        PrunerError::InconsistentData("Block for transaction is not found"),
                    ),
                    Ok(Some(block)) => Ok(report(range, rows, block, reason)),
                },
            },
        }
    }
}

/// Whether a run over `input` gets to ask for the transactions to prune, with `last_tx` as the
/// last transaction of the anchor block: it has no such block, or could look it up.
pub open spec fn gets_to_range<L, P, Anchor: FnOnce(u64) -> Result<Option<u64>, P>>(
    input: PruneInput<L>,
    lowest_start: Option<u64>,
    last_tx_of_block: Anchor,
    last_tx: Option<u64>,
) -> bool {
    match anchor_block(input.previous_checkpoint, lowest_start) {
        None => last_tx is None,
        Some(block) => call_ensures(last_tx_of_block, (block,), Ok::<Option<u64>, P>(last_tx)),
    }
}

/// Whether a run that goes on from `start` gets to delete the receipts of `range`.
pub open spec fn gets_to_rows<
    L,
    P,
    Range: FnOnce(&PruneInput<L>) -> Result<Option<TxRange>, P>,
>(start: PruneInput<L>, next_tx_num_range: Range, range: TxRange) -> bool {
    call_ensures(next_tx_num_range, (&start,), Ok::<Option<TxRange>, P>(Some(range)))
}

/// Whether a run that deletes receipts of `range` under `limiter` gets to look up the block of
/// the last one, with `rows` deleted and the limiter at `after`.
pub open spec fn gets_to_block<L, D, Rows: FnOnce(TxRange, L) -> Result<(PrunedRows, L), D>>(
    range: TxRange,
    limiter: L,
    prune_rows: Rows,
    rows: PrunedRows,
    after: L,
) -> bool {
    call_ensures(prune_rows, (range, limiter), Ok::<(PrunedRows, L), D>((rows, after)))
}

/// Whether a run gets to ask why it was interrupted: the deletion did not come to the end of the
/// range, and the last deleted row is in a known `block`.
pub open spec fn gets_to_reason<P, Block: FnOnce(u64) -> Result<Option<u64>, P>>(
    range: TxRange,
    rows: PrunedRows,
    transaction_block: Block,
    block: u64,
) -> bool {
    !rows.done && call_ensures(
        transaction_block,
        (last_pruned(range, rows),),
        Ok::<Option<u64>, P>(Some(block)),
    )
}

/// Whether each of the five calls can be made where a run over `input` gets to it, with the
/// arguments that the replies before it determine. A run makes no other call.
pub open spec fn accepts_calls<
    L,
    P,
    D,
    Anchor: FnOnce(u64) -> Result<Option<u64>, P>,
    Range: FnOnce(&PruneInput<L>) -> Result<Option<TxRange>, P>,
    Rows: FnOnce(TxRange, L) -> Result<(PrunedRows, L), D>,
    Block: FnOnce(u64) -> Result<Option<u64>, P>,
    Reason: FnOnce(&L) -> PruneInterruptReason,
>(
    input: PruneInput<L>,
    lowest_start: Option<u64>,
    last_tx_of_block: Anchor,
    next_tx_num_range: Range,
    prune_rows: Rows,
    transaction_block: Block,
    interrupt_reason: Reason,
) -> bool {
    &&& anchor_block(input.previous_checkpoint, lowest_start) matches Some(block) ==> call_requires(
        last_tx_of_block,
        (block,),
    )
    &&& forall|last_tx: Option<u64>| #[trigger]
        gets_to_range(input, lowest_start, last_tx_of_block, last_tx) ==> {
            let start = starting_input(input, lowest_start, last_tx);
            &&& call_requires(next_tx_num_range, (&start,))
            &&& forall|range: TxRange| #[trigger]
                gets_to_rows(start, next_tx_num_range, range) ==> {
                    &&& call_requires(prune_rows, (range, input.limiter))
                    &&& forall|rows: PrunedRows, after: L| #[trigger]
                        gets_to_block(range, input.limiter, prune_rows, rows, after) ==> {
                            &&& call_requires(transaction_block, (last_pruned(range, rows),))
                            &&& forall|block: u64| #[trigger]
                                gets_to_reason(range, rows, transaction_block, block) ==> call_requires(
                                    interrupt_reason,
                                    (&after,),
                                )
                        }
                }
        }
}

/// Whether the replies can be what the five calls of a run over `input` return: each call that
/// the run gets to is made with the arguments that the replies before it determine.
pub open spec fn are_replies<
    L,
    P,
    D,
    Anchor: FnOnce(u64) -> Result<Option<u64>, P>,
    Range: FnOnce(&PruneInput<L>) -> Result<Option<TxRange>, P>,
    Rows: FnOnce(TxRange, L) -> Result<(PrunedRows, L), D>,
    Block: FnOnce(u64) -> Result<Option<u64>, P>,
    Reason: FnOnce(&L) -> PruneInterruptReason,
>(
    input: PruneInput<L>,
    lowest_start: Option<u64>,
    calls: (Anchor, Range, Rows, Block, Reason),
    anchor: Result<Option<u64>, P>,
    range: Result<Option<TxRange>, P>,
    rows: Result<(PrunedRows, L), D>,
    block: Result<Option<u64>, P>,
    reason: PruneInterruptReason,
) -> bool {
    let at = anchor_block(input.previous_checkpoint, lowest_start);
    let asks_range = at is None || anchor is Ok;
    let deletes_rows = asks_range && (range matches Ok(Some(_)));
    let asks_block = deletes_rows && rows is Ok;
    let asks_reason = asks_block && (block matches Ok(Some(_))) && !rows->Ok_0.0.done;
    let last_tx = if at is None {
        None
    } else {
        anchor->Ok_0
    };
    &&& at is Some ==> call_ensures(calls.0, (at->Some_0,), anchor)
    &&& asks_range ==> call_ensures(
        calls.1,
        (&starting_input(input, lowest_start, last_tx),),
        range,
    )
    &&& deletes_rows ==> call_ensures(calls.2, (range->Ok_0->Some_0, input.limiter), rows)
    &&& asks_block ==> call_ensures(
        calls.3,
        (last_pruned(range->Ok_0->Some_0, rows->Ok_0.0),),
        block,
    )
    &&& asks_reason ==> call_ensures(calls.4, (&rows->Ok_0.1,), reason)
}

/// Prunes receipts of blocks up to `input.to_block`, as far as the limiter allows.
///
/// What the run needs of the node's storage it asks for by a call:
/// - `lowest_start` is the first block of the lowest static file of receipts;
/// - `last_tx_of_block` gives the last transaction of a block, if the block is known;
/// - `next_tx_num_range` gives the transactions between the checkpoint and the target block;
/// - `prune_rows` deletes the receipts of those transactions in their order, none of them
///   skipped, until the limiter stops it, and gives the limiter back;
/// - `transaction_block` gives the block that a transaction is in;
/// - `interrupt_reason` says why the limiter stopped the deletion.
pub fn prune<
    L,
    P,
    D,
    Anchor: FnOnce(u64) -> Result<Option<u64>, P>,
    Range: FnOnce(&PruneInput<L>) -> Result<Option<TxRange>, P>,
    Rows: FnOnce(TxRange, L) -> Result<(PrunedRows, L), D>,
    Block: FnOnce(u64) -> Result<Option<u64>, P>,
    Reason: FnOnce(&L) -> PruneInterruptReason,
>(
    input: PruneInput<L>,
    lowest_start: Option<u64>,
    last_tx_of_block: Anchor,
    next_tx_num_range: Range,
    prune_rows: Rows,
    transaction_block: Block,
    interrupt_reason: Reason,
) -> (r: Result<SegmentOutput, PrunerError<P, D>>)
    requires
        accepts_calls(
            input,
            lowest_start,
            last_tx_of_block,
            next_tx_num_range,
            prune_rows,
            transaction_block,
            interrupt_reason,
        ),
    ensures
        exists|
            anchor: Result<Option<u64>, P>,
            range: Result<Option<TxRange>, P>,
            rows: Result<(PrunedRows, L), D>,
            block: Result<Option<u64>, P>,
            reason: PruneInterruptReason,
        |
            #[trigger] are_replies(
                input,
                lowest_start,
                (
                    last_tx_of_block,
                    next_tx_num_range,
                    prune_rows,
                    transaction_block,
                    interrupt_reason,
                ),
                anchor,
                range,
                rows,
                block,
                reason,
            ) && r == prune_outcome(input, lowest_start, anchor, range, rows, block, reason),
{
    let ghost calls = (
        last_tx_of_block,
        next_tx_num_range,
        prune_rows,
        transaction_block,
        interrupt_reason,
    );
    let ghost given = input;
    let ghost mut anchor: Result<Option<u64>, P> = Ok(None);
    let ghost no_rows: Result<(PrunedRows, L), D> = arbitrary();
    let ghost no_block: Result<Option<u64>, P> = arbitrary();
    let ghost no_reason = PruneInterruptReason::Unknown;
    let mut input = input;
    if let Some(block) = static_file_anchor(input.previous_checkpoint, lowest_start) {
        let reply = last_tx_of_block(block);
        proof {
            anchor = reply;
        }
        match reply {
            Err(error) => {
                assert(are_replies(
                    given,
                    lowest_start,
                    calls,
                    anchor,
                    arbitrary(),
                    no_rows,
                    no_block,
                    no_reason,
                ));
                return Err(PrunerError::Provider(error));
            },
            Ok(Some(last_tx)) => {
                input = anchor_input(input, block, last_tx);
            },
            Ok(None) => {},
        }
    }
    let ghost last_tx = if anchor_block(given.previous_checkpoint, lowest_start) is None {
        None
    } else {
        anchor->Ok_0
    };
    assert(gets_to_range(given, lowest_start, last_tx_of_block, last_tx));
    assert(input == starting_input(given, lowest_start, last_tx));
    let reply = next_tx_num_range(&input);
    let ghost range = reply;
    let tx_range = match reply {
        Err(error) => {
            assert(are_replies(
                given,
                lowest_start,
                calls,
                anchor,
                range,
                no_rows,
                no_block,
                no_reason,
            ));
            return Err(PrunerError::Provider(error));
        },
        Ok(None) => {
            assert(are_replies(
                given,
                lowest_start,
                calls,
                anchor,
                range,
                no_rows,
                no_block,
                no_reason,
            ));
            return Ok(SegmentOutput::done());
        },
        Ok(Some(tx_range)) => tx_range,
    };
    assert(gets_to_rows(
        starting_input(given, lowest_start, last_tx),
        next_tx_num_range,
        tx_range,
    ));
    let reply = prune_rows(tx_range, input.limiter);
    let ghost rows = reply;
    let (pruned_rows, limiter) = match reply {
        Err(error) => {
            assert(are_replies(
                given,
                lowest_start,
                calls,
                anchor,
                range,
                rows,
                no_block,
                no_reason,
            ));
            return Err(PrunerError::Database(error));
        },
        Ok(pruned) => pruned,
    };
    assert(gets_to_block(tx_range, given.limiter, prune_rows, pruned_rows, limiter));
    let reply = transaction_block(last_pruned_transaction(tx_range, &pruned_rows));
    let ghost block = reply;
    let last_block: u64 = match reply {
        Err(error) => {
            assert(are_replies(given, lowest_start, calls, anchor, range, rows, block, no_reason));
            return Err(PrunerError::Provider(error));
        },
        Ok(None) => {
            assert(are_replies(given, lowest_start, calls, anchor, range, rows, block, no_reason));
            return Err(PrunerError::InconsistentData("Block for transaction is not found"));
        },
        Ok(Some(last_block)) => last_block,
    };
    let reason = if pruned_rows.done {
        PruneInterruptReason::Unknown
    } else {
        assert(gets_to_reason(tx_range, pruned_rows, transaction_block, last_block));
        interrupt_reason(&limiter)
    };
    assert(are_replies(given, lowest_start, calls, anchor, range, rows, block, reason));
    Ok(segment_output(tx_range, pruned_rows, last_block, reason))
}

/// Stores `checkpoint` for receipts and, where that succeeds, for contract logs, each at most
/// once.
///
/// Pruning all receipts overrides pruning them by contract, so the start of the latter can be
/// moved ahead of time.
pub fn save_checkpoint<
    E,
    SaveReceipts: FnOnce(PruneSegment, PruneCheckpoint) -> Result<(), E>,
    SaveContractLogs: FnOnce(PruneSegment, PruneCheckpoint) -> Result<(), E>,
>(
    save_receipts: SaveReceipts,
    save_contract_logs: SaveContractLogs,
    checkpoint: PruneCheckpoint,
) -> (r: Result<(), E>)
    requires
        call_requires(save_receipts, (PruneSegment::Receipts, checkpoint)),
        call_ensures(save_receipts, (PruneSegment::Receipts, checkpoint), Ok::<(), E>(()))
            ==> call_requires(save_contract_logs, (PruneSegment::ContractLogs, checkpoint)),
    ensures
        r is Ok ==> {
            &&& call_ensures(save_receipts, (PruneSegment::Receipts, checkpoint), Ok::<(), E>(()))
            &&& call_ensures(save_contract_logs, (PruneSegment::ContractLogs, checkpoint), r)
        },
        r is Err ==> {
            ||| call_ensures(save_receipts, (PruneSegment::Receipts, checkpoint), r)
            ||| {
                &&& call_ensures(
                    save_receipts,
                    (PruneSegment::Receipts, checkpoint),
                    Ok::<(), E>(()),
                )
                &&& call_ensures(save_contract_logs, (PruneSegment::ContractLogs, checkpoint), r)
            }
        },
{
    let saved = save_receipts(PruneSegment::Receipts, checkpoint);
    if saved.is_err() {
        return saved;
    }
    assert(saved->Ok_0 == ());
    assert(saved == Ok::<(), E>(()));
    save_contract_logs(PruneSegment::ContractLogs, checkpoint)
}

} // verus!

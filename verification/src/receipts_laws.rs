//! What holds of receipt pruning as a whole.

use crate::prune_types::{
    PruneCheckpoint, PruneInput, PruneInterruptReason, PruneMode, PruneProgress, PrunedRows,
    PrunerError, SegmentOutput, TxRange,
};
use crate::receipts::{
    accepts_calls, anchor_block, are_replies, last_pruned, prune_outcome, report, starting_checkpoint,
    starting_input,
};
use vstd::prelude::*;
use vstd::set_lib::{lemma_len_subset, lemma_set_disjoint_lens};

verus! {

/// The block of the checkpoint that a run goes on from is never below the stored one, and a
/// stored checkpoint keeps its mode; where nothing was stored, the mode is that of pruning
/// everything.
pub proof fn law_start_never_moves_back(
    previous: Option<PruneCheckpoint>,
    lowest_start: Option<u64>,
    last_tx: Option<u64>,
)
    ensures
        previous matches Some(stored) ==> {
            &&& starting_checkpoint(previous, lowest_start, last_tx) matches Some(start)
            &&& start.prune_mode == stored.prune_mode
            &&& stored.block_number matches Some(b) ==> {
                &&& start.block_number matches Some(c)
                &&& b <= c
            }
        },
        previous is None ==> (starting_checkpoint(previous, lowest_start, last_tx) matches Some(
            start,
        ) ==> start.prune_mode == PruneMode::Full),
{
}

/// Where the anchor block is known, a run does not go on from below the block before the lowest
/// static file of receipts: it never asks for receipts whose data is gone.
pub proof fn law_start_reaches_static_files(
    previous: Option<PruneCheckpoint>,
    lowest_start: u64,
    last_tx: u64,
)
    ensures
        starting_checkpoint(previous, Some(lowest_start), Some(last_tx)) matches Some(start) && (
        start.block_number matches Some(block) && block + 1 >= lowest_start),
{
}

/// Storing the checkpoint that a run goes on from and starting again changes nothing.
pub proof fn law_start_is_stable(
    previous: Option<PruneCheckpoint>,
    lowest_start: Option<u64>,
    last_tx: Option<u64>,
)
    ensures
        starting_checkpoint(
            starting_checkpoint(previous, lowest_start, last_tx),
            lowest_start,
            last_tx,
        ) == starting_checkpoint(previous, lowest_start, last_tx),
{
}

/// Once the last transaction of the anchor block is looked up, a run whose checkpoint lags behind
/// the static files is a run without static files from the checkpoint that takes its place: it
/// makes the same calls, among them the one that deletes receipts, and returns the same for the
/// same replies. Where the anchor block is not known, or the checkpoint does not lag, that
/// checkpoint is the stored one.
pub proof fn law_lagging_run_is_a_run_from_the_anchor<
    L,
    P,
    D,
    Anchor: FnOnce(u64) -> Result<Option<u64>, P>,
    Range: FnOnce(&PruneInput<L>) -> Result<Option<TxRange>, P>,
    Rows: FnOnce(TxRange, L) -> Result<(PrunedRows, L), D>,
    Block: FnOnce(u64) -> Result<Option<u64>, P>,
    Reason: FnOnce(&L) -> PruneInterruptReason,
>(
    input: PruneInput<L>,
    lowest_start: Option<u64>,
    calls: (Anchor, Range, Rows, Block, Reason),
    last_tx: Option<u64>,
    range: Result<Option<TxRange>, P>,
    rows: Result<(PrunedRows, L), D>,
    block: Result<Option<u64>, P>,
    reason: PruneInterruptReason,
)
    ensures
        ({
            let anchor = Ok::<Option<u64>, P>(last_tx);
            let start = starting_input(input, lowest_start, last_tx);
            let at = anchor_block(input.previous_checkpoint, lowest_start);
            &&& prune_outcome(input, lowest_start, anchor, range, rows, block, reason)
                == prune_outcome(start, None, anchor, range, rows, block, reason)
            &&& are_replies(input, lowest_start, calls, anchor, range, rows, block, reason) <==> (
            at is Some ==> call_ensures(calls.0, (at->Some_0,), anchor)) && are_replies(
                start,
                None,
                calls,
                anchor,
                range,
                rows,
                block,
                reason,
            )
            &&& at is None || last_tx is None ==> start == input
        }),
{
    let start = starting_input(input, lowest_start, last_tx);
    assert(starting_input(start, None, None) == start);
    if anchor_block(input.previous_checkpoint, lowest_start) is None {
        assert(starting_input(input, lowest_start, None) == start);
    }
}

/// Whether `after` is what is left of the receipts `before`, by their transaction numbers, once
/// `rows` of `range` were deleted in their order, and `rows` counts what was deleted.
pub open spec fn deletes(
    before: Set<u64>,
    after: Set<u64>,
    range: TxRange,
    rows: PrunedRows,
) -> bool {
    let end = if rows.done {
        Some(range.end)
    } else {
        rows.last_row
    };
    &&& before.finite()
    &&& before.difference(after).len() == rows.pruned
    &&& rows.last_row matches Some(tx) ==> range.start <= tx <= range.end && before.contains(tx)
    &&& forall|tx: u64| #[trigger]
        after.contains(tx) <==> before.contains(tx) && !(end matches Some(e) && range.start <= tx
            <= e)
    &&& rows.done && rows.last_row is None ==> forall|tx: u64| #[trigger]
        before.contains(tx) ==> !(range.start <= tx <= range.end)
    &&& rows.done ==> (rows.last_row matches Some(last) ==> forall|tx: u64| #[trigger]
        before.contains(tx) && range.start <= tx <= range.end ==> tx <= last)
}

/// A run that deleted a row and has more to do never counts a block as pruned while one of its
/// receipts is left: with transactions numbered in block order, no receipt of its range that is
/// left is in the reported block or in one before it, and every transaction of those blocks is
/// below the reported transaction.
///
/// A run that the limiter stops before its first row takes the end of its range for pruned, and
/// is left out here.
pub proof fn law_unfinished_run_reports_whole_blocks(
    block_of: spec_fn(u64) -> u64,
    before: Set<u64>,
    after: Set<u64>,
    range: TxRange,
    rows: PrunedRows,
    reason: PruneInterruptReason,
    tx: u64,
)
    requires
        forall|a: u64, b: u64| a <= b ==> #[trigger] block_of(a) <= #[trigger] block_of(b),
        deletes(before, after, range, rows),
        !rows.done,
        rows.last_row is Some,
    ensures
        report(range, rows, block_of(last_pruned(range, rows)), reason).checkpoint matches Some(
            checkpoint,
        ) && ((checkpoint.block_number matches Some(b) && block_of(tx) <= b) ==> {
            &&& tx < checkpoint.tx_number->Some_0
            &&& range.start <= tx <= range.end ==> !after.contains(tx)
        }),
{
    let last = last_pruned(range, rows);
    if last <= tx {
        assert(block_of(last) <= block_of(tx));
    }
}

/// Nothing is skipped: a run that deleted a row, or that is through, leaves of its range only
/// receipts above the transaction that it reports, so a run that goes on after that transaction
/// finds all of them.
///
/// A run that the limiter stops before its first row reports the end of its range instead, and
/// is left out here.
pub proof fn law_next_run_finds_what_is_left(
    before: Set<u64>,
    after: Set<u64>,
    range: TxRange,
    rows: PrunedRows,
    block: u64,
    reason: PruneInterruptReason,
    tx: u64,
)
    requires
        deletes(before, after, range, rows),
        rows.done || rows.last_row is Some,
    ensures
        ({
            let reported = report(range, rows, block, reason).checkpoint->Some_0.tx_number;
            &&& reported is Some
            &&& after.contains(tx) && range.start <= tx <= range.end ==> reported->Some_0 < tx
        }),
{
    assert(after.contains(tx) ==> before.contains(tx));
}

/// The receipts of `all`, by their transaction numbers, that are in `range`.
pub open spec fn in_range(all: Set<u64>, range: TxRange) -> Set<u64> {
    all.filter(|tx: u64| range.start <= tx <= range.end)
}

/// The transactions after those of `checkpoint`, up to `last`, if there are any.
pub open spec fn range_after(checkpoint: Option<PruneCheckpoint>, last: u64) -> Option<TxRange> {
    let start: int = match checkpoint {
        Some(PruneCheckpoint { tx_number: Some(tx), .. }) => tx + 1,
        _ => 0,
    };
    if start <= last {
        Some(TxRange { start: start as u64, end: last })
    } else {
        None
    }
}

/// A run reports to be through exactly where the deletion came to the end of its range. No
/// receipt of the range is left then, and the run reports the block of its last transaction; a
/// run that was interrupted reports a block below, if any.
pub proof fn law_finished_means_nothing_left<L, P, D>(
    before: Set<u64>,
    after: Set<u64>,
    input: PruneInput<L>,
    lowest_start: Option<u64>,
    anchor: Result<Option<u64>, P>,
    range: TxRange,
    rows: PrunedRows,
    limiter: L,
    block: u64,
    reason: PruneInterruptReason,
)
    ensures
        prune_outcome::<L, P, D>(
            input,
            lowest_start,
            anchor,
            Ok(Some(range)),
            Ok((rows, limiter)),
            Ok(Some(block)),
            reason,
        ) matches Ok(out) ==> {
            &&& out.progress is Finished <==> rows.done
            &&& out.progress is Finished && deletes(before, after, range, rows) ==> in_range(
                after,
                range,
            ) == Set::<u64>::empty()
            &&& out.checkpoint matches Some(checkpoint)
            &&& out.progress is Finished ==> checkpoint.block_number == Some(block)
            &&& out.progress is HasMoreData ==> (checkpoint.block_number matches Some(b)
                ==> b < block)
        },
{
    if rows.done && deletes(before, after, range, rows) {
        assert(in_range(after, range) =~= Set::<u64>::empty());
    }
}

/// Where the last transaction of the anchor block is known, a run whose checkpoint lags behind
/// the static files deletes no receipt up to that transaction.
pub proof fn law_lagging_run_keeps_receipts_up_to_the_anchor(
    previous: Option<PruneCheckpoint>,
    lowest_start: Option<u64>,
    last_tx: u64,
    last: u64,
    before: Set<u64>,
    after: Set<u64>,
    range: TxRange,
    rows: PrunedRows,
    tx: u64,
)
    requires
        anchor_block(previous, lowest_start) is Some,
        range_after(starting_checkpoint(previous, lowest_start, Some(last_tx)), last) == Some(
            range,
        ),
        deletes(before, after, range, rows),
    ensures
        tx <= last_tx ==> (after.contains(tx) <==> before.contains(tx)),
{
}

/// A run that deleted receipts and was interrupted, and one without a limit that goes on from the
/// checkpoint that the first one reports, up to the same transaction: the second one is through,
/// both together delete the receipts of the first range and no other, and their counts add up to
/// the number of those.
///
/// Where the first run began at the anchor, the second one may have to begin there again, because
/// the block that the first one reports can lie below the static files. Both then get the same
/// reply on the anchor block.
pub proof fn law_resumed_run_completes_range<L, P, D>(
    lowest_start: Option<u64>,
    last_tx: Option<u64>,
    before: Set<u64>,
    between: Set<u64>,
    after: Set<u64>,
    input: PruneInput<L>,
    range: TxRange,
    rows: PrunedRows,
    limiter: L,
    block: u64,
    reason: PruneInterruptReason,
    prune_mode: PruneMode,
    resumed: PruneInput<L>,
    resumed_rows: PrunedRows,
    resumed_limiter: L,
    resumed_block: u64,
    resumed_reason: PruneInterruptReason,
)
    requires
        deletes(before, between, range, rows),
        !rows.done,
        rows.pruned > 0,
        resumed.previous_checkpoint == Some(
            report(range, rows, block, reason).checkpoint->Some_0.stored_with(prune_mode),
        ),
        anchor_block(resumed.previous_checkpoint, lowest_start) is Some && last_tx is Some ==> {
            &&& anchor_block(input.previous_checkpoint, lowest_start) is Some
            &&& range_after(
                starting_checkpoint(input.previous_checkpoint, lowest_start, last_tx),
                range.end,
            ) == Some(range)
        },
        match range_after(
            starting_checkpoint(resumed.previous_checkpoint, lowest_start, last_tx),
            range.end,
        ) {
            Some(rest) => deletes(between, after, rest, resumed_rows) && resumed_rows.done,
            None => after == between,
        },
    ensures
        ({
            let first = prune_outcome::<L, P, D>(
                input,
                lowest_start,
                Ok(last_tx),
                Ok(Some(range)),
                Ok((rows, limiter)),
                Ok(Some(block)),
                reason,
            );
            let rest = range_after(
                starting_checkpoint(resumed.previous_checkpoint, lowest_start, last_tx),
                range.end,
            );
            let second = prune_outcome::<L, P, D>(
                resumed,
                lowest_start,
                Ok(last_tx),
                Ok(rest),
                Ok((resumed_rows, resumed_limiter)),
                Ok(Some(resumed_block)),
                resumed_reason,
            );
            &&& first == Ok::<_, PrunerError<P, D>>(report(range, rows, block, reason))
            &&& second is Ok
            &&& second->Ok_0.progress is Finished
            &&& after == before.difference(in_range(before, range))
            &&& first->Ok_0.pruned + second->Ok_0.pruned == in_range(before, range).len()
        }),
{
    let deleted = before.difference(between);
    let rest = between.difference(after);
    if rows.last_row is None {
        assert(deleted =~= Set::<u64>::empty());
    }
    assert(in_range(before, range) =~= deleted + rest);
    assert(after =~= before.difference(in_range(before, range)));
    lemma_len_subset(deleted, before);
    lemma_len_subset(rest, before);
    lemma_set_disjoint_lens(deleted, rest);
    if range_after(
        starting_checkpoint(resumed.previous_checkpoint, lowest_start, last_tx),
        range.end,
    ) is None {
        assert(rest =~= Set::<u64>::empty());
    }
}

/// Whether the checkpoint `previous` has reached block `start`.
pub open spec fn has_reached(previous: Option<PruneCheckpoint>, start: u64) -> bool {
    previous matches Some(checkpoint) && checkpoint.block_number matches Some(block) && start
        <= block
}

/// Whether a run from `previous` has to move to the lowest static file of receipts first.
pub open spec fn has_to_move(previous: Option<PruneCheckpoint>, lowest_start: Option<u64>) -> bool {
    lowest_start matches Some(start) && !has_reached(previous, start)
}

/// Whether the first block that comes after `block` is `start`. No block comes before block 0,
/// which stands for itself.
pub open spec fn leads_up_to(block: u64, start: u64) -> bool {
    block + 1 == start || (block == 0 && start == 0)
}

/// A run moves to the static files exactly where its checkpoint has not reached the lowest one,
/// and then skips no block of that file: what it goes on after is the block right before it.
pub proof fn law_anchor_skips_no_static_file_block(
    previous: Option<PruneCheckpoint>,
    lowest_start: Option<u64>,
)
    ensures
        anchor_block(previous, lowest_start) is Some <==> has_to_move(previous, lowest_start),
        anchor_block(previous, lowest_start) matches Some(block) ==> leads_up_to(
            block,
            lowest_start->Some_0,
        ),
{
}

/// A later static file never moves the start of a run back, and moves it by no more blocks than
/// lie between the two files.
pub proof fn law_anchor_follows_the_static_files(
    previous: Option<PruneCheckpoint>,
    start: u64,
    later: u64,
)
    requires
        start <= later,
    ensures
        anchor_block(previous, Some(start)) matches Some(block) ==> {
            &&& anchor_block(previous, Some(later)) matches Some(later_block)
            &&& block <= later_block
            &&& later_block - block <= later - start
            &&& 0 < start ==> later_block - block == later - start
        },
{
}

/// The checkpoint that a run goes on from: the stored one, or, where the run has to move and the
/// last transaction of the block before the static files is known, one at that block, with that
/// transaction and the stored mode.
pub proof fn law_start_is_stored_or_before_the_static_files(
    previous: Option<PruneCheckpoint>,
    lowest_start: Option<u64>,
    last_tx: Option<u64>,
)
    ensures
        !has_to_move(previous, lowest_start) || last_tx is None ==> starting_checkpoint(
            previous,
            lowest_start,
            last_tx,
        ) == previous,
        has_to_move(previous, lowest_start) && last_tx is Some ==> (starting_checkpoint(
            previous,
            lowest_start,
            last_tx,
        ) matches Some(start) && {
            &&& start.block_number matches Some(block)
            &&& leads_up_to(block, lowest_start->Some_0)
            &&& start.tx_number == last_tx
            &&& start.prune_mode == (match previous {
                Some(stored) => stored.prune_mode,
                None => PruneMode::Full,
            })
        }),
{
}

/// The transaction that a run reports is that of the row deleted last, whether the run is through
/// or not: a receipt of the range that was there and is gone. No receipt that was deleted is above
/// it, and where the run is through no receipt of the range was. Where no row was deleted, it is
/// the end of the range.
pub proof fn law_reported_transaction_is_the_last_deleted(
    before: Set<u64>,
    after: Set<u64>,
    range: TxRange,
    rows: PrunedRows,
    block: u64,
    reason: PruneInterruptReason,
    tx: u64,
)
    ensures
        report(range, rows, block, reason).checkpoint matches Some(checkpoint) && {
            &&& checkpoint.tx_number matches Some(reported)
            &&& rows.last_row matches Some(last) ==> reported == last
            &&& rows.last_row is None ==> reported == range.end
            &&& last_pruned(range, rows) == reported
            &&& deletes(before, after, range, rows) && rows.last_row is Some ==> {
                &&& range.start <= reported <= range.end
                &&& before.contains(reported) && !after.contains(reported)
                &&& before.contains(tx) && !after.contains(tx) ==> tx <= reported
            }
            &&& deletes(before, after, range, rows) && rows.done && before.contains(tx)
                && range.start <= tx <= range.end ==> tx <= reported
        },
{
    if deletes(before, after, range, rows) {
        if let Some(last) = rows.last_row {
            assert(!after.contains(last));
        }
    }
}

/// The block that a run reports is the highest that it may: the block of its last transaction
/// where it is through, and else the one right before that, or none where that is block 0. It
/// reports what was deleted, and that it is through exactly where the deletion was.
pub proof fn law_reported_block_is_the_highest_whole_one(
    range: TxRange,
    rows: PrunedRows,
    block: u64,
    reason: PruneInterruptReason,
)
    ensures
        ({
            let out = report(range, rows, block, reason);
            &&& out.pruned == rows.pruned
            &&& rows.done ==> out.progress is Finished
            &&& !rows.done ==> out.progress == PruneProgress::HasMoreData(reason)
            &&& out.checkpoint matches Some(checkpoint)
            &&& rows.done ==> checkpoint.block_number == Some(block)
            &&& !rows.done && block > 0 ==> (checkpoint.block_number matches Some(whole) && whole
                + 1 == block)
            &&& !rows.done && block == 0 ==> checkpoint.block_number is None
        }),
{
}

/// Two interrupted runs whose last transactions are in different blocks report different blocks,
/// in the same order and as far apart.
pub proof fn law_reported_blocks_keep_their_distance(
    range: TxRange,
    rows: PrunedRows,
    lower: u64,
    higher: u64,
    reason: PruneInterruptReason,
)
    requires
        rows.done || 0 < lower,
        lower <= higher,
    ensures
        ({
            let a = report(range, rows, lower, reason).checkpoint->Some_0.block_number;
            let b = report(range, rows, higher, reason).checkpoint->Some_0.block_number;
            &&& a is Some
            &&& b is Some
            &&& b->Some_0 - a->Some_0 == higher - lower
        }),
{
}

/// What a run asks for before it deletes anything. Where it has to move, it looks up the last
/// transaction of the block before the static files. If that does not fail, it asks for the
/// transactions to prune of its input, in which only the checkpoint may be replaced: by one at
/// that block, with that transaction and the stored mode.
pub proof fn law_run_asks_for_the_range_from_its_start<
    L,
    P,
    D,
    Anchor: FnOnce(u64) -> Result<Option<u64>, P>,
    Range: FnOnce(&PruneInput<L>) -> Result<Option<TxRange>, P>,
    Rows: FnOnce(TxRange, L) -> Result<(PrunedRows, L), D>,
    Block: FnOnce(u64) -> Result<Option<u64>, P>,
    Reason: FnOnce(&L) -> PruneInterruptReason,
>(
    input: PruneInput<L>,
    lowest_start: Option<u64>,
    last_tx_of_block: Anchor,
    next_tx_num_range: Range,
    prune_rows: Rows,
    transaction_block: Block,
    interrupt_reason: Reason,
    anchor: Result<Option<u64>, P>,
    range: Result<Option<TxRange>, P>,
    rows: Result<(PrunedRows, L), D>,
    block: Result<Option<u64>, P>,
    reason: PruneInterruptReason,
)
    requires
        are_replies(
            input,
            lowest_start,
            (
                last_tx_of_block,
                next_tx_num_range,
                prune_rows,
                transaction_block,
                interrupt_reason,
            ),
            anchor,
            range,
            rows,
            block,
            reason,
        ),
    ensures
        has_to_move(input.previous_checkpoint, lowest_start) ==> exists|at: u64|
            leads_up_to(at, lowest_start->Some_0) && #[trigger] call_ensures(
                last_tx_of_block,
                (at,),
                anchor,
            ),
        !has_to_move(input.previous_checkpoint, lowest_start) || anchor is Ok ==> exists|
            start: PruneInput<L>,
        | #[trigger]
            call_ensures(next_tx_num_range, (&start,), range) && {
                let moved = has_to_move(input.previous_checkpoint, lowest_start) && anchor->Ok_0
                    is Some;
                &&& start.to_block == input.to_block
                &&& start.limiter == input.limiter
                &&& !moved ==> start.previous_checkpoint == input.previous_checkpoint
                &&& moved ==> (start.previous_checkpoint matches Some(checkpoint) && {
                    &&& checkpoint.block_number matches Some(at)
                    &&& leads_up_to(at, lowest_start->Some_0)
                    &&& checkpoint.tx_number == anchor->Ok_0
                    &&& checkpoint.prune_mode == (match input.previous_checkpoint {
                        Some(stored) => stored.prune_mode,
                        None => PruneMode::Full,
                    })
                })
            },
{
    let at = anchor_block(input.previous_checkpoint, lowest_start);
    if has_to_move(input.previous_checkpoint, lowest_start) {
        assert(call_ensures(last_tx_of_block, (at->Some_0,), anchor));
    }
    if !has_to_move(input.previous_checkpoint, lowest_start) || anchor is Ok {
        let last_tx = if at is None {
            None
        } else {
            anchor->Ok_0
        };
        let start = starting_input(input, lowest_start, last_tx);
        assert(call_ensures(next_tx_num_range, (&start,), range));
    }
}

/// A run that succeeds found nothing to prune, and reports just that, or deleted receipts of the
/// range that it was given, under its limiter, and looked up the block of the row deleted last, or
/// of the end of the range where no row was. It then reports that transaction, the count of
/// deleted rows, and the block if it is through; if not, the block right before it, and why the
/// limiter that came back from the deletion stopped it.
pub proof fn law_successful_run_reports_what_it_did<
    L,
    P,
    D,
    Anchor: FnOnce(u64) -> Result<Option<u64>, P>,
    Range: FnOnce(&PruneInput<L>) -> Result<Option<TxRange>, P>,
    Rows: FnOnce(TxRange, L) -> Result<(PrunedRows, L), D>,
    Block: FnOnce(u64) -> Result<Option<u64>, P>,
    Reason: FnOnce(&L) -> PruneInterruptReason,
>(
    input: PruneInput<L>,
    lowest_start: Option<u64>,
    last_tx_of_block: Anchor,
    next_tx_num_range: Range,
    prune_rows: Rows,
    transaction_block: Block,
    interrupt_reason: Reason,
    anchor: Result<Option<u64>, P>,
    range: Result<Option<TxRange>, P>,
    rows: Result<(PrunedRows, L), D>,
    block: Result<Option<u64>, P>,
    reason: PruneInterruptReason,
    out: SegmentOutput,
)
    requires
        are_replies(
            input,
            lowest_start,
            (
                last_tx_of_block,
                next_tx_num_range,
                prune_rows,
                transaction_block,
                interrupt_reason,
            ),
            anchor,
            range,
            rows,
            block,
            reason,
        ),
        prune_outcome(input, lowest_start, anchor, range, rows, block, reason) == Ok::<
            SegmentOutput,
            PrunerError<P, D>,
        >(out),
    ensures
        has_to_move(input.previous_checkpoint, lowest_start) ==> anchor is Ok,
        range is Ok,
        range->Ok_0 is None ==> {
            &&& out.progress is Finished
            &&& out.pruned == 0
            &&& out.checkpoint is None
        },
        range->Ok_0 matches Some(txs) ==> {
            &&& call_ensures(prune_rows, (txs, input.limiter), rows)
            &&& rows matches Ok((deleted, limiter))
            &&& out.pruned == deleted.pruned
            &&& out.checkpoint matches Some(checkpoint)
            &&& checkpoint.tx_number matches Some(tx)
            &&& deleted.last_row matches Some(last) ==> tx == last
            &&& deleted.last_row is None ==> tx == txs.end
            &&& call_ensures(transaction_block, (tx,), block)
            &&& block matches Ok(Some(number))
            &&& deleted.done ==> {
                &&& out.progress is Finished
                &&& checkpoint.block_number == Some(number)
            }
            &&& !deleted.done ==> {
                &&& call_ensures(interrupt_reason, (&limiter,), reason)
                &&& out.progress == PruneProgress::HasMoreData(reason)
                &&& match checkpoint.block_number {
                    Some(whole) => whole + 1 == number,
                    None => number == 0,
                }
            }
        },
{
}

/// A run that fails does so with the first reply that stops it: an error of one of the calls that
/// it made, or that no block is known for the last pruned transaction. What came before that
/// reply did not fail.
pub proof fn law_failed_run_gives_the_first_failure<
    L,
    P,
    D,
    Anchor: FnOnce(u64) -> Result<Option<u64>, P>,
    Range: FnOnce(&PruneInput<L>) -> Result<Option<TxRange>, P>,
    Rows: FnOnce(TxRange, L) -> Result<(PrunedRows, L), D>,
    Block: FnOnce(u64) -> Result<Option<u64>, P>,
    Reason: FnOnce(&L) -> PruneInterruptReason,
>(
    input: PruneInput<L>,
    lowest_start: Option<u64>,
    last_tx_of_block: Anchor,
    next_tx_num_range: Range,
    prune_rows: Rows,
    transaction_block: Block,
    interrupt_reason: Reason,
    anchor: Result<Option<u64>, P>,
    range: Result<Option<TxRange>, P>,
    rows: Result<(PrunedRows, L), D>,
    block: Result<Option<u64>, P>,
    reason: PruneInterruptReason,
    error: PrunerError<P, D>,
)
    requires
        are_replies(
            input,
            lowest_start,
            (
                last_tx_of_block,
                next_tx_num_range,
                prune_rows,
                transaction_block,
                interrupt_reason,
            ),
            anchor,
            range,
            rows,
            block,
            reason,
        ),
        prune_outcome(input, lowest_start, anchor, range, rows, block, reason) == Err::<
            SegmentOutput,
            PrunerError<P, D>,
        >(error),
    ensures
        ({
            let moves = has_to_move(input.previous_checkpoint, lowest_start);
            if moves && anchor is Err {
                error == PrunerError::<P, D>::Provider(anchor->Err_0)
            } else if range is Err {
                error == PrunerError::<P, D>::Provider(range->Err_0)
            } else if rows is Err {
                &&& range->Ok_0 matches Some(txs)
                &&& call_ensures(prune_rows, (txs, input.limiter), rows)
                &&& error == PrunerError::<P, D>::Database(rows->Err_0)
            } else {
                &&& range->Ok_0 matches Some(txs)
                &&& call_ensures(prune_rows, (txs, input.limiter), rows)
                &&& rows->Ok_0.0.last_row matches Some(tx) ==> call_ensures(
                    transaction_block,
                    (tx,),
                    block,
                )
                &&& rows->Ok_0.0.last_row is None ==> call_ensures(
                    transaction_block,
                    (txs.end,),
                    block,
                )
                &&& block is Err ==> error == PrunerError::<P, D>::Provider(block->Err_0)
                &&& block is Ok ==> {
                    &&& block->Ok_0 is None
                    &&& error matches PrunerError::InconsistentData(message)
                    &&& message@ == "Block for transaction is not found"@
                }
            }
        }),
{
}

/// A run can be made wherever its calls can be made with any arguments.
pub proof fn law_run_needs_no_more_than_its_calls<
    L,
    P,
    D,
    Anchor: FnOnce(u64) -> Result<Option<u64>, P>,
    Range: FnOnce(&PruneInput<L>) -> Result<Option<TxRange>, P>,
    Rows: FnOnce(TxRange, L) -> Result<(PrunedRows, L), D>,
    Block: FnOnce(u64) -> Result<Option<u64>, P>,
    Reason: FnOnce(&L) -> PruneInterruptReason,
>(
    input: PruneInput<L>,
    lowest_start: Option<u64>,
    last_tx_of_block: Anchor,
    next_tx_num_range: Range,
    prune_rows: Rows,
    transaction_block: Block,
    interrupt_reason: Reason,
)
    requires
        forall|block: u64| #[trigger] call_requires(last_tx_of_block, (block,)),
        forall|start: PruneInput<L>| #[trigger] call_requires(next_tx_num_range, (&start,)),
        forall|range: TxRange, limiter: L| #[trigger] call_requires(prune_rows, (range, limiter)),
        forall|tx: u64| #[trigger] call_requires(transaction_block, (tx,)),
        forall|limiter: L| #[trigger] call_requires(interrupt_reason, (&limiter,)),
    ensures
        accepts_calls(
            input,
            lowest_start,
            last_tx_of_block,
            next_tx_num_range,
            prune_rows,
            transaction_block,
            interrupt_reason,
        ),
{
}

} // verus!

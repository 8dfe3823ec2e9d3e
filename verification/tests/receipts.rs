use reth_node_logic::prune_types::{
    PruneCheckpoint, PruneInput, PruneInterruptReason, PruneMode, PruneProgress, PruneSegment,
    PrunedRows, PrunerError, SegmentOutput, SegmentOutputCheckpoint, TxRange,
};
use reth_node_logic::receipts;
use std::cell::RefCell;
use std::collections::BTreeMap;

/// Bounds the rows that one run deletes.
#[derive(Clone, Debug, Default)]
struct PruneLimiter {
    limit: Option<usize>,
    deleted: usize,
}

impl PruneLimiter {
    fn set_deleted_entries_limit(mut self, limit: usize) -> Self {
        self.limit = Some(limit);
        self
    }

    fn deleted_entries_limit(&self) -> Option<usize> {
        self.limit
    }

    fn increment_deleted_entries_count_by(&mut self, entries: usize) {
        self.deleted += entries;
    }

    fn is_limit_reached(&self) -> bool {
        self.limit.map_or(false, |limit| self.deleted >= limit)
    }

    fn interrupt_reason(&self) -> PruneInterruptReason {
        if self.is_limit_reached() {
            PruneInterruptReason::DeletedEntriesLimitReached
        } else {
            PruneInterruptReason::Unknown
        }
    }
}

/// A block by its number and the count of its transactions.
#[derive(Clone, Copy)]
struct Block {
    number: u64,
    transaction_count: usize,
}

/// An in-memory node database.
#[derive(Default)]
struct TestDb {
    transactions: BTreeMap<u64, u64>,
    last_tx_of_block: BTreeMap<u64, u64>,
    receipts: RefCell<BTreeMap<u64, u64>>,
    checkpoints: RefCell<Vec<(PruneSegment, PruneCheckpoint)>>,
    lowest_static_file_block: Option<u64>,
}

impl TestDb {
    fn insert_blocks(&mut self, blocks: &[Block]) {
        for block in blocks {
            for _ in 0..block.transaction_count {
                let tx = self.transactions.len() as u64;
                self.transactions.insert(tx, block.number);
            }
            self.last_tx_of_block
                .insert(block.number, (self.transactions.len() as u64).saturating_sub(1));
        }
    }

    fn insert_receipts(&self, receipts: &[(u64, u64)]) {
        self.receipts.borrow_mut().extend(receipts.iter().copied());
    }

    fn get_prune_checkpoint(&self, segment: PruneSegment) -> Option<PruneCheckpoint> {
        self.checkpoints.borrow().iter().rev().find(|(s, _)| *s == segment).map(|(_, c)| *c)
    }

    fn next_tx_num_range(&self, input: &PruneInput<PruneLimiter>) -> Option<TxRange> {
        let start =
            input.previous_checkpoint.and_then(|c| c.tx_number).map(|tx| tx + 1).unwrap_or(0);
        let end = *self.last_tx_of_block.get(&input.to_block)?;
        if start > end {
            return None
        }
        Some(TxRange { start, end })
    }

    fn prune_rows(
        &self,
        range: TxRange,
        mut limiter: PruneLimiter,
    ) -> (PrunedRows, PruneLimiter) {
        let mut rows = PrunedRows { pruned: 0, done: false, last_row: None };
        while !limiter.is_limit_reached() {
            let mut receipts = self.receipts.borrow_mut();
            let next = receipts.range(range.start..=range.end).next().map(|(tx, _)| *tx);
            match next {
                Some(tx) => {
                    receipts.remove(&tx);
                    limiter.increment_deleted_entries_count_by(1);
                    rows.pruned += 1;
                    rows.last_row = Some(tx);
                }
                None => {
                    rows.done = true;
                    break
                }
            }
        }
        (rows, limiter)
    }

    fn prune(
        &self,
        input: PruneInput<PruneLimiter>,
    ) -> Result<SegmentOutput, PrunerError<&'static str, &'static str>> {
        receipts::prune(
            input,
            self.lowest_static_file_block,
            |block| Ok(self.last_tx_of_block.get(&block).copied()),
            |input| Ok(self.next_tx_num_range(input)),
            |range, limiter| Ok(self.prune_rows(range, limiter)),
            |tx| Ok(self.transactions.get(&tx).copied()),
            |limiter| limiter.interrupt_reason(),
        )
    }

    fn save_checkpoint(&self, checkpoint: PruneCheckpoint) -> Result<(), &'static str> {
        let write = |segment: PruneSegment, checkpoint: PruneCheckpoint| {
            self.checkpoints.borrow_mut().push((segment, checkpoint));
            Ok(())
        };
        receipts::save_checkpoint(&write, &write, checkpoint)
    }
}

fn block_range(numbers: std::ops::RangeInclusive<u64>) -> Vec<Block> {
    numbers.map(|number| Block { number, transaction_count: 2 }).collect()
}

fn receipts_of(blocks: &[Block]) -> Vec<(u64, u64)> {
    let mut receipts = Vec::new();
    for block in blocks {
        for _ in 0..block.transaction_count {
            receipts.push((receipts.len() as u64, block.number));
        }
    }
    receipts
}

#[test]
fn prune() {
    let mut db = TestDb::default();

    let blocks = block_range(1..=10);
    db.insert_blocks(&blocks);

    let receipts = receipts_of(&blocks);
    let receipts_len = receipts.len();
    db.insert_receipts(&receipts);

    assert_eq!(
        db.transactions.len(),
        blocks.iter().map(|block| block.transaction_count).sum::<usize>()
    );
    assert_eq!(db.transactions.len(), db.receipts.borrow().len());

    let test_prune = |to_block: u64, expected_result: (PruneProgress, usize)| {
        let prune_mode = PruneMode::Before(to_block);
        let mut limiter = PruneLimiter::default().set_deleted_entries_limit(10);
        let input = PruneInput {
            previous_checkpoint: db.get_prune_checkpoint(PruneSegment::Receipts),
            to_block,
            limiter: limiter.clone(),
        };

        let next_tx_number_to_prune = db
            .get_prune_checkpoint(PruneSegment::Receipts)
            .and_then(|checkpoint| checkpoint.tx_number)
            .map(|tx_number| tx_number + 1)
            .unwrap_or_default();

        let last_pruned_tx_number = blocks
            .iter()
            .take(to_block as usize)
            .map(|block| block.transaction_count)
            .sum::<usize>()
            .min(
                next_tx_number_to_prune as usize + input.limiter.deleted_entries_limit().unwrap(),
            ) -
            1;

        let result = db.prune(input).unwrap();
        limiter.increment_deleted_entries_count_by(result.pruned);

        assert!(result.checkpoint.is_some());
        assert_eq!((result.progress, result.pruned), expected_result);

        db.save_checkpoint(result.checkpoint.unwrap().as_prune_checkpoint(prune_mode)).unwrap();

        let mut tx_count = 0;
        let mut last_pruned_block_number = 0;
        for block in &blocks {
            tx_count += block.transaction_count;
            last_pruned_block_number = block.number;
            if tx_count > last_pruned_tx_number {
                break
            }
        }
        let last_pruned_block_number =
            last_pruned_block_number.checked_sub(if result.progress.is_finished() { 0 } else { 1 });

        assert_eq!(db.receipts.borrow().len(), receipts_len - (last_pruned_tx_number + 1));
        assert_eq!(
            db.get_prune_checkpoint(PruneSegment::Receipts),
            Some(PruneCheckpoint {
                block_number: last_pruned_block_number,
                tx_number: Some(last_pruned_tx_number as u64),
                prune_mode
            })
        );
    };

    test_prune(
        6,
        (PruneProgress::HasMoreData(PruneInterruptReason::DeletedEntriesLimitReached), 10),
    );
    test_prune(6, (PruneProgress::Finished, 2));
    test_prune(10, (PruneProgress::Finished, 8));
}

fn prune_with_lowest_static_file(lowest_static_file_block: Option<u64>) -> (TestDb, usize) {
    let mut db = TestDb::default();

    // Blocks with transactions, in the database
    let blocks = block_range(0..=10);
    db.insert_blocks(&blocks);

    // Receipts for all transactions
    let receipts = receipts_of(&blocks);
    db.insert_receipts(&receipts);
    db.lowest_static_file_block = lowest_static_file_block;

    let initial_db_receipts = db.receipts.borrow().len();
    assert_eq!(initial_db_receipts, receipts.len());

    // Pruning with checkpoint alignment to static files
    let prune_mode = PruneMode::Distance(5);
    let tip_block = blocks.last().unwrap().number;
    let to_block = tip_block.saturating_sub(5);

    let input = PruneInput {
        previous_checkpoint: None,
        to_block,
        limiter: PruneLimiter::default().set_deleted_entries_limit(1000),
    };

    let result = db.prune(input).unwrap();

    // Some receipts were pruned
    assert!(result.pruned > 0, "Expected receipts to be pruned");
    assert!(matches!(result.progress, PruneProgress::Finished));

    db.save_checkpoint(result.checkpoint.unwrap().as_prune_checkpoint(prune_mode)).unwrap();

    // The checkpoint was saved correctly
    let checkpoint = db.get_prune_checkpoint(PruneSegment::Receipts);
    assert!(checkpoint.is_some(), "Checkpoint should be saved");
    assert!(checkpoint.unwrap().block_number.is_some(), "Checkpoint should have block number");
    assert_eq!(
        checkpoint,
        Some(PruneCheckpoint { block_number: Some(5), tx_number: Some(11), prune_mode })
    );
    (db, result.pruned)
}

#[test]
fn prune_receipts_from_static_files() {
    // No static file of receipts
    let (db, pruned) = prune_with_lowest_static_file(None);
    assert_eq!(pruned, 12);
    assert_eq!(db.receipts.borrow().keys().copied().take(2).collect::<Vec<u64>>(), vec![12, 13]);

    // Static files from the first block on: the run goes on after its transactions
    let (db, pruned) = prune_with_lowest_static_file(Some(0));
    assert_eq!(pruned, 10);
    assert_eq!(db.receipts.borrow().keys().copied().take(3).collect::<Vec<u64>>(), vec![0, 1, 12]);
}

fn checkpoint(block_number: Option<u64>, tx_number: Option<u64>) -> PruneCheckpoint {
    PruneCheckpoint { block_number, tx_number, prune_mode: PruneMode::Distance(7) }
}

#[test]
fn anchor_is_the_block_before_the_lowest_static_file() {
    assert_eq!(receipts::static_file_anchor(None, None), None);
    assert_eq!(receipts::static_file_anchor(None, Some(100)), Some(99));
    assert_eq!(receipts::static_file_anchor(None, Some(0)), Some(0));
    let anchor = |block, start| receipts::static_file_anchor(Some(checkpoint(block, None)), start);
    assert_eq!(anchor(None, Some(0)), Some(0));
    assert_eq!(anchor(None, None), None);
    assert_eq!(anchor(Some(98), Some(100)), Some(99));
    assert_eq!(anchor(Some(99), Some(100)), Some(99));
    assert_eq!(anchor(Some(100), Some(100)), None);
    assert_eq!(anchor(Some(0), Some(0)), None);
    assert_eq!(anchor(Some(101), Some(100)), None);
}

#[test]
fn anchored_input_keeps_mode_target_and_limiter() {
    let input = PruneInput {
        previous_checkpoint: Some(checkpoint(Some(3), Some(8))),
        to_block: 50,
        limiter: "limiter",
    };
    let input = receipts::anchor_input(input, 19, 41);
    assert_eq!(input.previous_checkpoint, Some(checkpoint(Some(19), Some(41))));
    assert_eq!((input.to_block, input.limiter), (50, "limiter"));

    let input = PruneInput { previous_checkpoint: None, to_block: 50, limiter: () };
    assert_eq!(
        receipts::anchor_input(input, 0, 0).previous_checkpoint,
        Some(PruneCheckpoint {
            block_number: Some(0),
            tx_number: Some(0),
            prune_mode: PruneMode::Full,
        })
    );
}

#[test]
fn unfinished_run_reports_the_block_before() {
    let range = TxRange { start: 4, end: 20 };
    let rows = PrunedRows { pruned: 3, done: false, last_row: Some(6) };
    let reason = PruneInterruptReason::Timeout;
    assert_eq!(
        receipts::segment_output(range, rows, 9, reason),
        SegmentOutput {
            progress: PruneProgress::HasMoreData(reason),
            pruned: 3,
            checkpoint: Some(SegmentOutputCheckpoint {
                block_number: Some(8),
                tx_number: Some(6)
            }),
        }
    );
    assert_eq!(
        receipts::segment_output(range, rows, 0, reason).checkpoint.unwrap().block_number,
        None
    );

    let rows = PrunedRows { pruned: 0, done: true, last_row: None };
    assert_eq!(
        receipts::segment_output(range, rows, 9, reason),
        SegmentOutput {
            progress: PruneProgress::Finished,
            pruned: 0,
            checkpoint: Some(SegmentOutputCheckpoint {
                block_number: Some(9),
                tx_number: Some(20)
            }),
        }
    );
    assert_eq!(receipts::last_pruned_transaction(range, &rows), 20);
}

#[test]
fn nothing_to_prune_is_done() {
    let db = TestDb::default();
    let input =
        PruneInput { previous_checkpoint: None, to_block: 3, limiter: PruneLimiter::default() };
    assert_eq!(db.prune(input), Ok(SegmentOutput::done()));
    assert_eq!(
        SegmentOutput::done(),
        SegmentOutput { progress: PruneProgress::Finished, pruned: 0, checkpoint: None }
    );
    assert!(PruneProgress::Finished.is_finished());
    assert!(!PruneProgress::HasMoreData(PruneInterruptReason::Unknown).is_finished());
}

#[test]
fn unknown_anchor_block_leaves_the_checkpoint() {
    let mut db = TestDb::default();
    db.insert_blocks(&block_range(1..=3));
    db.insert_receipts(&receipts_of(&block_range(1..=3)));
    db.lowest_static_file_block = Some(1);
    // Block 0 is not in the database: the run goes on from the first transaction
    let input =
        PruneInput { previous_checkpoint: None, to_block: 2, limiter: PruneLimiter::default() };
    let output = db.prune(input).unwrap();
    assert_eq!(output.pruned, 4);
    assert_eq!(
        output.checkpoint,
        Some(SegmentOutputCheckpoint { block_number: Some(2), tx_number: Some(3) })
    );
}

#[test]
fn limiter_that_allows_no_row_reports_the_range_end() {
    let mut db = TestDb::default();
    db.insert_blocks(&block_range(1..=3));
    db.insert_receipts(&receipts_of(&block_range(1..=3)));
    let limiter = PruneLimiter::default().set_deleted_entries_limit(0);
    let input = PruneInput { previous_checkpoint: None, to_block: 2, limiter };
    assert_eq!(
        db.prune(input),
        Ok(SegmentOutput {
            progress: PruneProgress::HasMoreData(PruneInterruptReason::DeletedEntriesLimitReached),
            pruned: 0,
            checkpoint: Some(SegmentOutputCheckpoint {
                block_number: Some(1),
                tx_number: Some(3)
            }),
        })
    );
    assert_eq!(db.receipts.borrow().len(), 6);
}

/// Runs with the given replies and collects the arguments of the calls.
fn run(
    anchor: Result<Option<u64>, u8>,
    range: Result<Option<TxRange>, u8>,
    rows: Result<PrunedRows, u16>,
    block: Result<Option<u64>, u8>,
) -> (Result<SegmentOutput, PrunerError<u8, u16>>, Vec<String>) {
    let calls = RefCell::new(Vec::new());
    let call = |text: String| calls.borrow_mut().push(text);
    let result = receipts::prune(
        PruneInput {
            previous_checkpoint: Some(checkpoint(Some(5), Some(10))),
            to_block: 30,
            limiter: 1u32,
        },
        Some(20),
        |block| {
            call(format!("anchor {}", block));
            anchor
        },
        |input| {
            let from = input.previous_checkpoint.unwrap();
            call(format!(
                "range {:?} {:?} {} {}",
                from.block_number, from.tx_number, input.to_block, input.limiter
            ));
            range
        },
        |range, limiter| {
            call(format!("rows {} {} {}", range.start, range.end, limiter));
            rows.map(|rows| (rows, limiter + 1))
        },
        |tx| {
            call(format!("block {}", tx));
            block
        },
        |limiter| {
            call(format!("reason {}", limiter));
            PruneInterruptReason::Timeout
        },
    );
    (result, calls.into_inner())
}

#[test]
fn calls_are_made_in_order_with_what_came_before() {
    let range = Ok(Some(TxRange { start: 41, end: 60 }));
    let rows = Ok(PrunedRows { pruned: 5, done: false, last_row: Some(45) });
    let (result, calls) = run(Ok(Some(40)), range, rows, Ok(Some(22)));
    assert_eq!(
        calls,
        vec![
            "anchor 19",
            "range Some(19) Some(40) 30 1",
            "rows 41 60 1",
            "block 45",
            "reason 2"
        ]
    );
    assert_eq!(
        result,
        Ok(SegmentOutput {
            progress: PruneProgress::HasMoreData(PruneInterruptReason::Timeout),
            pruned: 5,
            checkpoint: Some(SegmentOutputCheckpoint {
                block_number: Some(21),
                tx_number: Some(45)
            }),
        })
    );
    let (_, calls) = run(Ok(None), Ok(None), rows, Ok(None));
    assert_eq!(calls, vec!["anchor 19", "range Some(5) Some(10) 30 1"]);
}

#[test]
fn failed_calls_end_the_run() {
    let range = Ok(Some(TxRange { start: 41, end: 60 }));
    let rows = Ok(PrunedRows { pruned: 0, done: true, last_row: None });
    let (result, calls) = run(Err(1), range, rows, Ok(Some(22)));
    assert_eq!((result, calls.len()), (Err(PrunerError::Provider(1)), 1));
    let (result, calls) = run(Ok(None), Err(2), rows, Ok(Some(22)));
    assert_eq!((result, calls.len()), (Err(PrunerError::Provider(2)), 2));
    let (result, calls) = run(Ok(None), range, Err(3), Ok(Some(22)));
    assert_eq!((result, calls.len()), (Err(PrunerError::Database(3)), 3));
    let (result, calls) = run(Ok(None), range, rows, Err(4));
    assert_eq!((result, calls.len()), (Err(PrunerError::Provider(4)), 4));
    let (result, calls) = run(Ok(None), range, rows, Ok(None));
    assert_eq!(
        result,
        Err(PrunerError::InconsistentData("Block for transaction is not found"))
    );
    assert_eq!(calls.last().unwrap(), "block 60");
}

#[test]
fn resumed_run_completes_the_range() {
    let mut db = TestDb::default();
    let blocks = block_range(1..=4);
    db.insert_blocks(&blocks);
    db.insert_receipts(&receipts_of(&blocks));
    let mut previous_checkpoint = None;
    let mut progress = Vec::new();
    for _ in 0..3 {
        let limiter = PruneLimiter::default().set_deleted_entries_limit(3);
        let input = PruneInput { previous_checkpoint, to_block: 3, limiter };
        let output = db.prune(input).unwrap();
        progress.push((output.progress.is_finished(), output.pruned));
        previous_checkpoint =
            output.checkpoint.map(|c| c.as_prune_checkpoint(PruneMode::Full)).or(previous_checkpoint);
    }
    assert_eq!(progress, vec![(false, 3), (false, 3), (true, 0)]);
    assert_eq!(db.receipts.borrow().keys().copied().collect::<Vec<u64>>(), vec![6, 7]);
}

#[test]
fn save_checkpoint_writes_receipts_then_contract_logs() {
    let db = TestDb::default();
    let saved = checkpoint(Some(1), Some(2));
    db.save_checkpoint(saved).unwrap();
    assert_eq!(
        *db.checkpoints.borrow(),
        vec![(PruneSegment::Receipts, saved), (PruneSegment::ContractLogs, saved)]
    );
}

#[test]
fn save_checkpoint_stops_at_the_first_failure() {
    for (failing, expected) in [
        (PruneSegment::Receipts, vec![PruneSegment::Receipts]),
        (PruneSegment::ContractLogs, vec![PruneSegment::Receipts, PruneSegment::ContractLogs]),
    ] {
        let writes = RefCell::new(Vec::new());
        let write = |segment: PruneSegment, _: PruneCheckpoint| {
            writes.borrow_mut().push(segment);
            if segment == failing {
                Err("full")
            } else {
                Ok(())
            }
        };
        let result = receipts::save_checkpoint(&write, &write, checkpoint(None, None));
        assert_eq!(result, Err("full"));
        assert_eq!(*writes.borrow(), expected);
    }
}

fn pruned_db(lowest_static_file_block: Option<u64>) -> TestDb {
    let mut db = TestDb { lowest_static_file_block, ..TestDb::default() };
    let blocks = block_range(1..=8);
    db.insert_blocks(&blocks);
    db.insert_receipts(&receipts_of(&blocks));
    db
}

#[test]
fn counts_of_an_interrupted_and_a_resumed_run_add_up() {
    let db = pruned_db(None);
    let limiter = PruneLimiter::default().set_deleted_entries_limit(5);
    let first =
        db.prune(PruneInput { previous_checkpoint: None, to_block: 6, limiter }).unwrap();
    assert!(!first.progress.is_finished());
    // The third block is begun, so it does not count as pruned
    let reported = first.checkpoint.unwrap();
    assert_eq!((reported.block_number, reported.tx_number), (Some(2), Some(4)));
    assert!(db.receipts.borrow().values().all(|block| *block > 2));

    let input = PruneInput {
        previous_checkpoint: Some(reported.as_prune_checkpoint(PruneMode::Full)),
        to_block: 6,
        limiter: PruneLimiter::default(),
    };
    let second = db.prune(input).unwrap();
    assert!(second.progress.is_finished());
    assert_eq!((first.pruned, second.pruned), (5, 7));
    assert_eq!(db.receipts.borrow().keys().copied().collect::<Vec<u64>>(), vec![12, 13, 14, 15]);
}

#[test]
fn run_interrupted_in_the_first_static_file_block_starts_at_the_anchor_again() {
    let db = pruned_db(Some(4));
    let limiter = PruneLimiter::default().set_deleted_entries_limit(1);
    let first = db.prune(PruneInput { previous_checkpoint: None, to_block: 6, limiter }).unwrap();
    let reported = first.checkpoint.unwrap();
    assert_eq!((reported.block_number, reported.tx_number), (Some(3), Some(6)));
    let previous_checkpoint = Some(reported.as_prune_checkpoint(PruneMode::Full));
    assert_eq!(receipts::static_file_anchor(previous_checkpoint, Some(4)), Some(3));

    let limiter = PruneLimiter::default();
    let second = db.prune(PruneInput { previous_checkpoint, to_block: 6, limiter }).unwrap();
    assert!(second.progress.is_finished());
    assert_eq!((first.pruned, second.pruned), (1, 5));
    assert_eq!(
        db.receipts.borrow().keys().copied().collect::<Vec<u64>>(),
        vec![0, 1, 2, 3, 4, 5, 12, 13, 14, 15]
    );
}

#[test]
fn lagging_run_is_a_run_from_the_anchor() {
    let run = |lowest, previous_checkpoint| {
        let db = pruned_db(lowest);
        let limiter = PruneLimiter::default().set_deleted_entries_limit(3);
        let output = db.prune(PruneInput { previous_checkpoint, to_block: 6, limiter }).unwrap();
        let left = db.receipts.borrow().keys().copied().collect::<Vec<u64>>();
        (output, left)
    };
    let lagging = run(Some(4), Some(checkpoint(Some(1), Some(1))));
    assert_eq!(lagging, run(None, Some(checkpoint(Some(3), Some(5)))));
    // Block 3 ends with transaction 5: nothing up to it is deleted
    assert_eq!(lagging.1, vec![0, 1, 2, 3, 4, 5, 9, 10, 11, 12, 13, 14, 15]);
    assert_eq!(lagging.0.pruned, 3);
}

# reth_node_logic

Verified logic of an Ethereum node, written in Verus:

- `hardfork_overrides`, `hardforks`: command line overrides of hardfork activations and the
  fork schedule that they change;
- `receipts`, `receipts_laws`, `prune_types`: pruning of receipts, the checkpoint that a run
  starts from and the one that it reports;
- `hashed_cursor`, `hashed_cursor_laws`: cursors over hashed accounts, and over hashed storage
  that share one database cursor.

`src/` is the verified library. `app/` connects it to a command line and to a node's storage.
`tests/` runs it on in-memory storage.

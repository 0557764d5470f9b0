# op-rbuilder

An Optimism block builder whose decisions are verified with Verus.

A builder waits for its node most of the time: for a sender, a nonce, the EVM, the pool, a root.
So each build is a machine: `next` says what the node should do, an event reports what came of it,
and between two events the machine decides. The contracts say what it decides, and for each machine
a predicate `wf` says what holds between any two steps of any build.

- `src/` is the library.
  - `components/`: the context of a payload, what a block has taken up so far, and the executor that
    counts its gas.
  - `actions/`: the steps that strategies are composed of. `tx_executor` runs the transactions of
    the sequencer, of the pool and of the builder; `trace` says what holds of such a run as a whole;
    `payload` seals the block.
  - `payload_builder_vanilla`: one payload per build.
  - `builder_flashblocks`: a block that is published while it grows. `payload_builder` and
    `tx_executor` do the same with an executor of each batch that settles receipts and fees itself;
    `batch_trace` says what holds of such a run as a whole.
  - `publish`: who stays subscribed.
  - `chain`, `errors`, `primitives`, `u256`, `subsequence`: what the others speak of.

  A strategy implements two traits. `OpTransactionsActions` screens the transactions of the pool: a
  strategy may be choosier than the library's own, and what is stated of a run still holds.
  `DefaultBuilderTxActions` gives the message of the builder's transaction.
- `tests/` runs the library, with the outside crates that it calls.
- `app/` is the builder in its node: it drives the builds, executes transactions with revm, and
  publishes payloads over websockets. What only the node can do stands behind the traits of
  `app/node.rs`.

Functions whose names begin with `law_` state what holds of the library as a whole. What is taken on
trust stands in the functions marked `external_body`: arithmetic of `alloy_primitives::U256`, the
trie root, the bloom filter, the header hash and two constants of alloy, and the Holocene extra data
of op-alloy.

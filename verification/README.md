# consensus

The adapter between a consensus engine and a chain, with its decisions verified by Verus.

- `src/` decides: which block a node proposes, whether it accepts the block of another, and what is
  asked of the pool, the executor and the storage, and in which order, once a block is agreed on.
  `src/laws.rs` states what holds between these operations.
- `app/` performs: it holds the lock, reads the clock, awaits the services and hands their answers
  to the library.

The encodings, the hash functions and the default values of the chain and of the engine enter the
library through the trait `ChainCodec`: a node has them from its `protocol` and `common_merkle` crates
and from the engine that it is built with, which are parts of the node itself and not to be had as
dependencies.
The library relies on nothing that they return: its contracts say what is handed to them and what
follows from the answer.

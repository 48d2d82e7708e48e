# sequencer_origin

L1 origin lookup and prefetching for a rollup sequencer, verified with Verus.

- `src/config.rs`: sync mode and sequencer configuration.
- `src/primitives.rs`, `src/header.rs`, `src/receipt.rs`: hashes, block headers and receipts.
- `src/origin.rs`: prepared origins and lookup errors.
- `src/provider.rs`: the lookup of an origin by hash or by number, behind a confirmation depth.
- `src/prefetched_chain_provider.rs`: header and receipts requests, served from the prepared
  origin or by a bounded fallback.
- `src/transport.rs`: the errors of the RPC transport.
- `app/`: the asynchronous providers, which perform the requests that the library asks for.

A lookup never performs I/O itself. It says what to fetch, and takes the reply.

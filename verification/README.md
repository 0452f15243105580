# tari_dan

Verified core logic of the Tari digital-asset network layer, written in Verus.

- `src/` — the library, every function verified:
  - `template_crypto`: 32-byte public keys, 64-byte balance-proof signatures
    and their length errors;
  - `hash`, `types`, `quorum_certificate`: 32-byte hashes and their byte-wise
    order, epochs, heights, block ids, and quorum certificates whose leaf
    hashes are sorted and whose id is the BLAKE2b hash of their content;
  - `message`, `payload`, `store`, `error`: consensus messages, payloads,
    the state-store interface and consensus errors;
  - `rpc`: how the replies of a validator node are read;
  - `component`, `non_fungible`: the invocations and requests that templates
    hand to the engine;
  - `confidential`: confidential proofs made with `tari_crypto`;
  - `digest`, `text`: byte framing, the hash wrapper, decimal and hex text.
- `tests/` — tests of the library on concrete values.
- `app/` — ordinary Rust around it: serde forms, the RPC client over a
  transport, closure-taking builders and in-memory network mocks.

`critical-section` (with its `std` feature) is listed among the dependencies
although no file names it: `tari_crypto` turns on `once_cell`'s
`critical-section` support, which needs an implementation of the critical
section to be linked, and this is the one for hosted targets.

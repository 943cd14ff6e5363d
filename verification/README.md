# shieldcoinbase

The `z_shieldcoinbase` method of a Zcash wallet's JSON-RPC interface, written in Rust and
verified with Verus. The method moves coinbase UTXOs at transparent addresses of a wallet to a
shielded address.

- `src/` is the verified library. It reads the parameters, resolves the source, decides what the
  wallet is asked at each step, counts what is shielded and what remains, and puts the keys
  together. `src/call.rs` holds the course of a call: each type there waits for one answer of the
  wallet and says how the call goes on. `src/laws.rs` holds what is proved of the method as a
  whole.
- `app/` runs a call against a wallet database, a key store and the network.
- `tests/` runs the library on concrete values.

What is believed without proof is marked `#[verifier::external_body]`: calls into `uuid`,
`zcash_address`, `zcash_keys`, `zcash_protocol`, `zcash_script` and `zcash_transparent`, and the
standard library's quoting of strings. The comment above each says what is claimed of it.

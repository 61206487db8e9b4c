# pallet_whitelist

A whitelist of call hashes, verified with Verus. A privileged origin whitelists the hash of a
call; another origin may then dispatch the call with that hash as root, once. Unsigned
submissions of a whitelisted call can be admitted by the authorization callbacks when the
runtime enables authorized dispatch.

The pallet is a state (the whitelisted hashes, and the ordered record of the preimage requests
and events it has issued) with verified transitions. The runtime around it hands in what only
it knows (whether an origin passed a check, what the preimage store returned, the decoded call's
weight, the dispatched call's result) as plain values.

- `src/weight.rs` — two-dimensional weights.
- `src/types.rs` — errors, events, effects, dispatch and transaction-validity values.
- `src/hashing.rs` — `BlakeTwo256` hashing of calls and SCALE encoding of hashes.
- `src/spec.rs` — the state as a mathematical value and each operation as a function of it.
- `src/validity.rs` — every operation keeps one preimage request per whitelisted hash.
- `src/pallet.rs` — the executable pallet, each operation proved to follow `spec.rs`.
- `src/preimages.rs` — `NoopPreimages`, a preimage handler that stores nothing.
- `src/laws.rs` — laws that relate the operations.

# logos-time

The TIME Protocol module for Logos Core. `src/` is the verified core
(Verus); `app/` is the plugin runtime around it (tokio tasks, the Waku and
chain plumbing, serde wire types, the C entry point).

- `src/types.rs` — work agreements, mint events, Work NFT metadata, status counters.
- `src/waku_listener.rs` — validation of received agreements, forwarding counts.
- `src/signing.rs` — the EIP-712 digest of an agreement and the check of its signatures.
- `src/mint_trigger.rs` — the pending-agreement queue, mint confirmation, Work NFT metadata.
- `src/birthright.rs` — day numbers and the tick schedule of the birthright clock.
- `src/service.rs`, `src/lib.rs` — module health.
- `src/config.rs` — configuration defaults.
- `src/trusted.rs` — Keccak-256, secp256k1 signer recovery and U256 rendering from `alloy_primitives`, the system clock.

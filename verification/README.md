# simplex_rs

The core of the **Simplex BFT consensus** protocol, written in Verus: executable Rust whose
behaviour is stated in `requires` / `ensures` contracts and proved.

The engine (`Simplex`) is generic over four traits that the host implements:

| Trait | Role |
|---|---|
| `StateMachine<P>` | the replicated application: validate and apply commands, report the state digest |
| `Network<P>` | message transport: broadcast / point-to-point send |
| `CryptoProvider` | hash and signature verification |
| `Signer` | signatures of this replica, and its `NodeId` |

Each trait follows the `obeys_*` pattern of vstd: an implementation that defines the trait's
spec functions (for instance `CryptoProvider::digest_of` and `verification`) and sets
`obeys_crypto_spec` to `true` gets the engine's contracts in full; for any other
implementation the contracts claim nothing of what its methods return.

## Layout

- `src/types.rs`: `NodeId`, `Height`, `Digest`, `CommitteeSet` (round-robin leaders, quorum
  size), with the proofs of leader rotation and quorum intersection.
- `src/config.rs`: `Config` and the exponential back-off of the view timeout, with its proofs.
- `src/error.rs`: `ConsensusError`.
- `src/message.rs`: the protocol messages.
- `src/crypto.rs`, `src/network.rs`, `src/state.rs`: the host traits.
- `src/protocol.rs`: the engine, the bytes that votes and timeouts sign, and their proofs.
- `app/`: host-side glue that Verus does not see: the wire types with their serde derives,
  the error type with its messages (thiserror), and `deliver`, which serializes a proposal with
  bincode before handing it to the engine.
- `tests/`: tests of the library on concrete values.

## Driving the engine

```rust
let mut engine = Simplex::new(config, my_network, my_state, my_crypto, my_signer);
// A replica votes for the digest of the serialized proposal: pass those bytes along
// (app/'s `deliver` does this with bincode).
engine.on_message(from, msg, &proposal_bytes)?;
engine.start_view(0)?;
```

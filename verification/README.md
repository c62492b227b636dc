# openlv

Open Lavatory connects a dApp (the host) and a wallet (the client) peer to peer. This is
the verified logic of such a connection, written in Verus.

- `src/session/` holds the sessions: configuration (`config`), setup from key material
  (`setup`), the start and the end (`start`, `close`) and the state machine that the
  signaling layer and the transport drive (`state`, `link`), requests and their answers
  (`send`, `exchange`, `serve`), the choice of a transport (`transport_choice`), and what
  holds of sessions as a whole (`laws`).
- `src/provider/` makes a session a JSON-RPC transport, `src/wallet/` a remote wallet.
- `src/json.rs` says what the library relies on of `serde_json`; the few other outside
  calls stand next to their callers in `message`, `provider::dispatch` and `wallet`.
- `app/` runs sessions: it performs the I/O on `tokio`, hands what came of it to the
  library and does what the library says. The signaling, transport and key layers are
  behind traits there.
- `tests/` runs the library with the real outside crates.

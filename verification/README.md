# secure_websocket

A QKD-keyed secure chat: clients and servers talk over WebSockets, every
message is sealed in a Noise `XXpsk2_25519_AESGCM_SHA256` session, and the
pre-shared keys come from an ETSI GS QKD 014 key management entity (KME).

`src/` is the verified library (Verus):

- `config` – the configuration types (general, entities, KME, Noise, WebSocket).
- `error` – `QkdError`, `NoiseError` and their texts.
- `text` – trimming, ASCII case-insensitive comparison, decimal rendering.
- `qkd` – which entity asks for which peer's key, the `enc_keys` request,
  how a KME reply (base64) becomes a key, mTLS material from PEM files.
- `noise` – handshake set-up and steps for both roles, transport sessions
  (over `snow`).
- `rekey` – the server's session with random 30–120 s key rotation and
  message counting, and the timer's step (seal the rekey command under the
  old keys, then rotate only once it was sent).
- `chat` – chat messages, console line meanings, delivery rules, name exchange.
- `registry` – connected clients, the per-client pre-shared key store,
  console actions and connection admission.

`app/` holds the programs (`server`, `client`, `bob`, `qkd_server`, `example`)
and the async key API: file and network I/O, JSON and TOML (serde copies of
the library's types), and the task loops that carry out the library's decisions.

# gradium

A client for the Gradium voice API (text-to-speech and speech-to-text over
WebSockets), with its logic written in Verus and proved against its contracts.

- `src/` is the verified library:
  - `client.rs`: client configuration, builders, base-URL handling and the
    endpoint URLs;
  - `handshake.rs`: the WebSocket URL and authentication headers of a
    connection, checked through `tungstenite`/`http` before connecting;
  - `frames.rs`: what the client does with each WebSocket frame it reads;
  - `protocol/`: the protocol messages and audio formats;
  - `tts.rs`, `stt.rs`: how sessions read the server's messages, the requests
    they send, how one-shot requests collect their results (as state machines
    driven by the caller), and the laws about what they collect;
  - `codec.rs`, `text.rs`: base64 through the `base64` crate, and string helpers.
- `app/` is the network side: WebSocket and HTTP connections, JSON encoding of
  the messages (copies of the message types with serde derives), environment
  lookups, and the loops that drive the sessions.
- `tests/` exercises the library on concrete values.

Times in seconds that the server reports are carried in the library as the bit
patterns of their `f64` values.

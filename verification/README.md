# wt_rs

WebTransport over HTTP/3 on QUIC, with its protocol logic verified by Verus.

- `src/` is the verified library: QUIC varint coding (`coding`), HTTP/3
  frames, settings, stream types and the extended CONNECT checks (`h3`), and
  what a session decides about its settings, handshake and incoming streams
  (`settings`, `connect`, `conn`, `endpoint`). The byte buffers of the
  `bytes` crate and the few `quinn` calls it makes are declared in
  `buffers` and `quic`, behind trusted contracts.
- `app/` holds the asynchronous stream and connection handling on top of
  `quinn`: reading and writing streams, the settings and CONNECT exchanges,
  and the polling that picks WebTransport streams out of the incoming ones.
  QPACK coding of header blocks is supplied by the user through
  `h3::connect::FieldCodec`.
- `tests/` exercises the library on concrete values.

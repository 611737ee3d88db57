# sada

Voice chat integration for Space Station 13: a WebRTC voice server, a
signaling endpoint for browser clients, and a bridge library through which
the BYOND game server talks to the voice server over a Unix socket.

- `src/` is the verified library (Verus): control frame handling, the
  control protocol's answers, the bridge's request decisions, BYOND argument
  conversion, signaling decisions, per-session audio slot bookkeeping and
  renegotiation, the session logic around the WebRTC engine, audio counters
  and host address selection.
- `app/` is the program around it: the server's `main`, sockets, timers,
  WebSocket handling, serde encodings, configuration loading, the audio dump
  and the functions exported to BYOND.
- `tests/` exercises the library on concrete values.

# voxbridge

The verified core of a real-time voice translation backend (microphone →
realtime translation service over WebSocket → speakers).

- `src/` — the library, verified with Verus:
  - `audio.rs` — PCM16 little-endian framing, the integer linear-interpolation
    resampler, channel replication for playback, device lists and lookup.
  - `settings.rs` — stored settings, partial updates, the key-free view.
  - `session.rs` — the one-session-at-a-time manager, the reconnect loop
    (retries with capped exponential backoff), the handling of each event of a
    connected session and of the wait for the close acknowledgement,
    transcript ids and notices.
  - `websocket.rs` — the text of the client events, base64 encoding and
    decoding (with the round-trip law), reading server events,
    handshake headers, the safety identifier, incoming frames.
  - `virtual_mic.rs` — the virtual-microphone sink trait and its no-op sink.
  - `text.rs` — digits of numbers in a radix, appending to strings.
- `app/` — the Tauri application around it: cpal streams, the socket,
  settings on disk, the frontend commands, and the floating-point capture path.
- `tests/` — tests of the library.

# rustwave

The RustWave HTTP service carries files over the air as AFSK audio: it
encodes uploads into WAVs and forwards them to a broadcaster, decodes
received WAVs and queues the restored files for ChanNet, and proxies
ChanNet commands.

- `src/` is the verified library (Verus): the error type and its JSON
  envelope, the FIFO queue of decoded files with its bound, the decisions
  of each endpoint (upload checks, settling of codec tasks, answers of the
  broadcaster and of ChanNet, response bodies, download names), and the
  queue laws in `src/laws.rs`.
- `app/` is the program around it: command line, logging, the axum router
  and handlers, the HTTP client calls, and the AFSK codec calls.
- `tests/` runs the library on concrete values.

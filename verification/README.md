# sentiric-tts-gateway

The Sentiric text-to-speech gateway: the single entry point for speech
synthesis, which routes each request to a speech engine by its voice
selector (`mms:` to MMS, every other selector to Coqui), answers as
unavailable when that engine cannot be reached, and otherwise relays the
engine's audio stream to the caller.

- `src/` is the library, verified with Verus: request admission, routing,
  the streaming call's steps, upstream requests, audio relay, error statuses, the
  unary HTTP proxy's decisions, settings and their defaults, the health
  endpoint, and the structured log line. Its modules are `routing`,
  `synthesis`, `error`, `proxy`, `config`, `app`, `upstream`, `health`,
  `logger` and `text` (the character-level operations they share).
- `app/` is the program around it: gRPC (tonic) and HTTP (hyper, reqwest)
  servers and clients, TLS files, the tracing subscriber and process start-up.
- `tests/` runs the library on concrete values.

# linglisten

The verified core of LingListen, a meeting recorder that transcribes through
a local qwen3-asr server or any OpenAI-compatible transcription server.

- `src/` — the library, checked by Verus:
  - `wav` — 16-bit mono PCM to WAV encoding, with the header as a specification;
  - `text` — trimming, trailing-character stripping, decimal rendering, joining;
  - `json` — the JSON tree that replies are read from and bodies are built in;
  - `openai` — endpoint URLs, model listings, connection tests, transcription
    requests and replies;
  - `asr` — routes and replies of the qwen3-asr server, and the decisions of
    starting it and waiting until it is ready;
  - `config`, `desktop`, `engines`, `permissions` — settings and their
    defaults, and the parts of the desktop shell that decide something.
- `tests/` — tests of the library.
- `app/` — the shell around it: HTTP, the server process, `serde` copies of
  the records, and the conversion of float samples to 16-bit PCM.

# local_companion

The backend of a desktop AI companion (VRM avatar, speech, screen awareness),
split into a verified library and a thin application around it.

## `src/` — the verified library (Verus)

- `text` — strings as `Seq<char>`: `trim`, `trim_matches`, `starts_with`,
  `ends_with`, `find`, `rfind`, `contains`, stated as spec functions and
  computed by verified code; `str::to_lowercase` is called behind a named
  trusted wrapper.
- `json` — JSON documents read one level at a time through `serde_json`
  (one trusted wrapper, `parse_json`); member lookup, indexing and strings
  are verified code over that wrapper's named result.
- `reply` — cleaning a model's reply: code fences, `(feeling: …)` markers,
  JSON replies with `text`/`emotion`, line filtering and joining.
- `settings` — the settings record, its defaults, and the vision service
  configuration derived from it.
- `capture` — planning a screenshot question (provider checks, routes,
  bearer keys) and reading the answer.
- `chat` — Ollama, Groq and OpenRouter request planning, answer reading,
  the retry policy, model lists and endpoint normalization.
- `speech` — planning ElevenLabs text-to-speech.
- `vision` — paths, pip options, arguments and environment of the helper
  processes.
- `encoding` — base64 and data URLs (a wrapper over the `base64` crate,
  whose padded RFC 4648 output is stated as a spec function) and decimal
  numbers.
- `emotion` — the classifier's example sentences, token-row fitting, and
  the places where its model, tokenizer and ONNX Runtime library are looked for.
- `laws` — properties proved of the functions above on all inputs.

## `app/` — the application

HTTP (axum) and WebSocket (tokio-tungstenite) servers, HTTP calls (reqwest),
helper processes, settings on disk, serde copies of the library's records,
and the ONNX emotion model (floating point), all calling into the library for
their decisions.

Two things of the application differ from a full build:

- The screenshot itself is taken with the `screenshots` crate, which is left
  out of `Cargo.toml`: its dependency tree comes to over 600 MiB of sources.
  `app/servers.rs` still calls it, so the application does not type-check
  until that dependency is added.
- The vision helper's script (`screen_vision_service.py`) and its
  requirements list are read at run time from beside the executable, where
  the installer places them, rather than compiled into the binary; the two
  files are not part of this repository.

## `tests/`

Concrete-value tests of every public function, of each law and of the three
trusted wrappers.

# yap_core

The core of Yap, a push-to-talk dictation app: hold a key, speak, release,
and the transcript is pasted where you are typing. This crate is written in
Verus; every function in `src/` carries a contract. Verus proves all of
them except the thin `#[verifier::external_body]` functions that call std
or an outside crate (string and path conversions, `Path::join`, sorting and
deduplicating paths, URL and JSON parsing, the user's directories): their
contracts are believed, and each one's doc comment says what it claims.

## Layout

- `src/dictation.rs` — the dictation runtime as a state machine: each
  handler (hotkey, overlay, timers, recorder and pipeline results,
  permission prompts) maps the runtime to its next state and the list of
  actions the application performs.
- `src/dictation_laws.rs` — properties across the handlers: well-formedness
  is kept, stale timers do nothing, `stop` quiesces, the tutorial only moves
  forward, hold-to-talk ends in processing.
- `src/pipeline.rs` — what follows a transcription and a formatting step,
  and how errors are classified for the user.
- `src/model_manager.rs` — the Whisper model catalogue: curated models,
  Hugging Face search results, installed files, download checks and
  progress accounting. `src/model_laws.rs` states properties of search
  results and of the catalogue listing. `src/commands.rs` holds the commands
  the settings window sends.
- `src/local_whisper.rs` — where a configured local model is looked for, and
  the language hint given to Whisper.
- `src/audio_ducking.rs`, `src/sidecar.rs`, `src/speech.rs`,
  `src/windows.rs`, `src/rpc.rs` — the decisions around background audio,
  the overlay helper, on-device speech recognition, the app's windows and the
  request protocol.
- `src/text.rs` — character-level string helpers with exact contracts.
- `app/` — the `yap-core` process: the request loop on standard input and
  output, file system and network work, and platform calls.
- `tests/` — tests on concrete values.

The file system, the network, processes and the platform's audio APIs are
reached through closures or values that the application hands in; contracts
state what the library does with whatever they return.

# voice_assistant

A local voice assistant for the terminal: it listens (Vosk), answers with a
local language model (Ollama), speaks (VOICEVOX), keeps chat sessions on disk
and announces breaking news from RSS feeds.

- `src/` is the verified library: the key map and screen state
  (`app_state`, `display`, `layout`), session files and their listing
  (`session`), how an utterance is answered (`assistant`), the news monitor
  (`news`), start-up probing (`services`), the speech engine's request URLs
  (`voicevox`), transcripts from recognizer output (`transcribe`), and the
  character-level text operations they share (`text`).
- `app/` is the program around it: terminal drawing and input, audio
  recording and playback, HTTP requests, the recognizers, files on disk, and
  the floating-point visualizer.
- `tests/` runs the library on concrete values.

The recording, playback and Whisper modules of `app/` use the `cpal`,
`rodio` and `whisper-rs` crates, which `Cargo.toml` does not list.

# ottex

The logic of the Ottex dictation app (press a hotkey, speak, and the
transcript is typed into the focused field), written in Verus and verified.

- `src/` — the verified library: configuration defaults, key lookup and
  validation (`config`), retry scheduling (`retry`), transcription
  planning over cloud providers and a local server, with fallback
  (`transcription`), AI shortcut requests, their retry schedule and clipboard
  polling (`ai_shortcuts`), recording, sample handling and WAV encoding
  (`audio`), the Whisper supervisor and token decoding (`inference`),
  hotkeys, tray icon and event-loop decisions (`hotkey`, `tray`, `control`),
  the engine (`engine`), and text helpers (`text`).
- `tests/` — tests of the library.
- `app/` — the program around it: configuration files, HTTP, audio devices,
  keyboard and clipboard, the Whisper model, and the event loop.

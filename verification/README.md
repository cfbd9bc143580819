# voicetabs

VoiceTabs is a desktop dictation app: it listens to the microphone, cuts
speech into utterances with a voice-activity detector, transcribes each one
(with a local Whisper worker process or OpenAI's cloud API) and files the text
as a segment in the tab that was active when the utterance began.

This crate holds the app's decision logic, written in Verus and proved
against its contracts:

- `vad`: the hysteresis state machine over speech probabilities;
- `utterance`: the pre-roll ring and the utterance builder;
- `capture`: the capture worker's decisions, including the routing snapshot
  taken once per utterance, and `capture_runs`: laws over whole runs of
  chunks (always-on routing, one push-to-talk press and release);
- `framing`, `protocol`, `client`, `supervisor`: the worker protocol, the
  routing of responses to their requests, and restart-and-replay;
- `filter`, `prompt`, `pipeline`: the hallucination filter, the Whisper
  prompt and what becomes of a transcription;
- `keyring`, `stt`, `commands`, `hotkey`, `tray`, `routing`, `audio`, `text`:
  the remaining rules, messages and helpers.

`app/` is the Tauri shell around it: devices, SQLite, the worker process,
HTTP, the UI commands and everything that works with floating-point audio.
It asks the library for each decision.

# voicepaste

The logic of a push-to-talk dictation tool, written in Verus: a hotkey
starts a recording, the recording is transcribed by a cascade of
speech-to-text tiers (a Whisper-compatible server, a local model, Apple
Speech), the transcript is cleaned and then pasted, or handed to a
user-defined automation.

- `src/` is the verified library: transcript cleaning, keyword automations,
  the transcription cascade and retry policy, the recording queue, the live
  preview buffer, history retention, the tray's menus and events, the
  settings rules, and the request and response formats of the server, the
  local command and the Apple Speech helper. Every public function has a
  contract; the laws that relate several functions are proof functions.
- `tests/` runs the library on concrete values.
- `app/` performs what the library decides: files, processes, HTTP requests,
  audio files, the clipboard and login items.

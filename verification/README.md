# smarttodo

The decision logic of a push-to-talk dictation assistant for the desktop,
verified with Verus, and the program around it.

- `src/session.rs`: the hotkey session (hold state and running recorder),
  the stop and cancel commands, and when the panel hides on losing focus.
- `src/transcription.rs`: the job that turns a recording into text, in its
  hotkey and command forms, and the steps of one run of the speech engine,
  which join the decoded segments into the trimmed transcript.
- `src/model.rs`: the speech model's location, its readiness, and the
  download with its throttled progress reports.
- `src/tray.rs`: the tray menu, what its items and clicks do, and toggling
  the panel.
- `src/text.rs`: trimming, prefixing and comparing texts.
- `app/`: the desktop program (windowing, tray, global hotkey, microphone
  capture and resampling, speech engine, network and file I/O), which runs
  the library's state machines and performs the actions they ask for.

//! Decision logic of a push-to-talk dictation assistant: the recording
//! session driven by a global hotkey, the transcription job that follows a
//! recording, the speech-model download, and the tray menu.

pub mod session;
pub mod text;
pub mod transcription;
pub mod model;
pub mod tray;

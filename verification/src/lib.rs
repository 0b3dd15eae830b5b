//! The decisions of a local voice assistant for the terminal: what each key
//! press does, which sessions are listed and where they are saved, how an
//! utterance is answered, when breaking news is announced, which requests go
//! to the speech engine, and how recognizer output becomes a transcript.
pub mod text;
pub mod session;
pub mod app_state;
pub mod display;
pub mod assistant;
pub mod layout;
pub mod news;
pub mod transcribe;
pub mod services;
pub mod voicevox;

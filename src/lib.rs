//! Core of a background dictation engine: the state machine that coordinates a
//! dictation session, the audio helpers that feed it, transcript normalisation
//! and delta emission, and the session bookkeeping of the keystroke injector.

pub mod state;
pub mod text;
pub mod audio;
pub mod vad;
pub mod settings;
pub mod injector;
pub mod engine;
pub mod transcriber;
pub mod tray;
pub mod wake;

//! A terminal speed-reading library: text is split into words and shown one
//! word at a time at a configurable rate, with pause/resume, step-back,
//! sentence-back, clipboard reload, and persisted settings.
//!
//! This crate holds the verified core: the tokenizer, the pacing formula, the
//! playback state machine, the settings-menu state machine, and the
//! conversion between in-memory settings and the persisted record. Terminal
//! rendering and file I/O live outside the library.

pub mod input;
pub mod menu;
pub mod reader;
pub mod settings;
pub mod text;

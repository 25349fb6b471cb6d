//! Dialogs.

pub mod speech_prompt;

//! Settings, speech and connection logic of the Portkey Drop file-transfer client.

pub mod paths;
pub mod settings;
pub mod sound_events;
pub mod speech;
pub mod text;
pub mod ui;

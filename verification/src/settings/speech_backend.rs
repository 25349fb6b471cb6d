//! Stored values for `SpeechSettings::backend`.

use vstd::prelude::*;

verus! {

/// Never speak, even when a screen reader is running.
pub const OFF: &'static str = "off";

/// Speak only through a screen reader. A system voice is not used.
pub const SCREEN_READER: &'static str = "screen_reader";

/// A screen reader when one is running, otherwise a system voice.
pub const AUTOMATIC: &'static str = "automatic";

} // verus!

//! Decisions of the speech announcer.
//!
//! The announcer attaches to the highest-priority speech backend that starts,
//! which may be a screen reader or a system voice. Talking to that backend
//! happens outside this module; here the backend is described by its name and
//! the features it reports, and the announcer decides what to do with it.

use vstd::prelude::*;
use crate::settings::{is_screen_reader_backend, names_screen_reader};

verus! {

/// What a started backend is called and what it reports it can do.
pub struct BackendProfile {
    /// The backend's own name, such as "NVDA" or "SAPI".
    pub name: String,
    /// It can speak text.
    pub speak: bool,
    /// It can output text, to speech and to a braille display.
    pub output: bool,
    /// It accepts a speech rate.
    pub set_rate: bool,
    /// It accepts a speech volume.
    pub set_volume: bool,
}

/// How a text reaches the backend.
#[derive(Debug, Clone, Copy, PartialEq, Eq)]
pub enum Delivery {
    /// Output to speech and, where a screen reader drives one, braille.
    Output,
    /// Speech only.
    Speak,
}

/// The 0–100 speech settings to hand to the backend; `None` leaves one alone.
#[derive(Debug, Clone, Copy, PartialEq, Eq)]
pub struct SpeechAdjustment {
    pub rate: Option<i32>,
    pub volume: Option<i32>,
}

/// `percent` held to 0..=100.
pub open spec fn clamped_percent(percent: i32) -> i32 {
    if percent < 0 {
        0
    } else if percent > 100 {
        100
    } else {
        percent
    }
}

/// Hold a 0–100 setting to that range.
pub fn clamp_percent(percent: i32) -> (r: i32)
    ensures
        r == clamped_percent(percent),
        0 <= r <= 100,
{
    if percent < 0 {
        0
    } else if percent > 100 {
        100
    } else {
        percent
    }
}

/// Holding a setting to 0..=100 keeps a value in range and moves any other
/// to the nearer end.
pub proof fn lemma_clamped_percent(percent: i32)
    ensures
        0 <= percent <= 100 ==> clamped_percent(percent) == percent,
        percent < 0 ==> clamped_percent(percent) == 0,
        percent > 100 ==> clamped_percent(percent) == 100,
{
}

/// Screen-reader announcement helper with a graceful fallback: the backend
/// it attached to, if any.
pub struct Announcer {
    backend: Option<BackendProfile>,
}

impl Announcer {
    /// The backend this announcer speaks through, if any.
    pub closed spec fn backend(&self) -> Option<BackendProfile> {
        self.backend
    }

    /// An announcer attached to `backend`, or to nothing.
    pub fn attached(backend: Option<BackendProfile>) -> (r: Self)
        ensures
            r.backend() == backend,
    {
        Announcer { backend }
    }

    /// An announcer that never speaks. Used in tests and headless runs.
    pub fn disabled() -> (r: Self)
        ensures
            r.backend() is None,
    {
        Announcer { backend: None }
    }

    /// Whether a backend that can speak was started.
    pub fn has_backend(&self) -> (r: bool)
        ensures
            r == (self.backend() matches Some(b) && (b.speak || b.output)),
    {
        match &self.backend {
            Some(b) => b.speak || b.output,
            None => false,
        }
    }

    /// Name of the backend that was started, if any.
    pub fn backend_name(&self) -> (r: Option<String>)
        ensures
            match self.backend() {
                Some(b) => r matches Some(n) && n@ == b.name@,
                None => r is None,
            },
    {
        match &self.backend {
            Some(b) => Some(b.name.clone()),
            None => None,
        }
    }

    /// Whether that backend is a screen reader rather than a system voice.
    pub fn is_screen_reader(&self) -> (r: bool)
        ensures
            r == (self.backend() matches Some(b) && names_screen_reader(b.name@)),
    {
        match &self.backend {
            Some(b) => is_screen_reader_backend(b.name.as_str()),
            None => false,
        }
    }

    /// Whether the backend accepts a speech rate.
    ///
    /// SAPI and OneCore do. NVDA and JAWS do not: they keep the rate the
    /// reader is already using.
    pub fn accepts_rate(&self) -> (r: bool)
        ensures
            r == (self.backend() matches Some(b) && b.set_rate),
    {
        match &self.backend {
            Some(b) => b.set_rate,
            None => false,
        }
    }

    /// Whether the backend accepts a speech volume.
    pub fn accepts_volume(&self) -> (r: bool)
        ensures
            r == (self.backend() matches Some(b) && b.set_volume),
    {
        match &self.backend {
            Some(b) => b.set_volume,
            None => false,
        }
    }

    /// How to announce a text, interrupting whatever is already being said:
    /// through output where the backend offers it, otherwise by speaking.
    /// `None` when there is no backend, and the text does not reach one.
    pub fn delivery(&self) -> (r: Option<Delivery>)
        ensures
            match self.backend() {
                Some(b) => r == Some(if b.output { Delivery::Output } else { Delivery::Speak }),
                None => r is None,
            },
    {
        match &self.backend {
            Some(b) => if b.output {
                Some(Delivery::Output)
            } else {
                Some(Delivery::Speak)
            },
            None => None,
        }
    }

    /// Which of the app's 0–100 speech settings to apply, held to 0..=100:
    /// each one that is given and that the backend accepts.
    pub fn settings_to_apply(&self, rate: Option<i32>, volume: Option<i32>) -> (r:
        SpeechAdjustment)
        ensures
            r.rate == (match (self.backend(), rate) {
                (Some(b), Some(p)) => if b.set_rate {
                    Some(clamped_percent(p))
                } else {
                    None
                },
                _ => None,
            }),
            r.volume == (match (self.backend(), volume) {
                (Some(b), Some(p)) => if b.set_volume {
                    Some(clamped_percent(p))
                } else {
                    None
                },
                _ => None,
            }),
    {
        match &self.backend {
            None => SpeechAdjustment { rate: None, volume: None },
            Some(b) => {
                let rate = match rate {
                    Some(p) => if b.set_rate {
                        Some(clamp_percent(p))
                    } else {
                        None
                    },
                    None => None,
                };
                let volume = match volume {
                    Some(p) => if b.set_volume {
                        Some(clamp_percent(p))
                    } else {
                        None
                    },
                    None => None,
                };
                SpeechAdjustment { rate, volume }
            },
        }
    }
}

} // verus!

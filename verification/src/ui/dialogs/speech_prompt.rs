//! The question asked when no screen reader is running.
//!
//! Nothing in here is spoken. The person being asked has no screen reader,
//! and speaking the question through a system voice is the behaviour this
//! dialog exists to stop. The dialog itself is shown by the user interface;
//! this module holds what it says and what follows from the answer.

use vstd::prelude::*;
use crate::settings::{answered_backend, SpeechSettings};

verus! {

/// The question, with No as the default answer.
pub const SPOKEN_PROGRESS_QUESTION: &'static str =
    "No screen reader is running. Portkey Drop can speak transfer progress through a system voice. Turn spoken progress messages on?";

/// Logged after the answer yes.
pub const SPOKEN_PROGRESS_ON: &'static str = "Spoken progress is on.";

/// Logged after the answer no.
pub const SPOKEN_PROGRESS_OFF: &'static str =
    "Spoken progress is off. A screen reader will still be used when one is running.";

/// Record the answer to the question in `speech` and return the message to
/// log about it.
pub fn record_spoken_progress_answer(speech: &mut SpeechSettings, yes: bool) -> (r: &'static str)
    ensures
        final(speech).backend@ == answered_backend(yes),
        *final(speech) == (SpeechSettings {
            backend: final(speech).backend,
            backend_chosen: true,
            ..*old(speech)
        }),
        r@ == (if yes { SPOKEN_PROGRESS_ON@ } else { SPOKEN_PROGRESS_OFF@ }),
{
    speech.answer_spoken_progress(yes);
    if yes {
        SPOKEN_PROGRESS_ON
    } else {
        SPOKEN_PROGRESS_OFF
    }
}

} // verus!

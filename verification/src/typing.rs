//! The decision in front of the text-injection capability: blank text means
//! "no speech detected" and is reported with a notification instead of being
//! typed; anything else is typed trimmed, followed by a success
//! notification.

use vstd::prelude::*;
use crate::strutil::{trim_spec, trim_str};

verus! {

/// What to do with transcribed text.
pub enum TypingPlan {
    /// The text is blank: notify that no speech was detected; type nothing.
    NoSpeech,
    /// Type this (trimmed, non-blank) text, then notify success.
    Type(String),
}

/// Decides what the text-injection step does with `text`.
pub fn typing_plan(text: &str) -> (r: TypingPlan)
    ensures
        trim_spec(text@).len() == 0 ==> r is NoSpeech,
        trim_spec(text@).len() > 0 ==> (r matches TypingPlan::Type(t) && t@ == trim_spec(text@)),
{
    let trimmed = trim_str(text);
    if trimmed.as_str().is_empty() {
        TypingPlan::NoSpeech
    } else {
        TypingPlan::Type(trimmed)
    }
}

} // verus!

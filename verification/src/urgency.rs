//! Urgency levels for notifications.

use vstd::prelude::*;

use crate::text::str_eq;

verus! {

/// An enumerated priority signal, influencing how the transport
/// displays or logs a notification.
#[derive(Clone, Copy, Debug, PartialEq, Eq, Structural)]
pub enum UrgencyShim {
    Low,
    Normal,
    Critical,
}

/// The urgency named by the word `w`, if any.
pub open spec fn urgency_of_word(w: Seq<char>) -> Option<UrgencyShim> {
    if w == "low"@ {
        Some(UrgencyShim::Low)
    } else if w == "normal"@ {
        Some(UrgencyShim::Normal)
    } else if w == "critical"@ {
        Some(UrgencyShim::Critical)
    } else {
        None
    }
}

/// Parses an urgency word: one of `low`, `normal`, `critical`.
pub fn parse_urgency(s: &str) -> (r: Option<UrgencyShim>)
    ensures
        r == urgency_of_word(s@),
{
    if str_eq(s, "low") {
        Some(UrgencyShim::Low)
    } else if str_eq(s, "normal") {
        Some(UrgencyShim::Normal)
    } else if str_eq(s, "critical") {
        Some(UrgencyShim::Critical)
    } else {
        None
    }
}

} // verus!

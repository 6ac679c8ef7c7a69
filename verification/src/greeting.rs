//! The greeting text: a prologue chosen by the hour, then the member's name.

use chrono::Timelike;
use vstd::prelude::*;
use vstd::string::StringExecFns;

verus! {

/// The first hour of the day, in UTC, at which the evening prologue is used.
pub const EVENING_HOUR: u32 = 17;

/// The prologue for an hour of the day: the daytime form before
/// [`EVENING_HOUR`], the evening form from that hour on.
pub open spec fn prologue_at(hour: u32) -> Seq<char> {
    if hour < EVENING_HOUR {
        "Bonjour"@
    } else {
        "Bonsoir"@
    }
}

/// The greeting for `name` at `hour`: the prologue, one space, the name.
pub open spec fn greeting_at(hour: u32, name: Seq<char>) -> Seq<char> {
    prologue_at(hour) + " "@ + name
}

/// The prologue to use at `hour`.
pub fn prologue(hour: u32) -> (word: &'static str)
    ensures
        word@ == prologue_at(hour),
{
    if hour < EVENING_HOUR {
        "Bonjour"
    } else {
        "Bonsoir"
    }
}

/// The text to speak to the member called `name` at `hour`.
pub fn greeting_text(hour: u32, name: &str) -> (text: String)
    ensures
        text@ == greeting_at(hour, name@),
{
    let mut text = String::from_str(prologue(hour));
    text.append(" ");
    text.append(name);
    text
}

/// The hour of the day right now, in UTC.
///
/// Calls `chrono::Utc::now` and reads the hour off the result with
/// `chrono::Timelike::hour`, which is documented to lie between 0 and 23.
/// Nothing else is claimed: two calls may differ.
#[verifier::external_body]
pub(crate) fn utc_hour_now() -> (hour: u32)
    ensures
        hour < 24,
{
    chrono::Utc::now().hour()
}

/// The text to speak to the member called `name` right now: the greeting of
/// whatever hour the clock shows.
pub fn greeting_now(name: &str) -> (text: String)
    ensures
        exists|hour: u32| hour < 24 && text@ == greeting_at(hour, name@),
        text@ == "Bonjour"@ + " "@ + name@ || text@ == "Bonsoir"@ + " "@ + name@,
{
    let hour = utc_hour_now();
    greeting_text(hour, name)
}

} // verus!

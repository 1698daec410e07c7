//! The playback progress bar: its clock label and its fill.

use vstd::prelude::*;
use vstd::string::StringExecFns;
use core::time::Duration;
use crate::text::two_digit_text;
use crate::text::push_two_digits;

verus! {

/// The whole seconds that a duration holds.
pub uninterp spec fn whole_seconds(duration: Duration) -> u64;

/// `Duration::as_secs`: the number of whole seconds in the duration, its
/// fraction dropped.
#[verifier::external_body]
fn duration_seconds(duration: &Duration) -> (seconds: u64)
    ensures
        seconds == whole_seconds(*duration),
{
    duration.as_secs()
}

/// Minutes and seconds as `mm:ss`; the minutes grow past two digits rather
/// than wrap into hours.
pub open spec fn clock_text(seconds: nat) -> Seq<char> {
    two_digit_text(seconds / 60) + seq![':'] + two_digit_text(seconds % 60)
}

/// The `mm:ss` text of a number of seconds.
pub fn clock(seconds: u64) -> (text: String)
    ensures
        text@ == clock_text(seconds as nat),
{
    let mut text = String::new();
    push_two_digits(&mut text, seconds / 60);
    proof {
        reveal_strlit(":");
    }
    text.append(":");
    push_two_digits(&mut text, seconds % 60);
    text
}

/// The `mm:ss` text of a duration.
pub fn format_time(duration: Duration) -> (text: String)
    ensures
        text@ == clock_text(whole_seconds(duration) as nat),
{
    clock(duration_seconds(&duration))
}

} // verus!

//! Human-readable rendering of run times.
use vstd::prelude::*;
use vstd::string::StringExecFns;
use crate::clock::{duration_as_secs, duration_nanos};
use crate::text::{dec_digits, push_u64};

verus! {

/// "Hh Mm Ss" with hours, "Mm Ss" with minutes but no hours, otherwise "Ss".
pub open spec fn spec_format_secs(secs: u64) -> Seq<char> {
    let hours = secs / 3600;
    let minutes = (secs % 3600) / 60;
    let seconds = secs % 60;
    if hours > 0 {
        dec_digits(hours as nat) + "h "@ + dec_digits(minutes as nat) + "m "@ + dec_digits(seconds as nat) + "s"@
    } else if minutes > 0 {
        dec_digits(minutes as nat) + "m "@ + dec_digits(seconds as nat) + "s"@
    } else {
        dec_digits(seconds as nat) + "s"@
    }
}

/// A number of seconds as hours, minutes and seconds.
pub fn format_secs(secs: u64) -> (s: String)
    ensures
        s@ == spec_format_secs(secs),
{
    let hours = secs / 3600;
    let minutes = (secs % 3600) / 60;
    let seconds = secs % 60;
    let mut s = String::new();
    if hours > 0 {
        push_u64(&mut s, hours);
        s.append("h ");
        push_u64(&mut s, minutes);
        s.append("m ");
        push_u64(&mut s, seconds);
        s.append("s");
    } else if minutes > 0 {
        push_u64(&mut s, minutes);
        s.append("m ");
        push_u64(&mut s, seconds);
        s.append("s");
    } else {
        push_u64(&mut s, seconds);
        s.append("s");
    }
    s
}

/// A duration as hours, minutes and seconds (whole seconds only).
pub fn format_duration(d: std::time::Duration) -> (s: String)
    ensures
        s@ == spec_format_secs((duration_nanos(d) / 1_000_000_000) as u64),
{
    format_secs(duration_as_secs(&d))
}

} // verus!

//! Elapsed time in words.

use crate::text::{append_decimal, decimal};
use crate::timestamp::TimeDelta;
use vstd::prelude::*;

verus! {

/// A count with its unit: the numeral, a space, the unit's name, and an `s`
/// when the count is more than one.
pub open spec fn counted(n: nat, unit: Seq<char>) -> Seq<char> {
    decimal(n) + " "@ + unit + if n > 1 {
        "s"@
    } else {
        Seq::<char>::empty()
    }
}

/// The wording of `total_seconds` whole seconds. Hours and minutes are named
/// when they are not zero, joined by `" and "`; seconds are named only when
/// the span is under a minute; a span under one second reads `"0 Seconds"`.
pub open spec fn duration_text(total_seconds: nat) -> Seq<char> {
    let hours = total_seconds / 3600;
    let minutes = (total_seconds % 3600) / 60;
    let seconds = total_seconds % 60;
    if hours > 0 && minutes > 0 {
        counted(hours, "Hour"@) + " and "@ + counted(minutes, "Minute"@)
    } else if hours > 0 {
        counted(hours, "Hour"@)
    } else if minutes > 0 {
        counted(minutes, "Minute"@)
    } else if seconds > 0 {
        counted(seconds, "Second"@)
    } else {
        "0 Seconds"@
    }
}

/// Appends `n`, a space and `unit` to `out`, and an `s` when `n` is more than one.
fn append_counted(out: &mut String, n: u64, unit: &str)
    ensures
        final(out)@ == old(out)@ + counted(n as nat, unit@),
{
    append_decimal(out, n);
    out.append(" ");
    out.append(unit);
    if n > 1 {
        out.append("s");
    }
    assert(final(out)@ =~= old(out)@ + counted(n as nat, unit@));
}

/// Words a span that is not negative, by its whole seconds: `"1 Hour and 1
/// Minute"` for 3661 seconds. Seconds are dropped, not rounded, once the span
/// reaches a minute.
pub fn get_duration_string(delta: TimeDelta) -> (text: String)
    requires
        delta.secs >= 0,
    ensures
        text@ == duration_text(delta.secs as nat),
{
    let total_seconds: u64 = delta.secs as u64;
    let hours: u64 = total_seconds / 3600;
    let minutes: u64 = (total_seconds % 3600) / 60;
    let seconds: u64 = total_seconds % 60;
    let mut result = String::new();
    if hours > 0 {
        append_counted(&mut result, hours, "Hour");
    }
    if minutes > 0 {
        if hours > 0 {
            result.append(" and ");
        }
        append_counted(&mut result, minutes, "Minute");
    }
    if seconds > 0 && hours == 0 && minutes == 0 {
        append_counted(&mut result, seconds, "Second");
    }
    if hours == 0 && minutes == 0 && seconds == 0 {
        result.append("0 Seconds");
    }
    assert(result@ =~= duration_text(delta.secs as nat));
    result
}

} // verus!

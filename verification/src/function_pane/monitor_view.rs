//! Sidebar Monitor tab — the text of the uptime reading.

use vstd::prelude::*;

use crate::text::{decimal, push_decimal};

verus! {

/// Uptime as text: `Dd Hh` from one day on, `Hh Mm` from one hour on, else `Mm`.
pub open spec fn uptime_text(secs: nat) -> Seq<char> {
    let d = secs / 86_400;
    let h = (secs % 86_400) / 3_600;
    let m = (secs % 3_600) / 60;
    if d > 0 {
        decimal(d) + "d "@ + decimal(h) + "h"@
    } else if h > 0 {
        decimal(h) + "h "@ + decimal(m) + "m"@
    } else {
        decimal(m) + "m"@
    }
}

pub fn fmt_uptime(secs: u64) -> (s: String)
    ensures
        s@ == uptime_text(secs as nat),
{
    let d = secs / 86_400;
    let h = (secs % 86_400) / 3_600;
    let m = (secs % 3_600) / 60;
    let mut s = String::new();
    if d > 0 {
        push_decimal(&mut s, d);
        s.append("d ");
        push_decimal(&mut s, h);
        s.append("h");
    } else if h > 0 {
        push_decimal(&mut s, h);
        s.append("h ");
        push_decimal(&mut s, m);
        s.append("m");
    } else {
        push_decimal(&mut s, m);
        s.append("m");
    }
    assert(s@ =~= uptime_text(secs as nat));
    s
}

} // verus!

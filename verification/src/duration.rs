//! Elapsed time in the unit that suits its size.

use crate::digits::{decimal, padded, push_decimal, push_padded};
use vstd::prelude::*;
use vstd::string::*;

verus! {

/// A span of time, in nanoseconds, that is written in the unit that suits its size.
#[derive(Copy, Clone, Eq, PartialEq, Debug, Structural)]
pub struct HumanDuration(pub u128);

/// How a span of `total` nanoseconds is written.
///
/// Under a microsecond it is whole nanoseconds, under a millisecond whole
/// microseconds, under a second milliseconds with three decimals, under a
/// minute seconds with three decimals; from there on minutes, hours and days
/// are split off, the smaller fields two digits wide and the seconds with
/// three decimals.
pub open spec fn human_text(total: nat) -> Seq<char> {
    let secs = total / 1_000_000_000;
    let nanos = total % 1_000_000_000;
    let ms = nanos / 1_000_000;
    if secs == 0 {
        if nanos < 1_000 {
            decimal(nanos) + " ns"@
        } else if nanos < 1_000_000 {
            decimal(nanos / 1_000) + " us"@
        } else {
            decimal(ms) + "."@ + padded((nanos / 1_000) % 1_000, 3) + " ms"@
        }
    } else if secs < 60 {
        decimal(secs) + "."@ + padded(ms, 3) + " s"@
    } else if secs < 3_600 {
        decimal(secs / 60) + "m"@ + seconds_text(secs % 60, ms)
    } else if secs < 86_400 {
        decimal(secs / 3_600) + "h"@ + padded((secs % 3_600) / 60, 2) + "m"@ + seconds_text(
            secs % 60,
            ms,
        )
    } else {
        let rem = secs % 86_400;
        decimal(secs / 86_400) + "d "@ + padded(rem / 3_600, 2) + "h"@ + padded(
            (rem % 3_600) / 60,
            2,
        ) + "m"@ + seconds_text(rem % 60, ms)
    }
}

/// Seconds two digits wide, milliseconds as three decimals, and the unit.
pub open spec fn seconds_text(s: nat, ms: nat) -> Seq<char> {
    padded(s, 2) + "."@ + padded(ms, 3) + "s"@
}

fn push_seconds(buf: &mut String, s: u128, ms: u128)
    ensures
        final(buf)@ == old(buf)@ + seconds_text(s as nat, ms as nat),
{
    push_padded(buf, s, 2);
    buf.append(".");
    push_padded(buf, ms, 3);
    buf.append("s");
    assert(buf@ =~= old(buf)@ + seconds_text(s as nat, ms as nat));
}

/// What a timer says when its scope ends: the time taken.
pub open spec fn took_text(elapsed: nat) -> Seq<char> {
    "took "@ + human_text(elapsed)
}

/// The nanoseconds from `start` to `end`, two readings of a clock that does
/// not run backwards; nothing where `end` is the earlier one.
pub open spec fn elapsed_between(start: nat, end: nat) -> nat {
    if end >= start {
        (end - start) as nat
    } else {
        0
    }
}

/// What a timer that started at `start` says at `end`, both in nanoseconds.
pub fn took_message(start: u128, end: u128) -> (msg: String)
    ensures
        msg@ == took_text(elapsed_between(start as nat, end as nat)),
{
    let elapsed = HumanDuration::between(start, end);
    let mut msg = String::new();
    msg.append("took ");
    elapsed.fmt(&mut msg);
    assert(msg@ =~= took_text(elapsed_between(start as nat, end as nat)));
    msg
}

impl HumanDuration {
    /// How the span is written.
    pub open spec fn text(self) -> Seq<char> {
        human_text(self.0 as nat)
    }

    /// Appends the span to `buf`, in the unit that suits its size.
    pub fn fmt(&self, buf: &mut String)
        ensures
            final(buf)@ == old(buf)@ + self.text(),
    {
        let secs: u128 = self.0 / 1_000_000_000;
        let nanos: u128 = self.0 % 1_000_000_000;
        let ms: u128 = nanos / 1_000_000;
        if secs == 0 {
            if nanos < 1_000 {
                push_decimal(buf, nanos);
                buf.append(" ns");
            } else if nanos < 1_000_000 {
                push_decimal(buf, nanos / 1_000);
                buf.append(" us");
            } else {
                push_decimal(buf, ms);
                buf.append(".");
                push_padded(buf, (nanos / 1_000) % 1_000, 3);
                buf.append(" ms");
            }
        } else if secs < 60 {
            push_decimal(buf, secs);
            buf.append(".");
            push_padded(buf, ms, 3);
            buf.append(" s");
        } else if secs < 3_600 {
            push_decimal(buf, secs / 60);
            buf.append("m");
            push_seconds(buf, secs % 60, ms);
        } else if secs < 86_400 {
            push_decimal(buf, secs / 3_600);
            buf.append("h");
            push_padded(buf, (secs % 3_600) / 60, 2);
            buf.append("m");
            push_seconds(buf, secs % 60, ms);
        } else {
            let rem: u128 = secs % 86_400;
            push_decimal(buf, secs / 86_400);
            buf.append("d ");
            push_padded(buf, rem / 3_600, 2);
            buf.append("h");
            push_padded(buf, (rem % 3_600) / 60, 2);
            buf.append("m");
            push_seconds(buf, rem % 60, ms);
        }
        assert(buf@ =~= old(buf)@ + self.text());
    }

    /// The span as text, in the unit that suits its size.
    pub fn to_string(&self) -> (s: String)
        ensures
            s@ == self.text(),
    {
        let mut s = String::new();
        self.fmt(&mut s);
        assert(s@ =~= self.text());
        s
    }

    /// The time from `start` to `end`, two readings in nanoseconds of a clock
    /// that does not run backwards; nothing where `end` is the earlier one.
    pub fn between(start: u128, end: u128) -> (d: HumanDuration)
        ensures
            d.0 == elapsed_between(start as nat, end as nat),
    {
        if end >= start {
            HumanDuration(end - start)
        } else {
            HumanDuration(0)
        }
    }
}

} // verus!

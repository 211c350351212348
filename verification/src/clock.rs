//! The time of day as it stands at the head of a line: in UTC, worked out
//! here, or at an offset from UTC, rendered by the `time` crate.

use crate::calendar::{civil_from_days, civil_from_days_utc};
use crate::digits::{lemma_padded_is_clean, padded, push_padded};
use crate::text::{escape, free_of, lemma_free_of_concat};
use vstd::prelude::*;
use vstd::string::*;

verus! {

/// A reading of the wall clock, counted from 1970-01-01 00:00:00 UTC.
#[derive(Copy, Clone, Eq, PartialEq, Debug, Structural)]
pub enum Clock {
    /// To be written in UTC: whole seconds, and the milliseconds past them.
    Utc { secs: u64, millis: u32 },
    /// To be written at `offset` seconds east of UTC: whole seconds, and the
    /// nanoseconds past them.
    Local { secs: u64, nanos: u32, offset: i32 },
}

/// The furthest that an offset from UTC can lie from it, in seconds: 25:59:59.
pub const MAX_OFFSET: i32 = 93_599;

/// What the `time` crate writes for the instant `nanos` nanoseconds after
/// 1970-01-01 00:00:00 UTC, seen at `offset` seconds east of UTC, under the
/// format description `pattern`; `None` where it writes nothing, because the
/// instant, the offset or the description is outside what it takes.
pub uninterp spec fn offset_stamp(nanos: int, offset: int, pattern: Seq<char>) -> Option<Seq<char>>;

/// The format description of a local time stamp.
pub open spec fn local_pattern() -> Seq<char> {
    "[year]-[month]-[day] [hour]:[minute]:[second].[subsecond digits:3]"@
}

/// The UTC time stamp of the instant `secs` seconds and `millis` milliseconds
/// after 1970-01-01 00:00:00 UTC: date, time of day to the millisecond, `Z`
/// and a space.
pub open spec fn utc_stamp(secs: nat, millis: nat) -> Seq<char> {
    let date = civil_from_days((secs / 86_400) as int);
    let sod = secs % 86_400;
    padded(date.0 as nat, 4) + "-"@ + padded(date.1 as nat, 2) + "-"@ + padded(date.2 as nat, 2)
        + " "@ + padded(sod / 3_600, 2) + ":"@ + padded(sod % 3_600 / 60, 2) + ":"@ + padded(
        sod % 60,
        2,
    ) + "."@ + padded(millis, 3) + "Z "@
}

/// A rendered time followed by a space; nothing where there is no rendered time.
pub open spec fn rendered_stamp(rendered: Option<Seq<char>>) -> Seq<char> {
    match rendered {
        Some(text) => text + " "@,
        None => Seq::<char>::empty(),
    }
}

impl Clock {
    /// The time stamp that stands for this reading at the head of a line.
    pub open spec fn stamp(self) -> Seq<char> {
        match self {
            Clock::Utc { secs, millis } => utc_stamp(secs as nat, millis as nat),
            Clock::Local { secs, nanos, offset } => rendered_stamp(
                offset_stamp(secs * 1_000_000_000 + nanos, offset as int, local_pattern()),
            ),
        }
    }

    /// A reading to be written in UTC.
    pub fn utc(secs: u64, millis: u32) -> (c: Clock)
        ensures
            c == (Clock::Utc { secs, millis }),
    {
        Clock::Utc { secs, millis }
    }

    /// A reading to be written in the local time of this machine: at the
    /// offset from UTC that holds here at that instant, or in UTC where that
    /// cannot be told.
    pub fn local(secs: u64, nanos: u32) -> (c: Clock)
        ensures
            c matches Clock::Local { secs: s, nanos: n, offset } && s == secs && n == nanos
                && -MAX_OFFSET <= offset <= MAX_OFFSET,
    {
        let offset: i32 = if secs <= 0x7fff_ffff_ffff_ffff {
            match local_offset_at(secs as i64) {
                Some(o) => o,
                None => 0,
            }
        } else {
            0
        };
        Clock::Local { secs, nanos, offset }
    }
}

/// Asks `time::UtcOffset::local_offset_at` for the offset from UTC that holds
/// on this machine at the instant `secs` seconds after the epoch, the
/// instant made by `time::OffsetDateTime::from_unix_timestamp`, and hands it
/// back in whole seconds; `None` where either of the two refuses.
///
/// Trusted: the offset depends on the machine, so nothing is said of it but
/// the bounds within which `UtcOffset` keeps every offset. Neither call reads
/// the clock.
#[verifier::external_body]
fn local_offset_at(secs: i64) -> (r: Option<i32>)
    ensures
        r matches Some(o) ==> -MAX_OFFSET <= o <= MAX_OFFSET,
{
    let at = match time::OffsetDateTime::from_unix_timestamp(secs) {
        Ok(at) => at,
        Err(_) => return None,
    };
    match time::UtcOffset::local_offset_at(at) {
        Ok(offset) => Some(offset.whole_seconds()),
        Err(_) => None,
    }
}

/// Has the `time` crate write the instant `nanos` nanoseconds after the epoch
/// as seen at `offset` seconds east of UTC: `OffsetDateTime::checked_to_offset`
/// and `OffsetDateTime::format`, on values made by
/// `OffsetDateTime::from_unix_timestamp_nanos`, `UtcOffset::from_whole_seconds`
/// and `format_description::parse_borrowed`.
///
/// Trusted: the text is whatever the crate writes under the one format
/// description of this library, which depends on the instant and the offset
/// and on nothing else; it is `None` where one of the five calls refuses.
#[verifier::external_body]
fn render_at_offset(nanos: i128, offset: i32, pattern: &str) -> (r: Option<String>)
    requires
        pattern@ == local_pattern(),
    ensures
        match r {
            Some(text) => offset_stamp(nanos as int, offset as int, pattern@) == Some(text@),
            None => offset_stamp(nanos as int, offset as int, pattern@) is None,
        },
{
    let at = time::OffsetDateTime::from_unix_timestamp_nanos(nanos).ok()?;
    let zone = time::UtcOffset::from_whole_seconds(offset).ok()?;
    let items = time::format_description::parse_borrowed::<1>(pattern).ok()?;
    at.checked_to_offset(zone)?.format(&items).ok()
}

/// Appends a rendered time and a space to `buf`; nothing where there is no
/// rendered time.
pub fn write_rendered(buf: &mut String, rendered: Option<String>)
    ensures
        final(buf)@ == old(buf)@ + rendered_stamp(
            match rendered {
                Some(text) => Some(text@),
                None => None,
            },
        ),
{
    match rendered {
        Some(text) => {
            buf.append(text.as_str());
            buf.append(" ");
            assert(buf@ =~= old(buf)@ + (text@ + " "@));
        },
        None => {
            assert(buf@ =~= old(buf)@ + Seq::<char>::empty());
        },
    }
}

/// Appends the UTC time stamp of the instant `secs` seconds and `millis`
/// milliseconds after the epoch to `buf`.
pub fn write_utc_stamp(buf: &mut String, secs: u64, millis: u32)
    ensures
        final(buf)@ == old(buf)@ + utc_stamp(secs as nat, millis as nat),
{
    let days: u64 = secs / 86_400;
    let sod: u64 = secs % 86_400;
    let date = civil_from_days_utc(days as i64);
    push_padded(buf, date.0 as u128, 4);
    buf.append("-");
    push_padded(buf, date.1 as u128, 2);
    buf.append("-");
    push_padded(buf, date.2 as u128, 2);
    buf.append(" ");
    push_padded(buf, (sod / 3_600) as u128, 2);
    buf.append(":");
    push_padded(buf, (sod % 3_600 / 60) as u128, 2);
    buf.append(":");
    push_padded(buf, (sod % 60) as u128, 2);
    buf.append(".");
    push_padded(buf, millis as u128, 3);
    buf.append("Z ");
    assert(buf@ =~= old(buf)@ + utc_stamp(secs as nat, millis as nat));
}

/// Neither a newline nor an escape character occurs in a UTC time stamp.
pub proof fn lemma_utc_stamp_is_clean(secs: nat, millis: nat, c: char)
    requires
        c == '\n' || c == escape(),
    ensures
        free_of(utc_stamp(secs, millis), c),
{
    let date = civil_from_days((secs / 86_400) as int);
    let sod = secs % 86_400;
    let y = padded(date.0 as nat, 4);
    let mo = padded(date.1 as nat, 2);
    let d = padded(date.2 as nat, 2);
    let h = padded(sod / 3_600, 2);
    let mi = padded(sod % 3_600 / 60, 2);
    let s = padded(sod % 60, 2);
    let ms = padded(millis, 3);
    reveal_strlit("-");
    reveal_strlit(" ");
    reveal_strlit(":");
    reveal_strlit(".");
    reveal_strlit("Z ");
    lemma_padded_is_clean(date.0 as nat, 4, c);
    lemma_padded_is_clean(date.1 as nat, 2, c);
    lemma_padded_is_clean(date.2 as nat, 2, c);
    lemma_padded_is_clean(sod / 3_600, 2, c);
    lemma_padded_is_clean(sod % 3_600 / 60, 2, c);
    lemma_padded_is_clean(sod % 60, 2, c);
    lemma_padded_is_clean(millis, 3, c);
    let t1 = y + "-"@;
    lemma_free_of_concat(y, "-"@, c);
    let t2 = t1 + mo;
    lemma_free_of_concat(t1, mo, c);
    let t3 = t2 + "-"@;
    lemma_free_of_concat(t2, "-"@, c);
    let t4 = t3 + d;
    lemma_free_of_concat(t3, d, c);
    let t5 = t4 + " "@;
    lemma_free_of_concat(t4, " "@, c);
    let t6 = t5 + h;
    lemma_free_of_concat(t5, h, c);
    let t7 = t6 + ":"@;
    lemma_free_of_concat(t6, ":"@, c);
    let t8 = t7 + mi;
    lemma_free_of_concat(t7, mi, c);
    let t9 = t8 + ":"@;
    lemma_free_of_concat(t8, ":"@, c);
    let t10 = t9 + s;
    lemma_free_of_concat(t9, s, c);
    let t11 = t10 + "."@;
    lemma_free_of_concat(t10, "."@, c);
    let t12 = t11 + ms;
    lemma_free_of_concat(t11, ms, c);
    lemma_free_of_concat(t12, "Z "@, c);
}

/// Appends the time stamp of the reading `now` to `buf`.
pub fn write_timestamp(buf: &mut String, now: &Clock)
    ensures
        final(buf)@ == old(buf)@ + now.stamp(),
{
    match now {
        Clock::Utc { secs, millis } => {
            write_utc_stamp(buf, *secs, *millis);
        },
        Clock::Local { secs, nanos, offset } => {
            let total: i128 = *secs as i128 * 1_000_000_000 + *nanos as i128;
            let rendered = render_at_offset(
                total,
                *offset,
                "[year]-[month]-[day] [hour]:[minute]:[second].[subsecond digits:3]",
            );
            write_rendered(buf, rendered);
        },
    }
}

} // verus!

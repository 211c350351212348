//! How a line is put together: time stamp, level tag, thread, place in the
//! source, group, message.

use crate::clock::{write_timestamp, Clock};
use crate::digits::{decimal, lemma_decimal_is_clean, push_decimal};
use crate::level::{level_color, Level};
use crate::text::{escape, free_of, lemma_free_of_concat};
use vstd::prelude::*;
use vstd::string::*;

verus! {

/// Which parts of the prefix a line carries.
#[derive(Copy, Clone, Eq, PartialEq, Debug, Structural)]
pub struct Options {
    pub show_time: bool,
    pub show_tid: bool,
    pub show_file_line: bool,
    pub show_group: bool,
}

/// What the surroundings report at the moment a line is made.
#[derive(Copy, Clone, Debug)]
pub struct Context<'a> {
    /// The wall clock.
    pub now: Clock,
    /// How the running thread is written, such as `ThreadId(1)`.
    pub thread: &'a str,
    /// Whether standard output is attached to a terminal.
    pub stdout_tty: bool,
    /// Whether standard error is attached to a terminal.
    pub stderr_tty: bool,
    /// Whether the program was built optimized, which lifts the floor to `Info`.
    pub optimized: bool,
}

/// The ANSI sequence that switches all attributes off.
pub open spec fn reset() -> Seq<char> {
    "\x1b[0m"@
}

/// The ANSI sequence that switches to bold.
pub open spec fn bold() -> Seq<char> {
    "\x1b[1m"@
}

/// The level tag, in the colour of its level where `color` is on.
pub open spec fn level_text(l: Level, color: bool) -> Seq<char> {
    if color {
        l.color() + l.tag() + reset()
    } else {
        l.tag()
    }
}

/// The thread in square brackets, after a space.
pub open spec fn tid_text(thread: Seq<char>) -> Seq<char> {
    " ["@ + thread + "]"@
}

/// File and line in angle brackets, after a space.
pub open spec fn file_line_text(file: Seq<char>, line_no: nat) -> Seq<char> {
    " <"@ + file + ":"@ + decimal(line_no) + ">"@
}

/// The group in square brackets, after a space; bold and in the colour of the
/// level where `color` is on.
pub open spec fn group_text(l: Level, color: bool, group: Seq<char>) -> Seq<char> {
    if color {
        " ["@ + bold() + l.color() + group + reset() + "]"@
    } else {
        " ["@ + group + "]"@
    }
}

/// `part` where `shown` holds, nothing otherwise.
pub open spec fn when(shown: bool, part: Seq<char>) -> Seq<char> {
    if shown {
        part
    } else {
        Seq::<char>::empty()
    }
}

/// The group part of a prefix: the group tag where groups are shown and the
/// line has a group.
pub open spec fn group_part(l: Level, opts: Options, color: bool, group: Option<Seq<char>>) -> Seq<
    char,
> {
    match group {
        Some(g) => when(opts.show_group, group_text(l, color, g)),
        None => Seq::<char>::empty(),
    }
}

/// The prefix of a line: time stamp, level tag, thread, file and line, group,
/// in this order, each but the level tag only where `opts` asks for it.
pub open spec fn prefix_text(
    l: Level,
    opts: Options,
    color: bool,
    group: Option<Seq<char>>,
    file: Seq<char>,
    line_no: nat,
    stamp: Seq<char>,
    thread: Seq<char>,
) -> Seq<char> {
    when(opts.show_time, stamp) + level_text(l, color) + when(opts.show_tid, tid_text(thread))
        + when(opts.show_file_line, file_line_text(file, line_no)) + group_part(
        l,
        opts,
        color,
        group,
    )
}

/// A whole line: prefix, one space, the message, one newline.
pub open spec fn line_text(
    l: Level,
    opts: Options,
    color: bool,
    group: Option<Seq<char>>,
    file: Seq<char>,
    line_no: nat,
    msg: Seq<char>,
    stamp: Seq<char>,
    thread: Seq<char>,
) -> Seq<char> {
    prefix_text(l, opts, color, group, file, line_no, stamp, thread) + " "@ + msg + "\n"@
}

/// The view of an optional text.
pub open spec fn text_of(s: Option<&str>) -> Option<Seq<char>> {
    match s {
        Some(t) => Some(t@),
        None => None,
    }
}

/// Appends the time stamp of the reading `now` to `buf` where `show` holds.
pub fn write_time(buf: &mut String, show: bool, now: &Clock)
    ensures
        final(buf)@ == old(buf)@ + when(show, now.stamp()),
{
    if show {
        write_timestamp(buf, now);
    }
    assert(buf@ =~= old(buf)@ + when(show, now.stamp()));
}

/// Appends the tag of level `l` to `buf`, in the colour of the level where
/// `use_color` holds.
pub fn write_level(buf: &mut String, l: Level, use_color: bool)
    ensures
        final(buf)@ == old(buf)@ + level_text(l, use_color),
{
    if use_color {
        buf.append(level_color(l));
        buf.append(l.tag_str());
        buf.append("\x1b[0m");
    } else {
        buf.append(l.tag_str());
    }
    assert(buf@ =~= old(buf)@ + level_text(l, use_color));
}

/// Appends the thread in square brackets to `buf` where `show` holds.
pub fn write_tid(buf: &mut String, show: bool, thread: &str)
    ensures
        final(buf)@ == old(buf)@ + when(show, tid_text(thread@)),
{
    if show {
        buf.append(" [");
        buf.append(thread);
        buf.append("]");
    }
    assert(buf@ =~= old(buf)@ + when(show, tid_text(thread@)));
}

/// Appends file and line in angle brackets to `buf` where `show` holds.
pub fn write_file_line(buf: &mut String, show: bool, file: &str, line_no: u32)
    ensures
        final(buf)@ == old(buf)@ + when(show, file_line_text(file@, line_no as nat)),
{
    if show {
        buf.append(" <");
        buf.append(file);
        buf.append(":");
        push_decimal(buf, line_no as u128);
        buf.append(">");
    }
    assert(buf@ =~= old(buf)@ + when(show, file_line_text(file@, line_no as nat)));
}

/// Appends the group tag to `buf` where groups are shown and there is a group.
pub fn write_group(buf: &mut String, l: Level, opts: &Options, use_color: bool, group: Option<&str>)
    ensures
        final(buf)@ == old(buf)@ + group_part(l, *opts, use_color, text_of(group)),
{
    if opts.show_group {
        if let Some(g) = group {
            if use_color {
                buf.append(" [");
                buf.append("\x1b[1m");
                buf.append(level_color(l));
                buf.append(g);
                buf.append("\x1b[0m");
                buf.append("]");
            } else {
                buf.append(" [");
                buf.append(g);
                buf.append("]");
            }
        }
    }
    assert(buf@ =~= old(buf)@ + group_part(l, *opts, use_color, text_of(group)));
}

/// Appends the prefix of a line to `buf`.
pub fn format_prefix(
    buf: &mut String,
    l: Level,
    opts: &Options,
    use_color: bool,
    group: Option<&str>,
    file: &str,
    line_no: u32,
    cx: &Context,
)
    ensures
        final(buf)@ == old(buf)@ + prefix_text(
            l,
            *opts,
            use_color,
            text_of(group),
            file@,
            line_no as nat,
            cx.now.stamp(),
            cx.thread@,
        ),
{
    write_time(buf, opts.show_time, &cx.now);
    write_level(buf, l, use_color);
    write_tid(buf, opts.show_tid, cx.thread);
    write_file_line(buf, opts.show_file_line, file, line_no);
    write_group(buf, l, opts, use_color, group);
    proof {
        lemma_five_parts(
            old(buf)@,
            when(opts.show_time, cx.now.stamp()),
            level_text(l, use_color),
            when(opts.show_tid, tid_text(cx.thread@)),
            when(opts.show_file_line, file_line_text(file@, line_no as nat)),
            group_part(l, *opts, use_color, text_of(group)),
        );
    }
}

proof fn lemma_five_parts(
    base: Seq<char>,
    a: Seq<char>,
    b: Seq<char>,
    c: Seq<char>,
    d: Seq<char>,
    e: Seq<char>,
)
    ensures
        base + a + b + c + d + e == base + (a + b + c + d + e),
{
    assert(base + a + b + c + d + e =~= base + (a + b + c + d + e));
}

proof fn lemma_line_parts(prefix: Seq<char>, space: Seq<char>, msg: Seq<char>, end: Seq<char>)
    ensures
        Seq::<char>::empty() + prefix + space + msg + end == prefix + space + msg + end,
{
    assert(Seq::<char>::empty() + prefix + space + msg + end =~= prefix + space + msg + end);
}

/// Makes a whole line: prefix, one space, the message, one newline.
pub fn format_line(
    l: Level,
    opts: &Options,
    use_color: bool,
    group: Option<&str>,
    file: &str,
    line_no: u32,
    msg: &str,
    cx: &Context,
) -> (line: String)
    ensures
        line@ == line_text(
            l,
            *opts,
            use_color,
            text_of(group),
            file@,
            line_no as nat,
            msg@,
            cx.now.stamp(),
            cx.thread@,
        ),
{
    let mut line = String::new();
    format_prefix(&mut line, l, opts, use_color, group, file, line_no, cx);
    line.append(" ");
    line.append(msg);
    line.append("\n");
    proof {
        lemma_line_parts(
            prefix_text(
                l,
                *opts,
                use_color,
                text_of(group),
                file@,
                line_no as nat,
                cx.now.stamp(),
                cx.thread@,
            ),
            " "@,
            msg@,
            "\n"@,
        );
    }
    line
}

/// Neither a newline nor an escape character occurs in a level tag.
proof fn lemma_tag_is_clean(l: Level, c: char)
    requires
        c == '\n' || c == escape(),
    ensures
        free_of(l.tag(), c),
{
    reveal_strlit("TRACE");
    reveal_strlit("DEBUG");
    reveal_strlit("INFO ");
    reveal_strlit("WARN ");
    reveal_strlit("ERROR");
    reveal_strlit("FATAL");
}

/// Every colour sequence, and the two that switch bold on and all off, start
/// with the escape character and hold no newline.
proof fn lemma_sequences(l: Level)
    ensures
        l.color().len() > 0 && l.color()[0] == escape(),
        free_of(l.color(), '\n'),
        free_of(reset(), '\n'),
        free_of(bold(), '\n'),
{
    reveal_strlit("\x1b[90m");
    reveal_strlit("\x1b[36m");
    reveal_strlit("\x1b[32m");
    reveal_strlit("\x1b[33m");
    reveal_strlit("\x1b[31m");
    reveal_strlit("\x1b[35m");
    reveal_strlit("\x1b[0m");
    reveal_strlit("\x1b[1m");
}

proof fn lemma_tid_is_clean(thread: Seq<char>, c: char)
    requires
        c == '\n' || c == escape(),
        free_of(thread, c),
    ensures
        free_of(tid_text(thread), c),
{
    reveal_strlit(" [");
    reveal_strlit("]");
    lemma_free_of_concat(" ["@, thread, c);
    lemma_free_of_concat(" ["@ + thread, "]"@, c);
}

proof fn lemma_file_line_is_clean(file: Seq<char>, line_no: nat, c: char)
    requires
        c == '\n' || c == escape(),
        free_of(file, c),
    ensures
        free_of(file_line_text(file, line_no), c),
{
    reveal_strlit(" <");
    reveal_strlit(":");
    reveal_strlit(">");
    lemma_decimal_is_clean(line_no, c);
    lemma_free_of_concat(" <"@, file, c);
    lemma_free_of_concat(" <"@ + file, ":"@, c);
    lemma_free_of_concat(" <"@ + file + ":"@, decimal(line_no), c);
    lemma_free_of_concat(" <"@ + file + ":"@ + decimal(line_no), ">"@, c);
}

proof fn lemma_group_is_clean(l: Level, color: bool, group: Seq<char>, c: char)
    requires
        c == '\n' || (c == escape() && !color),
        free_of(group, c),
    ensures
        free_of(group_text(l, color, group), c),
{
    reveal_strlit(" [");
    reveal_strlit("]");
    if color {
        lemma_sequences(l);
        lemma_free_of_concat(" ["@, bold(), c);
        lemma_free_of_concat(" ["@ + bold(), l.color(), c);
        lemma_free_of_concat(" ["@ + bold() + l.color(), group, c);
        lemma_free_of_concat(" ["@ + bold() + l.color() + group, reset(), c);
        lemma_free_of_concat(" ["@ + bold() + l.color() + group + reset(), "]"@, c);
    } else {
        lemma_free_of_concat(" ["@, group, c);
        lemma_free_of_concat(" ["@ + group, "]"@, c);
    }
}

proof fn lemma_level_is_clean(l: Level, color: bool, c: char)
    requires
        c == '\n' || (c == escape() && !color),
    ensures
        free_of(level_text(l, color), c),
{
    lemma_tag_is_clean(l, c);
    if color {
        lemma_sequences(l);
        lemma_free_of_concat(l.color(), l.tag(), c);
        lemma_free_of_concat(l.color() + l.tag(), reset(), c);
    }
}

/// What a prefix is free of: a character that is a newline, or the escape
/// character with colour off, occurs in it only where it occurs in what was
/// handed in.
pub proof fn lemma_prefix_is_clean(
    l: Level,
    opts: Options,
    color: bool,
    group: Option<Seq<char>>,
    file: Seq<char>,
    line_no: nat,
    stamp: Seq<char>,
    thread: Seq<char>,
    c: char,
)
    requires
        c == '\n' || (c == escape() && !color),
        free_of(stamp, c),
        free_of(thread, c),
        free_of(file, c),
        group matches Some(g) ==> free_of(g, c),
    ensures
        free_of(prefix_text(l, opts, color, group, file, line_no, stamp, thread), c),
{
    let time_part = when(opts.show_time, stamp);
    let level_part = level_text(l, color);
    let tid_part = when(opts.show_tid, tid_text(thread));
    let place_part = when(opts.show_file_line, file_line_text(file, line_no));
    let group_tag = group_part(l, opts, color, group);
    lemma_level_is_clean(l, color, c);
    lemma_tid_is_clean(thread, c);
    lemma_file_line_is_clean(file, line_no, c);
    if let Some(g) = group {
        lemma_group_is_clean(l, color, g, c);
    }
    assert(free_of(time_part, c));
    assert(free_of(tid_part, c));
    assert(free_of(place_part, c));
    assert(free_of(group_tag, c));
    lemma_free_of_concat(time_part, level_part, c);
    lemma_free_of_concat(time_part + level_part, tid_part, c);
    lemma_free_of_concat(time_part + level_part + tid_part, place_part, c);
    lemma_free_of_concat(time_part + level_part + tid_part + place_part, group_tag, c);
}

/// A line is one line: it ends with a newline, and where no newline was
/// handed in, that is its only one.
pub proof fn lemma_line_is_one_line(
    l: Level,
    opts: Options,
    color: bool,
    group: Option<Seq<char>>,
    file: Seq<char>,
    line_no: nat,
    msg: Seq<char>,
    stamp: Seq<char>,
    thread: Seq<char>,
)
    ensures
        line_text(l, opts, color, group, file, line_no, msg, stamp, thread).last() == '\n',
        free_of(stamp, '\n') && free_of(thread, '\n') && free_of(file, '\n') && free_of(
            msg,
            '\n',
        ) && (group matches Some(g) ==> free_of(g, '\n')) ==> free_of(
            line_text(l, opts, color, group, file, line_no, msg, stamp, thread).drop_last(),
            '\n',
        ),
{
    let prefix = prefix_text(l, opts, color, group, file, line_no, stamp, thread);
    let line = line_text(l, opts, color, group, file, line_no, msg, stamp, thread);
    reveal_strlit(" ");
    reveal_strlit("\n");
    assert(line.drop_last() =~= prefix + " "@ + msg);
    if free_of(stamp, '\n') && free_of(thread, '\n') && free_of(file, '\n') && free_of(
        msg,
        '\n',
    ) && (group matches Some(g) ==> free_of(g, '\n')) {
        lemma_prefix_is_clean(l, opts, color, group, file, line_no, stamp, thread, '\n');
        lemma_free_of_concat(prefix, " "@, '\n');
        lemma_free_of_concat(prefix + " "@, msg, '\n');
    }
}

/// With colour on, every line carries an ANSI sequence.
pub proof fn lemma_colored_line_has_escape(
    l: Level,
    opts: Options,
    group: Option<Seq<char>>,
    file: Seq<char>,
    line_no: nat,
    msg: Seq<char>,
    stamp: Seq<char>,
    thread: Seq<char>,
)
    ensures
        !free_of(line_text(l, opts, true, group, file, line_no, msg, stamp, thread), escape()),
{
    let time_part = when(opts.show_time, stamp);
    let level_part = level_text(l, true);
    let rest = when(opts.show_tid, tid_text(thread)) + when(
        opts.show_file_line,
        file_line_text(file, line_no),
    ) + group_part(l, opts, true, group) + " "@ + msg + "\n"@;
    let line = line_text(l, opts, true, group, file, line_no, msg, stamp, thread);
    lemma_sequences(l);
    assert(line =~= time_part + level_part + rest);
    assert(level_part[0] == escape());
    assert(line[time_part.len() as int] == level_part[0]);
}

/// With colour off, a line carries no escape character unless one was handed in.
pub proof fn lemma_plain_line_has_no_escape(
    l: Level,
    opts: Options,
    group: Option<Seq<char>>,
    file: Seq<char>,
    line_no: nat,
    msg: Seq<char>,
    stamp: Seq<char>,
    thread: Seq<char>,
)
    requires
        free_of(stamp, escape()),
        free_of(thread, escape()),
        free_of(file, escape()),
        free_of(msg, escape()),
        group matches Some(g) ==> free_of(g, escape()),
    ensures
        free_of(line_text(l, opts, false, group, file, line_no, msg, stamp, thread), escape()),
{
    let prefix = prefix_text(l, opts, false, group, file, line_no, stamp, thread);
    reveal_strlit(" ");
    reveal_strlit("\n");
    lemma_prefix_is_clean(l, opts, false, group, file, line_no, stamp, thread, escape());
    lemma_free_of_concat(prefix, " "@, escape());
    lemma_free_of_concat(prefix + " "@, msg, escape());
    lemma_free_of_concat(prefix + " "@ + msg, "\n"@, escape());
}

} // verus!

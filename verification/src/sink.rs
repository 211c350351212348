//! Where a line goes and whether it carries colour.

use crate::format::{
    lemma_colored_line_has_escape, lemma_plain_line_has_no_escape, line_text, Context, Options,
};
use crate::level::{ColorMode, Level, Target};
use crate::text::{escape, free_of};
use vstd::prelude::*;

verus! {

/// Where a finished line is to be written.
#[derive(Copy, Clone, Eq, PartialEq, Debug, Structural)]
pub enum Route {
    Stdout,
    Stderr,
    /// To the custom writer of the logger.
    Writer,
    /// Nowhere: the target is the custom writer and the logger has none.
    Nowhere,
}

/// A finished line and where it is to be written, in one piece and in one write.
#[derive(Debug)]
pub struct Emission {
    pub route: Route,
    pub text: String,
}

/// A file that was asked for as the sink could not be opened.
#[derive(Copy, Clone, Eq, PartialEq, Debug, Structural)]
pub struct FileError;

/// Where lines go under `target`, for a logger that has a custom writer or has none.
pub open spec fn route_of(target: Target, has_writer: bool) -> Route {
    match target {
        Target::Stdout => Route::Stdout,
        Target::Stderr => Route::Stderr,
        Target::Writer => if has_writer {
            Route::Writer
        } else {
            Route::Nowhere
        },
    }
}

/// Whether `target` is a standard stream that is attached to a terminal. Of a
/// custom writer nothing is known, so it counts as no terminal.
pub open spec fn on_terminal(target: Target, stdout_tty: bool, stderr_tty: bool) -> bool {
    match target {
        Target::Stdout => stdout_tty,
        Target::Stderr => stderr_tty,
        Target::Writer => false,
    }
}

/// Whether lines carry colour: always or never where the mode says so; under
/// `Auto` only where the target is a standard stream attached to a terminal.
pub open spec fn color_decision(
    mode: ColorMode,
    target: Target,
    stdout_tty: bool,
    stderr_tty: bool,
) -> bool {
    match mode {
        ColorMode::Always => true,
        ColorMode::Never => false,
        ColorMode::Auto => on_terminal(target, stdout_tty, stderr_tty),
    }
}

/// Where lines go under `target`.
pub fn resolve_route(target: Target, has_writer: bool) -> (r: Route)
    ensures
        r == route_of(target, has_writer),
{
    match target {
        Target::Stdout => Route::Stdout,
        Target::Stderr => Route::Stderr,
        Target::Writer => if has_writer {
            Route::Writer
        } else {
            Route::Nowhere
        },
    }
}

/// Whether lines for `target` carry colour under `mode`.
pub fn resolve_color(mode: ColorMode, target: Target, cx: &Context) -> (r: bool)
    ensures
        r == color_decision(mode, target, cx.stdout_tty, cx.stderr_tty),
{
    match mode {
        ColorMode::Always => true,
        ColorMode::Never => false,
        ColorMode::Auto => match target {
            Target::Stdout => cx.stdout_tty,
            Target::Stderr => cx.stderr_tty,
            Target::Writer => false,
        },
    }
}

/// `Always` colours whatever the target, `Never` does not, and `Auto` does
/// not on a custom writer nor on a stream that is no terminal.
pub proof fn lemma_color_resolution(target: Target, stdout_tty: bool, stderr_tty: bool)
    ensures
        color_decision(ColorMode::Always, target, stdout_tty, stderr_tty),
        !color_decision(ColorMode::Never, target, stdout_tty, stderr_tty),
        !color_decision(ColorMode::Auto, Target::Writer, stdout_tty, stderr_tty),
        !color_decision(ColorMode::Auto, Target::Stdout, false, stderr_tty),
        !color_decision(ColorMode::Auto, Target::Stderr, stdout_tty, false),
{
}

/// What the colour mode does to a line. Under `Always` every line carries an
/// ANSI sequence, whatever the target. Under `Never`, and under `Auto` where
/// the target is no terminal, a line carries no escape character unless one
/// was handed in with the message, the group, the file, the thread or the
/// time stamp.
pub proof fn lemma_color_mode_decides(
    mode: ColorMode,
    target: Target,
    stdout_tty: bool,
    stderr_tty: bool,
    l: Level,
    opts: Options,
    group: Option<Seq<char>>,
    file: Seq<char>,
    line_no: nat,
    msg: Seq<char>,
    stamp: Seq<char>,
    thread: Seq<char>,
)
    ensures
        mode == ColorMode::Always ==> !free_of(
            line_text(
                l,
                opts,
                color_decision(mode, target, stdout_tty, stderr_tty),
                group,
                file,
                line_no,
                msg,
                stamp,
                thread,
            ),
            escape(),
        ),
        ({
            &&& mode == ColorMode::Never || (mode == ColorMode::Auto && !on_terminal(
                target,
                stdout_tty,
                stderr_tty,
            ))
            &&& free_of(stamp, escape())
            &&& free_of(thread, escape())
            &&& free_of(file, escape())
            &&& free_of(msg, escape())
            &&& group matches Some(g) ==> free_of(g, escape())
        }) ==> free_of(
            line_text(
                l,
                opts,
                color_decision(mode, target, stdout_tty, stderr_tty),
                group,
                file,
                line_no,
                msg,
                stamp,
                thread,
            ),
            escape(),
        ),
{
    if mode == ColorMode::Always {
        lemma_colored_line_has_escape(l, opts, group, file, line_no, msg, stamp, thread);
    }
    if (mode == ColorMode::Never || (mode == ColorMode::Auto && !on_terminal(
        target,
        stdout_tty,
        stderr_tty,
    ))) && free_of(stamp, escape()) && free_of(thread, escape()) && free_of(file, escape())
        && free_of(msg, escape()) && (group matches Some(g) ==> free_of(g, escape())) {
        lemma_plain_line_has_no_escape(l, opts, group, file, line_no, msg, stamp, thread);
    }
}

} // verus!

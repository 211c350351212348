//! The logger that a whole process shares.

use crate::duration::{elapsed_between, took_message, took_text};
use crate::format::{format_line, text_of, Context};
use crate::level::{ColorMode, Level, Target};
use crate::settings::Settings;
use crate::sink::{resolve_color, resolve_route, Emission, FileError};
use crate::state::LoggerState;
use vstd::prelude::*;
use vstd::string::*;

verus! {

/// The process-wide logger: settings, and a sink that is fixed by the first
/// call that names one. `W` is the handle of a custom writer.
pub struct DefaultLogger<W> {
    settings: Settings,
    target: Target,
    target_fixed: bool,
    writer: Option<W>,
    writer_fixed: bool,
}

impl<W> View for DefaultLogger<W> {
    type V = LoggerState<W>;

    closed spec fn view(&self) -> LoggerState<W> {
        LoggerState {
            settings: self.settings,
            target: self.target,
            target_fixed: self.target_fixed,
            writer: self.writer,
            writer_fixed: self.writer_fixed,
        }
    }
}

/// How the banner of a program reads: name, version and kind of build.
pub open spec fn banner_text(name: Seq<char>, version: Seq<char>, optimized: bool) -> Seq<char> {
    name + " "@ + version + " ("@ + (if optimized {
        "release"@
    } else {
        "debug"@
    }) + ")\n"@
}

impl<W> DefaultLogger<W> {
    /// A logger that nobody has touched yet: the settings every logger starts
    /// with, standard error as the target, no writer, nothing fixed.
    pub fn new() -> (g: DefaultLogger<W>)
        ensures
            g@ == LoggerState::<W>::initial(),
    {
        DefaultLogger {
            settings: Settings::new(),
            target: Target::Stderr,
            target_fixed: false,
            writer: None,
            writer_fixed: false,
        }
    }

    /// The settings.
    pub fn settings(&self) -> (s: Settings)
        ensures
            s == self@.settings,
    {
        self.settings
    }

    /// The custom writer, if one is installed.
    pub fn writer(&self) -> (w: Option<&W>)
        ensures
            w == match self@.writer {
                Some(handle) => Some(&handle),
                None => None,
            },
    {
        self.writer.as_ref()
    }

    /// The target, where a call has fixed it.
    pub fn fixed_target(&self) -> (t: Option<Target>)
        ensures
            t == self@.fixed_target(),
    {
        if self.target_fixed {
            Some(self.target)
        } else {
            None
        }
    }
}

/// Names `t` as the target. Only the first call counts: once a call has
/// fixed the target, this changes nothing.
pub fn set_target<W>(g: &mut DefaultLogger<W>, t: Target)
    ensures
        final(g)@ == old(g)@.with_target(t),
{
    if !g.target_fixed {
        g.target = t;
        g.target_fixed = true;
    }
}

/// Offers `w` as the custom writer and names the custom writer as the target.
/// Only the first writer is installed, and a target that is fixed stays.
pub fn set_writer<W>(g: &mut DefaultLogger<W>, w: W)
    ensures
        final(g)@ == old(g)@.with_writer(w),
{
    if !g.writer_fixed {
        g.writer = Some(w);
        g.writer_fixed = true;
    }
    set_target(g, Target::Writer);
}

/// Makes the file that was opened for the logger its custom writer, as
/// `set_writer` does. `opened` is the handle of the file, or `None` where it
/// could not be opened: then nothing changes and the failure is reported.
pub fn set_file<W>(g: &mut DefaultLogger<W>, opened: Option<W>) -> (r: Result<(), FileError>)
    ensures
        match opened {
            Some(w) => r is Ok && final(g)@ == old(g)@.with_writer(w),
            None => r is Err && final(g)@ == old(g)@,
        },
{
    match opened {
        Some(w) => {
            set_writer(g, w);
            Ok(())
        },
        None => Err(FileError),
    }
}

/// The target that lines go to.
pub fn target<W>(g: &DefaultLogger<W>) -> (t: Target)
    ensures
        t == g@.target,
{
    g.target
}

/// The colour mode.
pub fn color_mode<W>(g: &DefaultLogger<W>) -> (m: ColorMode)
    ensures
        m == g@.settings.color_mode,
{
    g.settings.color_mode
}

/// The threshold.
pub fn level<W>(g: &DefaultLogger<W>) -> (l: Level)
    ensures
        l == g@.settings.level,
{
    g.settings.level
}

/// Sets the threshold.
pub fn set_level<W>(g: &mut DefaultLogger<W>, l: Level)
    ensures
        final(g)@ == old(g)@.with_settings(Settings { level: l, ..old(g)@.settings }),
{
    g.settings.level = l;
}

/// Shows or hides the thread.
pub fn set_show_thread_id<W>(g: &mut DefaultLogger<W>, on: bool)
    ensures
        final(g)@ == old(g)@.with_settings(Settings { show_tid: on, ..old(g)@.settings }),
{
    g.settings.show_tid = on;
}

/// Shows or hides the time stamp.
pub fn set_show_time<W>(g: &mut DefaultLogger<W>, on: bool)
    ensures
        final(g)@ == old(g)@.with_settings(Settings { show_time: on, ..old(g)@.settings }),
{
    g.settings.show_time = on;
}

/// Shows or hides file and line.
pub fn set_show_file_line<W>(g: &mut DefaultLogger<W>, on: bool)
    ensures
        final(g)@ == old(g)@.with_settings(Settings { show_file_line: on, ..old(g)@.settings }),
{
    g.settings.show_file_line = on;
}

/// Shows or hides the group.
pub fn set_show_group<W>(g: &mut DefaultLogger<W>, on: bool)
    ensures
        final(g)@ == old(g)@.with_settings(Settings { show_group: on, ..old(g)@.settings }),
{
    g.settings.show_group = on;
}

/// Sets the colour mode.
pub fn set_color_mode<W>(g: &mut DefaultLogger<W>, mode: ColorMode)
    ensures
        final(g)@ == old(g)@.with_settings(Settings { color_mode: mode, ..old(g)@.settings }),
{
    g.settings.color_mode = mode;
}

/// Whether a message of level `l` is at least as severe as the threshold.
pub fn rt_enabled<W>(g: &DefaultLogger<W>, l: Level) -> (r: bool)
    ensures
        r == (l.rank() >= g@.settings.level.rank()),
{
    l.at_least(g.settings.level)
}

/// Takes over what the surroundings say, as `Settings::apply_env` does:
/// `level`, `color`, `show_tid` and `show_time` are the values of the four
/// variables, each `None` where the variable is not set.
pub fn init_from_env<W>(
    g: &mut DefaultLogger<W>,
    level: Option<&str>,
    color: Option<&str>,
    show_tid: Option<&str>,
    show_time: Option<&str>,
)
    ensures
        final(g)@ == old(g)@.with_settings(
            old(g)@.settings.after_env(
                text_of(level),
                text_of(color),
                text_of(show_tid),
                text_of(show_time),
            ),
        ),
{
    g.settings.apply_env(level, color, show_tid, show_time);
}

/// Whether a line carries colour.
pub fn use_color<W>(g: &DefaultLogger<W>, cx: &Context) -> (r: bool)
    ensures
        r == g@.use_color(*cx),
{
    resolve_color(g.settings.color_mode, target(g), cx)
}

/// Hands a finished text to the sink: says where it is to be written, in one
/// piece.
pub fn emit_raw_bytes<W>(g: &DefaultLogger<W>, text: String) -> (e: Emission)
    ensures
        e.text@ == text@,
        e.route == g@.route(),
{
    Emission { route: resolve_route(target(g), g.writer.is_some()), text }
}

/// Makes the line for a message and says where it goes, or nothing where the
/// level of the message is not let through.
pub fn emit<W>(
    g: &DefaultLogger<W>,
    l: Level,
    group: Option<&str>,
    file: &str,
    line_no: u32,
    msg: &str,
    cx: &Context,
) -> (r: Option<Emission>)
    ensures
        match r {
            Some(e) => {
                &&& g@.settings.lets_through(l, cx.optimized)
                &&& e.route == g@.route()
                &&& e.text@ == g@.line(l, text_of(group), file@, line_no as nat, msg@, *cx)
            },
            None => !g@.settings.lets_through(l, cx.optimized),
        },
{
    if !g.settings.is_enabled(l, cx.optimized) {
        return None;
    }
    let color = use_color(g, cx);
    let opts = g.settings.to_options();
    let text = format_line(l, &opts, color, group, file, line_no, msg, cx);
    Some(emit_raw_bytes(g, text))
}

/// Makes the banner of a program, name, version and kind of build on one
/// line, and says where it goes. The threshold does not hold it back.
pub fn banner<W>(g: &DefaultLogger<W>, name: &str, version: &str, optimized: bool) -> (e: Emission)
    ensures
        e.text@ == banner_text(name@, version@, optimized),
        e.route == g@.route(),
{
    let mut text = String::new();
    text.append(name);
    text.append(" ");
    text.append(version);
    text.append(" (");
    if optimized {
        text.append("release");
    } else {
        text.append("debug");
    }
    text.append(")\n");
    assert(text@ =~= banner_text(name@, version@, optimized));
    emit_raw_bytes(g, text)
}

/// A timer over a scope of the program: it is made where the scope begins
/// and finished, once, where the scope ends.
pub struct TimerGuard<'a> {
    label: &'a str,
    file: &'a str,
    line: u32,
    start: u128,
}

/// What a `TimerGuard` holds.
pub struct TimerGuardView {
    pub label: Seq<char>,
    pub file: Seq<char>,
    pub line: u32,
    /// When the scope began, in nanoseconds of a clock that does not run backwards.
    pub start: u128,
}

impl<'a> View for TimerGuard<'a> {
    type V = TimerGuardView;

    closed spec fn view(&self) -> TimerGuardView {
        TimerGuardView { label: self.label@, file: self.file@, line: self.line, start: self.start }
    }
}

impl<'a> TimerGuard<'a> {
    /// Starts a timer at `start`, a reading in nanoseconds of a clock that
    /// does not run backwards. Nothing is written.
    pub fn new_at(label: &'a str, file: &'a str, line: u32, start: u128) -> (t: TimerGuard<'a>)
        ensures
            t@ == (TimerGuardView { label: label@, file: file@, line, start }),
    {
        TimerGuard { label, file, line, start }
    }

    /// Ends the timer at `now`, a later reading of the same clock: one line
    /// of level `Info` with the label as its group, saying how long the scope
    /// took. The timer is used up.
    pub fn finish<W>(self, g: &DefaultLogger<W>, now: u128, cx: &Context) -> (r: Option<Emission>)
        ensures
            match r {
                Some(e) => {
                    &&& g@.settings.lets_through(Level::Info, cx.optimized)
                    &&& e.route == g@.route()
                    &&& e.text@ == g@.line(
                        Level::Info,
                        Some(self@.label),
                        self@.file,
                        self@.line as nat,
                        took_text(elapsed_between(self@.start as nat, now as nat)),
                        *cx,
                    )
                },
                None => !g@.settings.lets_through(Level::Info, cx.optimized),
            },
    {
        let msg = took_message(self.start, now);
        emit(g, Level::Info, Some(self.label), self.file, self.line, msg.as_str(), cx)
    }
}

} // verus!

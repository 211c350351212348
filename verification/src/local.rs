//! Loggers that are made where they are needed: each with settings and a sink
//! of its own, put together by a builder.

use crate::duration::{elapsed_between, took_message, took_text};
use crate::format::{format_line, text_of, Context};
use crate::level::{ColorMode, Level, Target};
use crate::settings::Settings;
use crate::sink::{color_decision, resolve_color, resolve_route, Emission, FileError};
use crate::state::LoggerState;
use vstd::prelude::*;
use vstd::string::*;

verus! {

/// A logger of its own: settings, and a sink that starts as its builder
/// chose and is fixed by the first call that names one. `W` is the handle of
/// a custom writer.
pub struct Logger<W> {
    settings: Settings,
    target: Target,
    target_fixed: bool,
    writer: Option<W>,
    writer_fixed: bool,
}

impl<W> View for Logger<W> {
    type V = LoggerState<W>;

    closed spec fn view(&self) -> LoggerState<W> {
        LoggerState {
            settings: self.settings,
            target: self.target,
            target_fixed: self.target_fixed,
            writer: self.writer,
            writer_fixed: self.writer_fixed,
        }
    }
}

impl<W> Default for Logger<W> {
    fn default() -> (lg: Logger<W>)
        ensures
            lg@ == LoggerState::<W>::initial(),
    {
        Logger {
            settings: Settings::new(),
            target: Target::Stderr,
            target_fixed: false,
            writer: None,
            writer_fixed: false,
        }
    }
}

impl<W> Logger<W> {
    /// A builder with nothing chosen yet.
    pub fn builder() -> (b: LoggerBuilder<W>)
        ensures
            b@ == LoggerBuilderView::<W>::initial(),
    {
        LoggerBuilder::default()
    }

    /// The settings.
    pub fn settings(&self) -> (s: Settings)
        ensures
            s == self@.settings,
    {
        self.settings
    }

    /// The target that lines go to.
    pub fn target(&self) -> (t: Target)
        ensures
            t == self@.target,
    {
        self.target
    }

    /// The target, where a call has fixed it.
    pub fn fixed_target(&self) -> (t: Option<Target>)
        ensures
            t == self@.fixed_target(),
    {
        if self.target_fixed {
            Some(self.target)
        } else {
            None
        }
    }

    /// The custom writer, if the logger has one.
    pub fn writer(&self) -> (w: Option<&W>)
        ensures
            w == match self@.writer {
                Some(handle) => Some(&handle),
                None => None,
            },
    {
        self.writer.as_ref()
    }

    /// Sets the threshold.
    pub fn set_level(&mut self, l: Level)
        ensures
            final(self)@ == old(self)@.with_settings(Settings { level: l, ..old(self)@.settings }),
    {
        self.settings.level = l;
    }

    /// Shows or hides the thread.
    pub fn set_show_thread_id(&mut self, on: bool)
        ensures
            final(self)@ == old(self)@.with_settings(
                Settings { show_tid: on, ..old(self)@.settings },
            ),
    {
        self.settings.show_tid = on;
    }

    /// Shows or hides the time stamp.
    pub fn set_show_time(&mut self, on: bool)
        ensures
            final(self)@ == old(self)@.with_settings(
                Settings { show_time: on, ..old(self)@.settings },
            ),
    {
        self.settings.show_time = on;
    }

    /// Shows or hides the group.
    pub fn set_show_group(&mut self, on: bool)
        ensures
            final(self)@ == old(self)@.with_settings(
                Settings { show_group: on, ..old(self)@.settings },
            ),
    {
        self.settings.show_group = on;
    }

    /// Shows or hides file and line.
    pub fn set_show_file_line(&mut self, on: bool)
        ensures
            final(self)@ == old(self)@.with_settings(
                Settings { show_file_line: on, ..old(self)@.settings },
            ),
    {
        self.settings.show_file_line = on;
    }

    /// Sets the colour mode.
    pub fn set_color_mode(&mut self, m: ColorMode)
        ensures
            final(self)@ == old(self)@.with_settings(
                Settings { color_mode: m, ..old(self)@.settings },
            ),
    {
        self.settings.color_mode = m;
    }

    /// Names `t` as the target. Only the first call counts: once a call has
    /// fixed the target, this changes nothing. What the builder chose does
    /// not count as a call.
    pub fn set_target(&mut self, t: Target)
        ensures
            final(self)@ == old(self)@.with_target(t),
    {
        if !self.target_fixed {
            self.target = t;
            self.target_fixed = true;
        }
    }

    /// Offers `w` as the custom writer and names the custom writer as the
    /// target. Only the first writer that a call offers is installed, in
    /// place of what the builder chose, and a target that is fixed stays.
    pub fn set_writer(&mut self, w: W)
        ensures
            final(self)@ == old(self)@.with_writer(w),
    {
        if !self.writer_fixed {
            self.writer = Some(w);
            self.writer_fixed = true;
        }
        self.set_target(Target::Writer);
    }

    /// Makes the file that was opened for the logger its custom writer, as
    /// `set_writer` does. `opened` is the handle of the file, or `None` where
    /// it could not be opened: then nothing changes and the failure is
    /// reported.
    pub fn set_file(&mut self, opened: Option<W>) -> (r: Result<(), FileError>)
        ensures
            match opened {
                Some(w) => r is Ok && final(self)@ == old(self)@.with_writer(w),
                None => r is Err && final(self)@ == old(self)@,
            },
    {
        match opened {
            Some(w) => {
                self.set_writer(w);
                Ok(())
            },
            None => Err(FileError),
        }
    }

    /// Whether a message of level `l` is at least as severe as the threshold.
    pub fn enabled(&self, l: Level) -> (r: bool)
        ensures
            r == (l.rank() >= self@.settings.level.rank()),
    {
        l.at_least(self.settings.level)
    }

    /// Whether a line for `target` carries colour.
    pub fn use_color_for_target(&self, target: Target, cx: &Context) -> (r: bool)
        ensures
            r == color_decision(self@.settings.color_mode, target, cx.stdout_tty, cx.stderr_tty),
    {
        resolve_color(self.settings.color_mode, target, cx)
    }

    /// Makes the line for a message and says where it goes, or nothing where
    /// the level of the message is not let through.
    pub fn emit_to(
        &self,
        l: Level,
        group: Option<&str>,
        file: &str,
        line_no: u32,
        msg: &str,
        cx: &Context,
    ) -> (r: Option<Emission>)
        ensures
            match r {
                Some(e) => {
                    &&& self@.settings.lets_through(l, cx.optimized)
                    &&& e.route == self@.route()
                    &&& e.text@ == self@.line(l, text_of(group), file@, line_no as nat, msg@, *cx)
                },
                None => !self@.settings.lets_through(l, cx.optimized),
            },
    {
        if !self.settings.is_enabled(l, cx.optimized) {
            return None;
        }
        let target = self.target;
        let route = resolve_route(target, self.writer.is_some());
        let color = self.use_color_for_target(target, cx);
        let opts = self.settings.to_options();
        let text = format_line(l, &opts, color, group, file, line_no, msg, cx);
        Some(Emission { route, text })
    }
}

/// A timer over a scope of the program, for one logger: it is made where the
/// scope begins and finished, once, where the scope ends.
pub struct TimerGuard<'a, W> {
    logger: &'a Logger<W>,
    label: &'a str,
    file: &'a str,
    line: u32,
    start: u128,
}

/// What a `TimerGuard` holds.
pub struct TimerGuardView<W> {
    /// The logger that the line will go through.
    pub logger: LoggerState<W>,
    pub label: Seq<char>,
    pub file: Seq<char>,
    pub line: u32,
    /// When the scope began, in nanoseconds of a clock that does not run backwards.
    pub start: u128,
}

impl<'a, W> View for TimerGuard<'a, W> {
    type V = TimerGuardView<W>;

    closed spec fn view(&self) -> TimerGuardView<W> {
        TimerGuardView {
            logger: self.logger@,
            label: self.label@,
            file: self.file@,
            line: self.line,
            start: self.start,
        }
    }
}

impl<'a, W> TimerGuard<'a, W> {
    /// Starts a timer for `logger` at `start`, a reading in nanoseconds of a
    /// clock that does not run backwards. Nothing is written.
    pub fn new_at(logger: &'a Logger<W>, label: &'a str, file: &'a str, line: u32, start: u128) -> (t:
        TimerGuard<'a, W>)
        ensures
            t@ == (TimerGuardView { logger: logger@, label: label@, file: file@, line, start }),
    {
        TimerGuard { logger, label, file, line, start }
    }

    /// Ends the timer at `now`, a later reading of the same clock: one line
    /// of level `Info` through the logger of the timer, with the label as its
    /// group, saying how long the scope took. The timer is used up.
    pub fn finish(self, now: u128, cx: &Context) -> (r: Option<Emission>)
        ensures
            match r {
                Some(e) => {
                    &&& self@.logger.settings.lets_through(Level::Info, cx.optimized)
                    &&& e.route == self@.logger.route()
                    &&& e.text@ == self@.logger.line(
                        Level::Info,
                        Some(self@.label),
                        self@.file,
                        self@.line as nat,
                        took_text(elapsed_between(self@.start as nat, now as nat)),
                        *cx,
                    )
                },
                None => !self@.logger.settings.lets_through(Level::Info, cx.optimized),
            },
    {
        let msg = took_message(self.start, now);
        self.logger.emit_to(Level::Info, Some(self.label), self.file, self.line, msg.as_str(), cx)
    }
}

/// The choices for a logger that is about to be made.
pub struct LoggerBuilder<W> {
    level: Level,
    show_tid: Option<bool>,
    show_time: Option<bool>,
    show_group: Option<bool>,
    show_file_line: Option<bool>,
    color_mode: Option<ColorMode>,
    target: Target,
    writer: Option<W>,
    file_path: Option<String>,
}

/// What a `LoggerBuilder` holds. A choice that was not made is `None`.
pub struct LoggerBuilderView<W> {
    pub level: Level,
    pub show_tid: Option<bool>,
    pub show_time: Option<bool>,
    pub show_group: Option<bool>,
    pub show_file_line: Option<bool>,
    pub color_mode: Option<ColorMode>,
    pub target: Target,
    pub writer: Option<W>,
    /// The file that is to be the sink.
    pub file_path: Option<Seq<char>>,
}

impl<W> View for LoggerBuilder<W> {
    type V = LoggerBuilderView<W>;

    closed spec fn view(&self) -> LoggerBuilderView<W> {
        LoggerBuilderView {
            level: self.level,
            show_tid: self.show_tid,
            show_time: self.show_time,
            show_group: self.show_group,
            show_file_line: self.show_file_line,
            color_mode: self.color_mode,
            target: self.target,
            writer: self.writer,
            file_path: match self.file_path {
                Some(p) => Some(p@),
                None => None,
            },
        }
    }
}

/// `chosen` where a choice was made, `otherwise` where none was.
pub open spec fn chosen_or<T>(chosen: Option<T>, otherwise: T) -> T {
    match chosen {
        Some(c) => c,
        None => otherwise,
    }
}

impl<W> LoggerBuilderView<W> {
    /// A builder with nothing chosen yet.
    pub open spec fn initial() -> Self {
        LoggerBuilderView {
            level: Level::Info,
            show_tid: None,
            show_time: None,
            show_group: None,
            show_file_line: None,
            color_mode: None,
            target: Target::Stderr,
            writer: None,
            file_path: None,
        }
    }

    /// The file that has to be opened before the logger can be made: the one
    /// that was named, as long as the custom writer is still the target.
    pub open spec fn pending_file(self) -> Option<Seq<char>> {
        if self.target == Target::Writer {
            self.file_path
        } else {
            None
        }
    }

    /// The settings of the logger that is made: what was chosen, and for the
    /// rest what every logger starts with.
    pub open spec fn settings(self) -> Settings {
        Settings {
            level: self.level,
            show_tid: chosen_or(self.show_tid, Settings::initial().show_tid),
            show_time: chosen_or(self.show_time, Settings::initial().show_time),
            show_group: chosen_or(self.show_group, Settings::initial().show_group),
            show_file_line: chosen_or(self.show_file_line, Settings::initial().show_file_line),
            color_mode: chosen_or(self.color_mode, Settings::initial().color_mode),
        }
    }

    /// The logger that is made, `opened` being the handle of the file that
    /// had to be opened. It starts with the sink that was chosen, and nothing
    /// is fixed yet: the first call that names a target or offers a writer
    /// still counts.
    pub open spec fn built(self, opened: Option<W>) -> LoggerState<W> {
        LoggerState {
            settings: self.settings(),
            target: self.target,
            target_fixed: false,
            writer: if self.pending_file() is Some {
                opened
            } else {
                self.writer
            },
            writer_fixed: false,
        }
    }
}

impl<W> Default for LoggerBuilder<W> {
    fn default() -> (b: LoggerBuilder<W>)
        ensures
            b@ == LoggerBuilderView::<W>::initial(),
    {
        LoggerBuilder {
            level: Level::Info,
            show_tid: None,
            show_time: None,
            show_group: None,
            show_file_line: None,
            color_mode: None,
            target: Target::Stderr,
            writer: None,
            file_path: None,
        }
    }
}

impl<W> LoggerBuilder<W> {
    /// Chooses the threshold.
    pub fn set_level(self, l: Level) -> (b: LoggerBuilder<W>)
        ensures
            b@ == (LoggerBuilderView { level: l, ..self@ }),
    {
        let mut b = self;
        b.level = l;
        b
    }

    /// Chooses whether the thread is shown.
    pub fn set_show_thread_id(self, on: bool) -> (b: LoggerBuilder<W>)
        ensures
            b@ == (LoggerBuilderView { show_tid: Some(on), ..self@ }),
    {
        let mut b = self;
        b.show_tid = Some(on);
        b
    }

    /// Chooses whether the time stamp is shown.
    pub fn set_show_time(self, on: bool) -> (b: LoggerBuilder<W>)
        ensures
            b@ == (LoggerBuilderView { show_time: Some(on), ..self@ }),
    {
        let mut b = self;
        b.show_time = Some(on);
        b
    }

    /// Chooses whether the group is shown.
    pub fn set_show_group(self, on: bool) -> (b: LoggerBuilder<W>)
        ensures
            b@ == (LoggerBuilderView { show_group: Some(on), ..self@ }),
    {
        let mut b = self;
        b.show_group = Some(on);
        b
    }

    /// Chooses whether file and line are shown.
    pub fn set_show_file_line(self, on: bool) -> (b: LoggerBuilder<W>)
        ensures
            b@ == (LoggerBuilderView { show_file_line: Some(on), ..self@ }),
    {
        let mut b = self;
        b.show_file_line = Some(on);
        b
    }

    /// Chooses the colour mode.
    pub fn set_color_mode(self, m: ColorMode) -> (b: LoggerBuilder<W>)
        ensures
            b@ == (LoggerBuilderView { color_mode: Some(m), ..self@ }),
    {
        let mut b = self;
        b.color_mode = Some(m);
        b
    }

    /// Chooses standard output as the target.
    pub fn stdout(self) -> (b: LoggerBuilder<W>)
        ensures
            b@ == (LoggerBuilderView { target: Target::Stdout, ..self@ }),
    {
        let mut b = self;
        b.target = Target::Stdout;
        b
    }

    /// Chooses standard error as the target.
    pub fn stderr(self) -> (b: LoggerBuilder<W>)
        ensures
            b@ == (LoggerBuilderView { target: Target::Stderr, ..self@ }),
    {
        let mut b = self;
        b.target = Target::Stderr;
        b
    }

    /// Chooses `w` as the custom writer and the custom writer as the target.
    pub fn set_writer(self, w: W) -> (b: LoggerBuilder<W>)
        ensures
            b@ == (LoggerBuilderView { target: Target::Writer, writer: Some(w), ..self@ }),
    {
        let mut b = self;
        b.target = Target::Writer;
        b.writer = Some(w);
        b
    }

    /// Chooses the file at `p` as the sink, to be opened when the logger is
    /// made, and the custom writer as the target.
    pub fn file(self, p: &str) -> (b: LoggerBuilder<W>)
        ensures
            b@ == (LoggerBuilderView { target: Target::Writer, file_path: Some(p@), ..self@ }),
    {
        let mut b = self;
        b.target = Target::Writer;
        b.file_path = Some(p.to_owned());
        b
    }

    /// The file that has to be opened, for appending and made if it is not
    /// there, before the logger can be made.
    pub fn pending_file(&self) -> (p: Option<&str>)
        ensures
            text_of(p) == self@.pending_file(),
    {
        match self.target {
            Target::Writer => match &self.file_path {
                Some(path) => Some(path.as_str()),
                None => None,
            },
            _ => None,
        }
    }

    /// Makes the logger. `opened` is the handle of the pending file, or
    /// `None` where that file could not be opened or no file is pending.
    ///
    /// The logger is made unless a file is pending and was not opened. The
    /// opened file becomes its writer; with no file pending the writer is the
    /// one that was chosen, and `opened` is dropped.
    pub fn build(self, opened: Option<W>) -> (r: Result<Logger<W>, FileError>)
        ensures
            match r {
                Ok(lg) => !(self@.pending_file() is Some && opened is None) && lg@ == self@.built(
                    opened,
                ),
                Err(_) => self@.pending_file() is Some && opened is None,
            },
    {
        let pending = self.pending_file().is_some();
        let writer = if pending {
            if opened.is_none() {
                return Err(FileError);
            }
            opened
        } else {
            self.writer
        };
        let mut lg = Logger {
            settings: Settings::new(),
            target: self.target,
            target_fixed: false,
            writer,
            writer_fixed: false,
        };
        lg.set_level(self.level);
        if let Some(x) = self.show_tid {
            lg.set_show_thread_id(x);
        }
        if let Some(x) = self.show_time {
            lg.set_show_time(x);
        }
        if let Some(x) = self.show_group {
            lg.set_show_group(x);
        }
        if let Some(x) = self.show_file_line {
            lg.set_show_file_line(x);
        }
        if let Some(x) = self.color_mode {
            lg.set_color_mode(x);
        }
        Ok(lg)
    }
}

/// Calls `Box::leak`: the value in the box is never freed and can be borrowed
/// for the rest of the program.
///
/// Trusted: the borrowed value is the one that was in the box.
#[verifier::external_body]
fn leak<T: 'static>(boxed: Box<T>) -> (r: &'static T)
    ensures
        *r == *boxed,
{
    Box::leak(boxed)
}

impl<W: 'static> LoggerBuilder<W> {
    /// Makes the logger as `build` does and lets it live for the rest of the
    /// program.
    pub fn build_static(self, opened: Option<W>) -> (r: Result<&'static Logger<W>, FileError>)
        ensures
            match r {
                Ok(lg) => !(self@.pending_file() is Some && opened is None) && lg@ == self@.built(
                    opened,
                ),
                Err(_) => self@.pending_file() is Some && opened is None,
            },
    {
        match self.build(opened) {
            Ok(lg) => Ok(leak(Box::new(lg))),
            Err(e) => Err(e),
        }
    }
}

} // verus!

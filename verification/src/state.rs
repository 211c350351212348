//! What a logger holds, and what follows from it: where lines go, whether
//! they carry colour, how they read.

use crate::format::{line_text, Context};
use crate::level::{Level, Target};
use crate::settings::Settings;
use crate::sink::{color_decision, route_of, Route};
use vstd::prelude::*;

verus! {

/// What a logger holds. `W` is the handle of a custom writer.
///
/// A logger starts with a target and perhaps a writer: standard error and
/// none, or what its builder chose. The first call that names a target fixes
/// the target, and the first call that offers a writer fixes the writer: what
/// later calls bring is dropped.
pub struct LoggerState<W> {
    pub settings: Settings,
    /// Where lines go.
    pub target: Target,
    /// Whether a call has fixed the target.
    pub target_fixed: bool,
    /// The custom writer, if there is one.
    pub writer: Option<W>,
    /// Whether a call has fixed the writer.
    pub writer_fixed: bool,
}

impl<W> LoggerState<W> {
    /// A logger that nobody has touched yet: the settings every logger starts
    /// with, standard error as the target, no writer, nothing fixed.
    pub open spec fn initial() -> Self {
        LoggerState {
            settings: Settings::initial(),
            target: Target::Stderr,
            target_fixed: false,
            writer: None,
            writer_fixed: false,
        }
    }

    /// The logger with other settings.
    pub open spec fn with_settings(self, settings: Settings) -> Self {
        LoggerState { settings, ..self }
    }

    /// The logger after a call named `t` as the target: `t` is the target
    /// from now on if this is the first such call, and nothing changes if it
    /// is not.
    pub open spec fn with_target(self, t: Target) -> Self {
        if self.target_fixed {
            self
        } else {
            LoggerState { target: t, target_fixed: true, ..self }
        }
    }

    /// The logger after a call offered `w` as the custom writer: `w` is the
    /// writer from now on if this is the first such call, and the custom
    /// writer is named as the target.
    pub open spec fn with_writer(self, w: W) -> Self {
        if self.writer_fixed {
            self.with_target(Target::Writer)
        } else {
            (LoggerState { writer: Some(w), writer_fixed: true, ..self }).with_target(
                Target::Writer,
            )
        }
    }

    /// The target, where a call has fixed it.
    pub open spec fn fixed_target(self) -> Option<Target> {
        if self.target_fixed {
            Some(self.target)
        } else {
            None
        }
    }

    /// Where a line goes.
    pub open spec fn route(self) -> Route {
        route_of(self.target, self.writer is Some)
    }

    /// Whether a line carries colour.
    pub open spec fn use_color(self, cx: Context) -> bool {
        color_decision(self.settings.color_mode, self.target, cx.stdout_tty, cx.stderr_tty)
    }

    /// The line that a message makes.
    pub open spec fn line(
        self,
        l: Level,
        group: Option<Seq<char>>,
        file: Seq<char>,
        line_no: nat,
        msg: Seq<char>,
        cx: Context,
    ) -> Seq<char> {
        line_text(
            l,
            self.settings.options(),
            self.use_color(cx),
            group,
            file,
            line_no,
            msg,
            cx.now.stamp(),
            cx.thread@,
        )
    }
}

/// The first call that names a target decides where lines go, for every
/// logger, whatever it started with; every later call changes nothing.
pub proof fn lemma_target_is_latched<W>(s: LoggerState<W>, first: Target, later: Target)
    ensures
        s.with_target(first).target_fixed,
        !s.target_fixed ==> s.with_target(first).target == first,
        s.with_target(first).with_target(later) == s.with_target(first),
        s.with_target(first).with_target(later).route() == s.with_target(first).route(),
        s.target_fixed ==> s.with_target(later) == s,
{
}

/// The first writer that a call offers stays: a second one is dropped, and
/// after a writer was offered no naming of a target changes where lines go. A
/// writer that is offered before any call named a target gets the lines.
pub proof fn lemma_writer_is_latched<W>(s: LoggerState<W>, first: W, second: W, later: Target)
    ensures
        !s.writer_fixed ==> s.with_writer(first).writer == Some(first),
        s.with_writer(first).with_writer(second) == s.with_writer(first),
        s.with_writer(first).with_target(later) == s.with_writer(first),
        !s.writer_fixed && !s.target_fixed ==> s.with_writer(first).route() == Route::Writer,
        s.target_fixed ==> s.with_writer(first).target == s.target,
{
}

} // verus!

//! What a logger can be told about its lines.

use crate::format::{text_of, Options};
use crate::level::{
    color_mode_named, ct_enabled, flag_named, floor_of, level_named, parse_color_mode,
    parse_flag, parse_level, passes_floor, ColorMode, Level,
};
use vstd::prelude::*;

verus! {

/// The threshold, the parts of the prefix to show, and the colour mode.
#[derive(Copy, Clone, Eq, PartialEq, Debug, Structural)]
pub struct Settings {
    /// The least severity that is let through.
    pub level: Level,
    pub show_tid: bool,
    pub show_time: bool,
    pub show_group: bool,
    pub show_file_line: bool,
    pub color_mode: ColorMode,
}

/// What one of the four switches of the surroundings does to a stored switch:
/// it replaces it where it is given.
pub open spec fn flag_after(stored: bool, given: Option<Seq<char>>) -> bool {
    match given {
        Some(text) => flag_named(text),
        None => stored,
    }
}

/// What a level given by the surroundings does to the stored threshold: it
/// replaces it where it is given and names a level.
pub open spec fn level_after(stored: Level, given: Option<Seq<char>>) -> Level {
    match given {
        Some(text) => match level_named(text) {
            Some(l) => l,
            None => stored,
        },
        None => stored,
    }
}

/// What a colour mode given by the surroundings does to the stored mode: it
/// replaces it where it is given and names a mode.
pub open spec fn color_mode_after(stored: ColorMode, given: Option<Seq<char>>) -> ColorMode {
    match given {
        Some(text) => match color_mode_named(text) {
            Some(m) => m,
            None => stored,
        },
        None => stored,
    }
}

impl Settings {
    /// The settings that a logger starts with: threshold `Info`, every part
    /// of the prefix shown, colour on terminals only.
    pub open spec fn initial() -> Settings {
        Settings {
            level: Level::Info,
            show_tid: true,
            show_time: true,
            show_group: true,
            show_file_line: true,
            color_mode: ColorMode::Auto,
        }
    }

    /// The parts of the prefix that these settings show.
    pub open spec fn options(self) -> Options {
        Options {
            show_time: self.show_time,
            show_tid: self.show_tid,
            show_file_line: self.show_file_line,
            show_group: self.show_group,
        }
    }

    /// Whether a message of level `l` is let through: it passes the floor of
    /// the build and is at least as severe as the threshold. Both have to hold.
    pub open spec fn lets_through(self, l: Level, optimized: bool) -> bool {
        passes_floor(optimized, l) && l.rank() >= self.level.rank()
    }

    /// The settings after the surroundings were read: each of the four values
    /// that is given and can be read replaces what was stored, and nothing else
    /// changes.
    pub open spec fn after_env(
        self,
        level: Option<Seq<char>>,
        color: Option<Seq<char>>,
        show_tid: Option<Seq<char>>,
        show_time: Option<Seq<char>>,
    ) -> Settings {
        Settings {
            level: level_after(self.level, level),
            color_mode: color_mode_after(self.color_mode, color),
            show_tid: flag_after(self.show_tid, show_tid),
            show_time: flag_after(self.show_time, show_time),
            ..self
        }
    }

    /// The settings that a logger starts with.
    pub fn new() -> (s: Settings)
        ensures
            s == Settings::initial(),
    {
        Settings {
            level: Level::Info,
            show_tid: true,
            show_time: true,
            show_group: true,
            show_file_line: true,
            color_mode: ColorMode::Auto,
        }
    }

    /// The parts of the prefix that these settings show.
    pub fn to_options(&self) -> (o: Options)
        ensures
            o == self.options(),
    {
        Options {
            show_time: self.show_time,
            show_tid: self.show_tid,
            show_file_line: self.show_file_line,
            show_group: self.show_group,
        }
    }

    /// Whether a message of level `l` is let through in a build that is
    /// optimized, or in one that is not.
    pub fn is_enabled(&self, l: Level, optimized: bool) -> (r: bool)
        ensures
            r == self.lets_through(l, optimized),
    {
        ct_enabled(optimized, l) && l.at_least(self.level)
    }

    /// Takes over what the surroundings say: a level name, a colour mode name
    /// and the two switches for thread and time. A value that is not given
    /// leaves its setting alone, and so does a level or a colour mode that
    /// cannot be read; a switch is on for `1` and `true` and off for anything
    /// else.
    pub fn apply_env(
        &mut self,
        level: Option<&str>,
        color: Option<&str>,
        show_tid: Option<&str>,
        show_time: Option<&str>,
    )
        ensures
            *final(self) == old(self).after_env(
                text_of(level),
                text_of(color),
                text_of(show_tid),
                text_of(show_time),
            ),
    {
        if let Some(text) = level {
            if let Some(l) = parse_level(text) {
                self.level = l;
            }
        }
        if let Some(text) = color {
            if let Ok(m) = parse_color_mode(text) {
                self.color_mode = m;
            }
        }
        if let Some(text) = show_tid {
            self.show_tid = parse_flag(text);
        }
        if let Some(text) = show_time {
            self.show_time = parse_flag(text);
        }
    }
}

/// Below the threshold nothing is let through, and neither is what lies below
/// the floor of the build. Everything else is: in a build for debugging all
/// that is at or above the threshold, in an optimized one all that is at or
/// above the threshold and `Info`.
pub proof fn lemma_threshold_gates(s: Settings, l: Level, optimized: bool)
    ensures
        l.rank() < s.level.rank() ==> !s.lets_through(l, optimized),
        l.rank() < floor_of(optimized).rank() ==> !s.lets_through(l, optimized),
        l.rank() >= s.level.rank() ==> s.lets_through(l, false),
        l.rank() >= s.level.rank() && l.rank() >= Level::Info.rank() ==> s.lets_through(l, true),
{
}

/// Values of the surroundings that cannot be read change nothing: with no
/// level and no colour mode that can be read, threshold and colour mode stay.
pub proof fn lemma_unreadable_env_keeps_settings(
    s: Settings,
    level: Seq<char>,
    color: Seq<char>,
)
    requires
        level_named(level) is None,
        color_mode_named(color) is None,
    ensures
        s.after_env(Some(level), Some(color), None, None) == s,
{
}

} // verus!

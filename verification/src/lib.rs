//! Leveled, optionally coloured log lines with scoped timers: the formatting and
//! routing rules, with every rule stated as a contract.
//!
//! Nothing here writes. A logger makes a line and says where it goes; the
//! caller reads the clock, asks the terminal and does the writing.

pub mod calendar;
pub mod clock;
pub mod digits;
pub mod duration;
pub mod format;
pub mod global;
pub mod level;
pub mod local;
pub mod settings;
pub mod sink;
pub mod state;
pub mod text;

pub use clock::Clock;
pub use duration::HumanDuration;
pub use format::Context;
pub use global::{
    banner, color_mode, emit, emit_raw_bytes, init_from_env, level, rt_enabled, set_color_mode,
    set_file, set_level, set_show_file_line, set_show_group, set_show_thread_id, set_show_time,
    set_target, set_writer, target, use_color, DefaultLogger, TimerGuard,
};
pub use level::{
    color_mode_from_u8, ct_enabled, ct_floor, level_color, level_from_u8, parse_color_mode,
    ColorMode, Level, ParseColorModeError, Target,
};
pub use settings::Settings;
pub use sink::{Emission, FileError, Route};
pub use state::LoggerState;

//! Severities, colour policy and output targets, and how each is read from text
//! or from a stored byte.

use vstd::prelude::*;
use vstd::string::*;

verus! {

/// How severe a message is. The variants are listed from least to most severe.
#[derive(Copy, Clone, Eq, PartialEq, Ord, PartialOrd, Debug, Structural)]
pub enum Level {
    Trace,
    Debug,
    Info,
    Warn,
    Error,
    Fatal,
}

/// Whether lines carry ANSI colour.
#[derive(Copy, Clone, Eq, PartialEq, Debug, Structural)]
pub enum ColorMode {
    /// Colour only where the target is a standard stream attached to a terminal.
    Auto,
    Always,
    Never,
}

/// A text that names no colour mode.
#[derive(Copy, Clone, Eq, PartialEq, Debug, Structural)]
pub struct ParseColorModeError;

/// Where lines go.
#[derive(Copy, Clone, Eq, PartialEq, Debug, Structural)]
pub enum Target {
    Stdout,
    Stderr,
    /// The custom writer of the logger, if it has one.
    Writer,
}

/// The floor of a build: every level where the build is for debugging, `Info`
/// and above where it is optimized, so that the call sites below cost nothing.
pub open spec fn floor_of(optimized: bool) -> Level {
    if optimized {
        Level::Info
    } else {
        Level::Trace
    }
}

/// The code point of `c`, with the upper-case ASCII letters moved onto the lower-case ones.
pub open spec fn ascii_fold(c: char) -> int {
    if 'A' <= c && c <= 'Z' {
        c as int + 32
    } else {
        c as int
    }
}

/// `a` and `b` are the same text up to the case of ASCII letters.
pub open spec fn same_ignoring_ascii_case(a: Seq<char>, b: Seq<char>) -> bool {
    &&& a.len() == b.len()
    &&& forall|i: int| 0 <= i < a.len() ==> ascii_fold(#[trigger] a[i]) == ascii_fold(b[i])
}

/// The colour mode that `text` names: `always`, `never` or `auto` in any mix of
/// cases, the empty text standing for `auto`; `None` for every other text.
pub open spec fn color_mode_named(text: Seq<char>) -> Option<ColorMode> {
    if same_ignoring_ascii_case(text, "always"@) {
        Some(ColorMode::Always)
    } else if same_ignoring_ascii_case(text, "never"@) {
        Some(ColorMode::Never)
    } else if text.len() == 0 || same_ignoring_ascii_case(text, "auto"@) {
        Some(ColorMode::Auto)
    } else {
        None
    }
}

/// The level that `text` names, in any mix of cases; `None` for every other text.
pub open spec fn level_named(text: Seq<char>) -> Option<Level> {
    if same_ignoring_ascii_case(text, "trace"@) {
        Some(Level::Trace)
    } else if same_ignoring_ascii_case(text, "debug"@) {
        Some(Level::Debug)
    } else if same_ignoring_ascii_case(text, "info"@) {
        Some(Level::Info)
    } else if same_ignoring_ascii_case(text, "warn"@) {
        Some(Level::Warn)
    } else if same_ignoring_ascii_case(text, "error"@) {
        Some(Level::Error)
    } else if same_ignoring_ascii_case(text, "fatal"@) {
        Some(Level::Fatal)
    } else {
        None
    }
}

/// What a switch given as text means: on for `1` and for `true` in any mix of
/// cases, off for everything else.
pub open spec fn flag_named(text: Seq<char>) -> bool {
    text == "1"@ || same_ignoring_ascii_case(text, "true"@)
}

/// The level stored as byte `x`. A byte that stores no level reads as `Info`.
pub open spec fn level_of_byte(x: u8) -> Level {
    if x == 0 {
        Level::Trace
    } else if x == 1 {
        Level::Debug
    } else if x == 3 {
        Level::Warn
    } else if x == 4 {
        Level::Error
    } else if x == 5 {
        Level::Fatal
    } else {
        Level::Info
    }
}

/// The colour mode stored as byte `x`. A byte that stores no mode reads as `Auto`.
pub open spec fn color_mode_of_byte(x: u8) -> ColorMode {
    if x == 1 {
        ColorMode::Always
    } else if x == 2 {
        ColorMode::Never
    } else {
        ColorMode::Auto
    }
}

/// Whether a message of level `l` passes the floor of a build that is
/// optimized, or of one that is not.
pub open spec fn passes_floor(optimized: bool, l: Level) -> bool {
    l.rank() >= floor_of(optimized).rank()
}

impl Level {
    /// Position of the level in the order of severities, `Trace` being 0.
    pub open spec fn rank(self) -> nat {
        match self {
            Level::Trace => 0,
            Level::Debug => 1,
            Level::Info => 2,
            Level::Warn => 3,
            Level::Error => 4,
            Level::Fatal => 5,
        }
    }

    /// The tag that stands for the level in a line: its name in upper case,
    /// filled with spaces to five columns.
    pub open spec fn tag(self) -> Seq<char> {
        match self {
            Level::Trace => "TRACE"@,
            Level::Debug => "DEBUG"@,
            Level::Info => "INFO "@,
            Level::Warn => "WARN "@,
            Level::Error => "ERROR"@,
            Level::Fatal => "FATAL"@,
        }
    }

    /// The ANSI sequence that switches to the colour of the level.
    pub open spec fn color(self) -> Seq<char> {
        match self {
            Level::Trace => "\x1b[90m"@,
            Level::Debug => "\x1b[36m"@,
            Level::Info => "\x1b[32m"@,
            Level::Warn => "\x1b[33m"@,
            Level::Error => "\x1b[31m"@,
            Level::Fatal => "\x1b[35m"@,
        }
    }

    /// The byte under which the level is stored.
    pub fn as_u8(self) -> (r: u8)
        ensures
            r == self.rank(),
            level_of_byte(r) == self,
    {
        match self {
            Level::Trace => 0,
            Level::Debug => 1,
            Level::Info => 2,
            Level::Warn => 3,
            Level::Error => 4,
            Level::Fatal => 5,
        }
    }

    /// Whether a message of this level is at least as severe as `threshold`.
    pub fn at_least(self, threshold: Level) -> (r: bool)
        ensures
            r == (self.rank() >= threshold.rank()),
    {
        self.as_u8() >= threshold.as_u8()
    }

    /// The level's tag as text.
    pub fn tag_str(self) -> (r: &'static str)
        ensures
            r@ == self.tag(),
    {
        match self {
            Level::Trace => "TRACE",
            Level::Debug => "DEBUG",
            Level::Info => "INFO ",
            Level::Warn => "WARN ",
            Level::Error => "ERROR",
            Level::Fatal => "FATAL",
        }
    }
}

impl ColorMode {
    /// The byte under which the mode is stored.
    pub fn as_u8(self) -> (r: u8)
        ensures
            r <= 2,
            color_mode_of_byte(r) == self,
    {
        match self {
            ColorMode::Auto => 0,
            ColorMode::Always => 1,
            ColorMode::Never => 2,
        }
    }
}

/// Reads back a level from the byte it is stored under.
pub fn level_from_u8(x: u8) -> (l: Level)
    ensures
        l == level_of_byte(x),
{
    match x {
        0 => Level::Trace,
        1 => Level::Debug,
        3 => Level::Warn,
        4 => Level::Error,
        5 => Level::Fatal,
        _ => Level::Info,
    }
}

/// Reads back a colour mode from the byte it is stored under.
pub fn color_mode_from_u8(x: u8) -> (m: ColorMode)
    ensures
        m == color_mode_of_byte(x),
{
    match x {
        1 => ColorMode::Always,
        2 => ColorMode::Never,
        _ => ColorMode::Auto,
    }
}

impl From<u8> for ColorMode {
    fn from(x: u8) -> (m: ColorMode) {
        color_mode_from_u8(x)
    }
}

impl vstd::std_specs::convert::FromSpecImpl<u8> for ColorMode {
    open spec fn obeys_from_spec() -> bool {
        true
    }

    open spec fn from_spec(x: u8) -> ColorMode {
        color_mode_of_byte(x)
    }
}

/// The ANSI sequence that switches to the colour of level `l`.
pub fn level_color(l: Level) -> (r: &'static str)
    ensures
        r@ == l.color(),
{
    match l {
        Level::Trace => "\x1b[90m",
        Level::Debug => "\x1b[36m",
        Level::Info => "\x1b[32m",
        Level::Warn => "\x1b[33m",
        Level::Error => "\x1b[31m",
        Level::Fatal => "\x1b[35m",
    }
}

/// The floor of a build that is optimized, or of one that is not.
pub fn ct_floor(optimized: bool) -> (floor: Level)
    ensures
        floor == floor_of(optimized),
{
    if optimized {
        Level::Info
    } else {
        Level::Trace
    }
}

/// Whether a message of level `l` passes the floor of the build: every
/// level does in a build for debugging, `Info` and above do in an optimized one.
pub fn ct_enabled(optimized: bool, l: Level) -> (r: bool)
    ensures
        r == passes_floor(optimized, l),
{
    l.at_least(ct_floor(optimized))
}

fn fold_code(c: char) -> (r: u32)
    ensures
        r == ascii_fold(c),
{
    let code: u32 = c as u32;
    if c >= 'A' && c <= 'Z' {
        code + 32
    } else {
        code
    }
}

/// Whether `a` and `b` are the same text up to the case of ASCII letters.
pub fn eq_ignore_ascii_case(a: &str, b: &str) -> (r: bool)
    ensures
        r == same_ignoring_ascii_case(a@, b@),
{
    let n: usize = a.unicode_len();
    if n != b.unicode_len() {
        return false;
    }
    let mut i: usize = 0;
    while i < n
        invariant
            n == a@.len(),
            n == b@.len(),
            i <= n,
            forall|j: int| 0 <= j < i ==> ascii_fold(#[trigger] a@[j]) == ascii_fold(b@[j]),
        decreases n - i,
    {
        if fold_code(a.get_char(i)) != fold_code(b.get_char(i)) {
            return false;
        }
        i = i + 1;
    }
    true
}

/// Reads a colour mode from its name.
///
/// `always`, `never` and `auto` are accepted in any mix of cases, and the empty
/// text stands for `auto`. Every other text is an error.
pub fn parse_color_mode(s: &str) -> (r: Result<ColorMode, ParseColorModeError>)
    ensures
        r == match color_mode_named(s@) {
            Some(m) => Ok::<ColorMode, ParseColorModeError>(m),
            None => Err(ParseColorModeError),
        },
{
    if eq_ignore_ascii_case(s, "always") {
        Ok(ColorMode::Always)
    } else if eq_ignore_ascii_case(s, "never") {
        Ok(ColorMode::Never)
    } else if s.unicode_len() == 0 || eq_ignore_ascii_case(s, "auto") {
        Ok(ColorMode::Auto)
    } else {
        Err(ParseColorModeError)
    }
}

impl core::str::FromStr for ColorMode {
    type Err = ParseColorModeError;

    /// Reads a colour mode from its name, as `parse_color_mode` does.
    fn from_str(s: &str) -> (r: Result<ColorMode, ParseColorModeError>)
        ensures
            r == match color_mode_named(s@) {
                Some(m) => Ok::<ColorMode, ParseColorModeError>(m),
                None => Err(ParseColorModeError),
            },
    {
        parse_color_mode(s)
    }
}

impl<'a> core::convert::TryFrom<&'a str> for ColorMode {
    type Error = ParseColorModeError;

    fn try_from(s: &'a str) -> Result<ColorMode, ParseColorModeError> {
        parse_color_mode(s)
    }
}

impl<'a> vstd::std_specs::convert::TryFromSpecImpl<&'a str> for ColorMode {
    open spec fn obeys_try_from_spec() -> bool {
        true
    }

    open spec fn try_from_spec(s: &'a str) -> Result<ColorMode, ParseColorModeError> {
        match color_mode_named(s@) {
            Some(m) => Ok(m),
            None => Err(ParseColorModeError),
        }
    }
}

/// Reads a level from its name, in any mix of cases.
pub fn parse_level(s: &str) -> (r: Option<Level>)
    ensures
        r == level_named(s@),
{
    if eq_ignore_ascii_case(s, "trace") {
        Some(Level::Trace)
    } else if eq_ignore_ascii_case(s, "debug") {
        Some(Level::Debug)
    } else if eq_ignore_ascii_case(s, "info") {
        Some(Level::Info)
    } else if eq_ignore_ascii_case(s, "warn") {
        Some(Level::Warn)
    } else if eq_ignore_ascii_case(s, "error") {
        Some(Level::Error)
    } else if eq_ignore_ascii_case(s, "fatal") {
        Some(Level::Fatal)
    } else {
        None
    }
}

/// Reads a switch: on for `1` and for `true` in any mix of cases, off otherwise.
pub fn parse_flag(s: &str) -> (r: bool)
    ensures
        r == flag_named(s@),
{
    proof {
        reveal_strlit("1");
        assert(same_ignoring_ascii_case(s@, "1"@) ==> s@ =~= "1"@);
    }
    eq_ignore_ascii_case(s, "1") || eq_ignore_ascii_case(s, "true")
}

/// The order of severities is total, and `rank` numbers it from 0 to 5.
pub proof fn lemma_rank_orders_levels(a: Level, b: Level)
    ensures
        a.rank() <= 5,
        a.rank() == b.rank() <==> a == b,
        a.rank() <= b.rank() || b.rank() <= a.rank(),
{
}

/// Every level's tag is five characters wide.
pub proof fn lemma_tag_is_five_wide(l: Level)
    ensures
        l.tag().len() == 5,
{
    reveal_strlit("TRACE");
    reveal_strlit("DEBUG");
    reveal_strlit("INFO ");
    reveal_strlit("WARN ");
    reveal_strlit("ERROR");
    reveal_strlit("FATAL");
}

/// What the floor of a build lets pass: every level where the build is for
/// debugging; where it is optimized, `Info` and what is more severe, and
/// neither `Trace` nor `Debug`. The more severe of two levels passes wherever
/// the other does.
pub proof fn lemma_floor_gates(optimized: bool, l: Level, higher: Level)
    ensures
        passes_floor(false, l),
        passes_floor(true, l) <==> l != Level::Trace && l != Level::Debug,
        passes_floor(optimized, l) && higher.rank() >= l.rank() ==> passes_floor(
            optimized,
            higher,
        ),
{
}

} // verus!

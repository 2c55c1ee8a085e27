//! Logging levels: a named severity together with the terminal style used
//! to render messages logged at that level.

use vstd::prelude::*;
use vstd::string::StrSliceExecFns;
use colored::Colorize;

use crate::LogError;
use crate::internal::PadState;

verus! {

pub const SEVERITY_TRACE: u32 = 5;

pub const SEVERITY_DEBUG: u32 = 10;

pub const SEVERITY_INFO: u32 = 20;

pub const SEVERITY_NOTICE: u32 = 25;

pub const SEVERITY_SUCCESS: u32 = 25;

pub const SEVERITY_WARN: u32 = 30;

pub const SEVERITY_FAILURE: u32 = 35;

pub const SEVERITY_ERROR: u32 = 40;

pub const SEVERITY_FATAL: u32 = 50;

/// The terminal styles a level or a render target can ask for.
///
/// `Normal` renders text unchanged; every other variant may wrap the text
/// in an ANSI escape sequence, depending on whether the environment allows
/// colour.
#[derive(Debug, Clone, Copy, PartialEq, Eq, Structural)]
pub enum Style {
    Normal,
    BrightBlack,
    WhiteDimmed,
    CyanDimmed,
    BrightCyan,
    Green,
    GreenDimmed,
    BrightGreenDimmed,
    Yellow,
    Red,
    BrightRedBold,
    BrightWhiteBoldOnRed,
}

/// The ANSI parameter bytes of a style: SGR attribute first, then the
/// background colour, then the foreground colour, separated by `;`.
pub open spec fn style_code(style: Style) -> Seq<char> {
    match style {
        Style::Normal => ""@,
        Style::BrightBlack => "90"@,
        Style::WhiteDimmed => "2;37"@,
        Style::CyanDimmed => "2;36"@,
        Style::BrightCyan => "96"@,
        Style::Green => "32"@,
        Style::GreenDimmed => "2;32"@,
        Style::BrightGreenDimmed => "2;92"@,
        Style::Yellow => "33"@,
        Style::Red => "31"@,
        Style::BrightRedBold => "1;91"@,
        Style::BrightWhiteBoldOnRed => "1;41;97"@,
    }
}

/// `text` wrapped in the escape sequence of `style`, ending with a reset.
pub open spec fn ansi_wrapped(style: Style, text: Seq<char>) -> Seq<char> {
    "\x1B["@ + style_code(style) + "m"@ + text + "\x1B[0m"@
}

/// Whether `text` contains an ANSI reset sequence of its own.
pub open spec fn contains_reset(text: Seq<char>) -> bool {
    exists|i: int| 0 <= i && i + 4 <= text.len() && #[trigger] text.subrange(i, i + 4)
        == "\x1B[0m"@
}

/// What styling a text may produce: `Normal` leaves it unchanged, any
/// other style either leaves it unchanged (colour disabled in this
/// environment) or wraps it in the style's escape sequence; in every case
/// the text only grows.
pub open spec fn styled_ok(style: Style, raw: Seq<char>, out: Seq<char>) -> bool {
    &&& out.len() >= raw.len()
    &&& style is Normal ==> out == raw
    &&& !contains_reset(raw) ==> (out == raw || out == ansi_wrapped(style, raw))
}

/// Relies on the `colored` crate's `Colorize` methods and the `Display`
/// rendering of `ColoredString`: a plain (`normal`) string renders as its
/// input; a styled string renders either as its input (when colour is
/// switched off for the process) or as the input wrapped in the style's
/// escape sequence, with inner resets re-styled, so the text never
/// shrinks.
#[verifier::external_body]
pub(crate) fn apply_style(style: &Style, text: &str) -> (r: String)
    ensures
        styled_ok(*style, text@, r@),
{
    match style {
        Style::Normal => text.normal().to_string(),
        Style::BrightBlack => text.bright_black().to_string(),
        Style::WhiteDimmed => text.white().dimmed().to_string(),
        Style::CyanDimmed => text.cyan().dimmed().to_string(),
        Style::BrightCyan => text.bright_cyan().to_string(),
        Style::Green => text.green().to_string(),
        Style::GreenDimmed => text.green().dimmed().to_string(),
        Style::BrightGreenDimmed => text.bright_green().dimmed().to_string(),
        Style::Yellow => text.yellow().to_string(),
        Style::Red => text.red().to_string(),
        Style::BrightRedBold => text.bright_red().bold().to_string(),
        Style::BrightWhiteBoldOnRed => text.bright_white().bold().on_red().to_string(),
    }
}

/// A level as [`LogLevel::init`] leaves it: named, registered, and carrying
/// the given severity and style.
pub open spec fn is_level(r: LogLevel, name: Seq<char>, severity: u32, style: Style) -> bool {
    &&& r.name@ == name
    &&& r.severity == severity
    &&& r.style == style
    &&& r.initialized
}

/// How registering a level name of `len` characters changes the padding
/// counters: the level-name maximum grows to cover `len`, the module
/// maximum is untouched.
pub open spec fn pad_saw_level_name(old_pad: PadState, new_pad: PadState, len: nat) -> bool {
    &&& new_pad.max_level_name_len == if len > old_pad.max_level_name_len {
        len as int
    } else {
        old_pad.max_level_name_len as int
    }
    &&& new_pad.max_module_len == old_pad.max_module_len
}

/// An immutable unit of level identity: a name, an unsigned severity, and
/// the style applied to messages logged at this level.
///
/// A level is built with [`LogLevel::new`], optionally restyled with
/// [`LogLevel::formatted`], and registered exactly once with
/// [`LogLevel::init`], which attaches the name and feeds the padding
/// counters; the one-shot guard makes a second registration fail.
#[derive(Debug, Clone, PartialEq, Eq)]
pub struct LogLevel {
    pub name: String,
    pub severity: u32,
    pub style: Style,
    pub initialized: bool,
}

impl LogLevel {
    /// A fresh, unregistered level of the given severity, rendering text
    /// unchanged.
    pub fn new(severity: u32) -> (r: LogLevel)
        ensures
            r.name@ == Seq::<char>::empty(),
            r.severity == severity,
            r.style == Style::Normal,
            !r.initialized,
    {
        LogLevel { name: String::new(), severity, style: Style::Normal, initialized: false }
    }

    /// Replace the level's style; a builder step that keeps everything
    /// else.
    pub fn formatted(self, style: Style) -> (r: LogLevel)
        ensures
            r.name == self.name,
            r.severity == self.severity,
            r.style == style,
            r.initialized == self.initialized,
    {
        LogLevel { style, ..self }
    }

    /// Register the level: attach its name and record the name's length in
    /// the padding counters.  Registering a level twice is a configuration
    /// error and fails without touching anything.
    pub fn init(self, name: &str, pad: &mut PadState) -> (r: Result<LogLevel, LogError>)
        ensures
            self.initialized ==> r == Err::<LogLevel, LogError>(LogError::DoubleInitialization)
                && *final(pad) == *old(pad),
            !self.initialized ==> {
                &&& r is Ok
                &&& r->Ok_0.name@ == name@
                &&& r->Ok_0.severity == self.severity
                &&& r->Ok_0.style == self.style
                &&& r->Ok_0.initialized
                &&& final(pad).max_level_name_len == if name@.len()
                    > old(pad).max_level_name_len {
                    name@.len() as int
                } else {
                    old(pad).max_level_name_len as int
                }
                &&& final(pad).max_module_len == old(pad).max_module_len
            },
    {
        if self.initialized {
            return Err(LogError::DoubleInitialization);
        }
        let name_len = name.unicode_len();
        pad.observe_level_name(name_len);
        Ok(
            LogLevel {
                name: name.to_owned(),
                severity: self.severity,
                style: self.style,
                initialized: true,
            },
        )
    }

    /// The level's name.
    pub fn get_name(&self) -> (r: String)
        ensures
            r@ == self.name@,
    {
        self.name.clone()
    }

    /// The level's severity.
    pub fn get_severity(&self) -> (r: u32)
        ensures
            r == self.severity,
    {
        self.severity
    }

    /// Build and register one of the canonical levels; shared by the
    /// constructors below.
    fn builtin(name: &str, severity: u32, style: Style, pad: &mut PadState) -> (r: LogLevel)
        ensures
            r.name@ == name@,
            r.severity == severity,
            r.style == style,
            r.initialized,
            final(pad).max_level_name_len == if name@.len() > old(pad).max_level_name_len {
                name@.len() as int
            } else {
                old(pad).max_level_name_len as int
            },
            final(pad).max_module_len == old(pad).max_module_len,
    {
        LogLevel::new(severity).formatted(style).init(name, pad).unwrap()
    }

    /// Render text in the level's style.  A `Normal` level returns the
    /// text unchanged, so formatting with it is idempotent; the level
    /// itself is never changed by formatting.
    pub fn format(&self, text: String) -> (r: String)
        ensures
            styled_ok(self.style, text@, r@),
    {
        apply_style(&self.style, text.as_str())
    }
}

/// Formatting with a no-op style is idempotent: styling a text once with
/// `Normal` returns it unchanged, so styling the result again changes
/// nothing either, whatever the environment decided about colour.
pub proof fn lemma_noop_format_idempotent(text: Seq<char>, once: Seq<char>, twice: Seq<char>)
    requires
        styled_ok(Style::Normal, text, once),
        styled_ok(Style::Normal, once, twice),
    ensures
        once == text,
        twice == text,
{
}

/// The canonical TRACE level: severity 5, bright black.
pub fn trace(pad: &mut PadState) -> (r: LogLevel)
    ensures
        is_level(r, "TRACE"@, SEVERITY_TRACE, Style::BrightBlack),
        r.name@.len() == 5,
        pad_saw_level_name(*old(pad), *final(pad), r.name@.len()),
{
    proof {
        reveal_strlit("TRACE");
    }
    LogLevel::builtin("TRACE", SEVERITY_TRACE, Style::BrightBlack, pad)
}

/// The canonical DEBUG level: severity 10, dimmed white.
pub fn debug(pad: &mut PadState) -> (r: LogLevel)
    ensures
        is_level(r, "DEBUG"@, SEVERITY_DEBUG, Style::WhiteDimmed),
        r.name@.len() == 5,
        pad_saw_level_name(*old(pad), *final(pad), r.name@.len()),
{
    proof {
        reveal_strlit("DEBUG");
    }
    LogLevel::builtin("DEBUG", SEVERITY_DEBUG, Style::WhiteDimmed, pad)
}

/// The canonical INFO level: severity 20, dimmed cyan.
pub fn info(pad: &mut PadState) -> (r: LogLevel)
    ensures
        is_level(r, "INFO"@, SEVERITY_INFO, Style::CyanDimmed),
        r.name@.len() == 4,
        pad_saw_level_name(*old(pad), *final(pad), r.name@.len()),
{
    proof {
        reveal_strlit("INFO");
    }
    LogLevel::builtin("INFO", SEVERITY_INFO, Style::CyanDimmed, pad)
}

/// The canonical NOTICE level: severity 25, bright cyan.
pub fn notice(pad: &mut PadState) -> (r: LogLevel)
    ensures
        is_level(r, "NOTICE"@, SEVERITY_NOTICE, Style::BrightCyan),
        r.name@.len() == 6,
        pad_saw_level_name(*old(pad), *final(pad), r.name@.len()),
{
    proof {
        reveal_strlit("NOTICE");
    }
    LogLevel::builtin("NOTICE", SEVERITY_NOTICE, Style::BrightCyan, pad)
}

/// The canonical SUCCESS level: severity 25, green.
pub fn success(pad: &mut PadState) -> (r: LogLevel)
    ensures
        is_level(r, "SUCCESS"@, SEVERITY_SUCCESS, Style::Green),
        r.name@.len() == 7,
        pad_saw_level_name(*old(pad), *final(pad), r.name@.len()),
{
    proof {
        reveal_strlit("SUCCESS");
    }
    LogLevel::builtin("SUCCESS", SEVERITY_SUCCESS, Style::Green, pad)
}

/// The canonical WARN level: severity 30, yellow.
pub fn warn(pad: &mut PadState) -> (r: LogLevel)
    ensures
        is_level(r, "WARN"@, SEVERITY_WARN, Style::Yellow),
        r.name@.len() == 4,
        pad_saw_level_name(*old(pad), *final(pad), r.name@.len()),
{
    proof {
        reveal_strlit("WARN");
    }
    LogLevel::builtin("WARN", SEVERITY_WARN, Style::Yellow, pad)
}

/// The canonical FAILURE level: severity 35, red.
pub fn failure(pad: &mut PadState) -> (r: LogLevel)
    ensures
        is_level(r, "FAILURE"@, SEVERITY_FAILURE, Style::Red),
        r.name@.len() == 7,
        pad_saw_level_name(*old(pad), *final(pad), r.name@.len()),
{
    proof {
        reveal_strlit("FAILURE");
    }
    LogLevel::builtin("FAILURE", SEVERITY_FAILURE, Style::Red, pad)
}

/// The canonical ERROR level: severity 40, bold bright red.
pub fn error(pad: &mut PadState) -> (r: LogLevel)
    ensures
        is_level(r, "ERROR"@, SEVERITY_ERROR, Style::BrightRedBold),
        r.name@.len() == 5,
        pad_saw_level_name(*old(pad), *final(pad), r.name@.len()),
{
    proof {
        reveal_strlit("ERROR");
    }
    LogLevel::builtin("ERROR", SEVERITY_ERROR, Style::BrightRedBold, pad)
}

/// The canonical FATAL level: severity 50, bold bright white on red.
pub fn fatal(pad: &mut PadState) -> (r: LogLevel)
    ensures
        is_level(r, "FATAL"@, SEVERITY_FATAL, Style::BrightWhiteBoldOnRed),
        r.name@.len() == 5,
        pad_saw_level_name(*old(pad), *final(pad), r.name@.len()),
{
    proof {
        reveal_strlit("FATAL");
    }
    LogLevel::builtin("FATAL", SEVERITY_FATAL, Style::BrightWhiteBoldOnRed, pad)
}

} // verus!

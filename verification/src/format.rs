//! Rendering a record as one line, plain and decorated.

use vstd::prelude::*;
use vstd::string::*;
use crate::config::{ConfigView, PluginConfig};
use crate::level::LogLevel;
use crate::record::{app_name_path, ExecutionInput, InputView};

verus! {

/// A foreground colour of the terminal.
#[derive(Clone, Copy, Debug, PartialEq, Eq, Structural)]
pub enum Tone {
    BrightRed,
    Blue,
    Green,
    Yellow,
    Red,
    Cyan,
    White,
}

impl Tone {
    /// The number by which a terminal knows the colour.
    pub open spec fn code(self) -> Seq<char> {
        match self {
            Tone::BrightRed => seq!['9', '1'],
            Tone::Blue => seq!['3', '4'],
            Tone::Green => seq!['3', '2'],
            Tone::Yellow => seq!['3', '3'],
            Tone::Red => seq!['3', '1'],
            Tone::Cyan => seq!['3', '6'],
            Tone::White => seq!['3', '7'],
        }
    }
}

/// The character that opens a control sequence of the terminal.
pub open spec fn escape_char() -> char {
    '\u{1b}'
}

/// The control sequence that ends all colouring.
pub open spec fn reset_sequence() -> Seq<char> {
    seq![escape_char(), '[', '0', 'm']
}

/// A text between the control sequence that selects a colour and the one
/// that ends it.
pub open spec fn tinted(tone: Tone, text: Seq<char>) -> Seq<char> {
    seq![escape_char(), '['] + tone.code() + seq!['m'] + text + reset_sequence()
}

/// Whether a text holds the reset sequence somewhere inside it.
pub open spec fn holds_reset(text: Seq<char>) -> bool {
    exists|i: int|
        0 <= i && i + 4 <= text.len() && #[trigger] text.subrange(i, i + 4) == reset_sequence()
}

/// Whether `out` is a way in which `text` may come back from being painted.
///
/// Whether colours are applied is decided by the environment of the process
/// (and may change while a text is painted), so a text comes back
/// unchanged, tinted, or followed by the reset sequence alone. Only of a
/// text that itself holds the reset sequence nothing is said: there the
/// colour is taken up again inside the text.
pub open spec fn is_painted(out: Seq<char>, tone: Tone, text: Seq<char>) -> bool {
    ||| holds_reset(text)
    ||| out == text
    ||| out == tinted(tone, text)
    ||| out == text + reset_sequence()
}

/// Calls colored's `Colorize::color` on the text, with the colour that the
/// tone names, and renders the `ColoredString` with its `Display` form.
///
/// That form asks the process-wide colour switch of the crate up to four
/// times: once to decide whether to decorate at all, once before it looks
/// for reset sequences inside the text, and twice for the opening sequence,
/// of which the first answer is used only where the text holds a reset
/// sequence. The contract lists what the answers can add up to; see
/// [`is_painted`].
#[verifier::external_body]
pub(crate) fn paint(text: &str, tone: Tone) -> (out: String)
    ensures
        is_painted(out@, tone, text@),
{
    let color = match tone {
        Tone::BrightRed => colored::Color::BrightRed,
        Tone::Blue => colored::Color::Blue,
        Tone::Green => colored::Color::Green,
        Tone::Yellow => colored::Color::Yellow,
        Tone::Red => colored::Color::Red,
        Tone::Cyan => colored::Color::Cyan,
        Tone::White => colored::Color::White,
    };
    colored::Colorize::color(text, color).to_string()
}

/// The colour in which a level is shown.
pub open spec fn level_tone(level: LogLevel) -> Tone {
    match level {
        LogLevel::Debug => Tone::Blue,
        LogLevel::Info => Tone::Green,
        LogLevel::Warn => Tone::Yellow,
        LogLevel::Error => Tone::Red,
    }
}

/// The colour in which a level is shown.
pub fn tone_of_level(level: LogLevel) -> (r: Tone)
    ensures
        r == level_tone(level),
{
    match level {
        LogLevel::Debug => Tone::Blue,
        LogLevel::Info => Tone::Green,
        LogLevel::Warn => Tone::Yellow,
        LogLevel::Error => Tone::Red,
    }
}

/// One line of the log: `[<timestamp>] [<LEVEL>] <app-name-path>: <message>`.
pub open spec fn line_text(
    timestamp: Seq<char>,
    level: Seq<char>,
    app_name: Seq<char>,
    message: Seq<char>,
) -> Seq<char> {
    "["@ + timestamp + "] ["@ + level + "] "@ + app_name + ": "@ + message
}

/// Puts the four fields of a line together; see [`line_text`].
pub fn render_line(timestamp: &str, level: &str, app_name: &str, message: &str) -> (r: String)
    ensures
        r@ == line_text(timestamp@, level@, app_name@, message@),
{
    let mut line = String::from_str("[");
    line.append(timestamp);
    line.append("] [");
    line.append(level);
    line.append("] ");
    line.append(app_name);
    line.append(": ");
    line.append(message);
    line
}

/// The plain line of a record, logged at the time that `timestamp` shows.
pub open spec fn plain_text(config: ConfigView, input: InputView, timestamp: Seq<char>) -> Seq<
    char,
> {
    line_text(
        timestamp,
        input.level.name(),
        app_name_path(config.app_name, input.app_name, input.sub_app_name),
        input.message,
    )
}

/// Whether `out` is a decorated line of a record: the fields of the plain
/// line in the same order, the timestamp painted bright red, the level in
/// the colour of its severity, the name cyan and the message white.
pub open spec fn is_decorated(
    out: Seq<char>,
    config: ConfigView,
    input: InputView,
    timestamp: Seq<char>,
) -> bool {
    exists|t: Seq<char>, l: Seq<char>, a: Seq<char>, m: Seq<char>|
        {
            &&& is_painted(t, Tone::BrightRed, timestamp)
            &&& is_painted(l, level_tone(input.level), input.level.name())
            &&& is_painted(
                a,
                Tone::Cyan,
                app_name_path(config.app_name, input.app_name, input.sub_app_name),
            )
            &&& is_painted(m, Tone::White, input.message)
            &&& out == #[trigger] line_text(t, l, a, m)
        }
}

/// The plain line is the decorated line of a process that applies no
/// colours: the same fields in the same order, each as it is.
pub proof fn lemma_plain_line_is_undecorated(
    config: ConfigView,
    input: InputView,
    timestamp: Seq<char>,
)
    ensures
        is_decorated(plain_text(config, input, timestamp), config, input, timestamp),
{
    let name = app_name_path(config.app_name, input.app_name, input.sub_app_name);
    assert(plain_text(config, input, timestamp) == line_text(
        timestamp,
        input.level.name(),
        name,
        input.message,
    ));
}

/// A record rendered in both forms.
#[derive(Debug, PartialEq, Eq)]
pub struct Lines {
    pub decorated: String,
    pub plain: String,
}

/// The plain line of a record; see [`plain_text`].
pub fn plain_line(config: &PluginConfig, input: &ExecutionInput, timestamp: &str) -> (r: String)
    ensures
        r@ == plain_text(config@, input@, timestamp@),
{
    let name = input.resolve_app_name(config.app_name.as_str());
    render_line(timestamp, input.level.as_str(), name.as_str(), input.message.as_str())
}

/// A decorated line of a record; see [`is_decorated`].
pub fn decorated_line(config: &PluginConfig, input: &ExecutionInput, timestamp: &str) -> (r:
    String)
    ensures
        is_decorated(r@, config@, input@, timestamp@),
{
    let name = input.resolve_app_name(config.app_name.as_str());
    let t = paint(timestamp, Tone::BrightRed);
    let l = paint(input.level.as_str(), tone_of_level(input.level));
    let a = paint(name.as_str(), Tone::Cyan);
    let m = paint(input.message.as_str(), Tone::White);
    render_line(t.as_str(), l.as_str(), a.as_str(), m.as_str())
}

/// Both lines of a record, logged at the time that `timestamp` shows.
pub fn render(config: &PluginConfig, input: &ExecutionInput, timestamp: &str) -> (r: Lines)
    ensures
        r.plain@ == plain_text(config@, input@, timestamp@),
        is_decorated(r.decorated@, config@, input@, timestamp@),
{
    Lines {
        decorated: decorated_line(config, input, timestamp),
        plain: plain_line(config, input, timestamp),
    }
}

} // verus!

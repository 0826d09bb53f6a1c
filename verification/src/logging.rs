//! The console logger's levels, colours and line layout.
use vstd::prelude::*;
use vstd::string::*;

verus! {

/// A log record's level (the `log` crate's `Level`).
#[derive(Clone, Copy, Debug, PartialEq, Eq, Structural)]
pub enum Level {
    Error,
    Warn,
    Info,
    Debug,
    Trace,
}

/// A logger's level filter (the `log` crate's `LevelFilter`).
#[derive(Clone, Copy, Debug, PartialEq, Eq, Structural)]
pub enum LevelFilter {
    Off,
    Error,
    Warn,
    Info,
    Debug,
    Trace,
}

/// The rank the `log` crate orders levels by: `Error` is 1, `Trace` 5.
pub open spec fn level_rank(level: Level) -> int {
    match level {
        Level::Error => 1,
        Level::Warn => 2,
        Level::Info => 3,
        Level::Debug => 4,
        Level::Trace => 5,
    }
}

/// The rank of a filter: `Off` is 0, `Trace` 5.
pub open spec fn filter_rank(filter: LevelFilter) -> int {
    match filter {
        LevelFilter::Off => 0,
        LevelFilter::Error => 1,
        LevelFilter::Warn => 2,
        LevelFilter::Info => 3,
        LevelFilter::Debug => 4,
        LevelFilter::Trace => 5,
    }
}

/// The colour a level is shown in.
pub open spec fn level_colour(level: Level) -> Seq<char> {
    match level {
        Level::Error => "#FF0000"@,
        Level::Warn => "#FFFF00"@,
        Level::Info => "#005fff"@,
        Level::Debug => "#00FFFF"@,
        Level::Trace => "#FFFFFF"@,
    }
}

pub fn get_level_colour(level: Level) -> (colour: String)
    ensures
        colour@ == level_colour(level),
{
    match level {
        Level::Error => String::from_str("#FF0000"),
        Level::Warn => String::from_str("#FFFF00"),
        Level::Info => String::from_str("#005fff"),
        Level::Debug => String::from_str("#00FFFF"),
        Level::Trace => String::from_str("#FFFFFF"),
    }
}

/// The name a level is printed with (`log`'s `LOG_LEVEL_NAMES`).
pub open spec fn level_name(level: Level) -> Seq<char> {
    match level {
        Level::Error => "ERROR"@,
        Level::Warn => "WARN"@,
        Level::Info => "INFO"@,
        Level::Debug => "DEBUG"@,
        Level::Trace => "TRACE"@,
    }
}

/// Calls `log::Level::as_str` on the `log` level of the same kind.
/// Trusted: the crate returns the entry of its `LOG_LEVEL_NAMES` table,
/// which `level_name` restates.
#[verifier::external_body]
fn level_as_str(level: Level) -> (name: String)
    ensures
        name@ == level_name(level),
{
    let level = match level {
        Level::Error => log::Level::Error,
        Level::Warn => log::Level::Warn,
        Level::Info => log::Level::Info,
        Level::Debug => log::Level::Debug,
        Level::Trace => log::Level::Trace,
    };
    level.as_str().to_string()
}

/// The decimal digits of a number.
pub open spec fn decimal(n: nat) -> Seq<char>
    decreases n,
{
    if n < 10 {
        seq![digit_char(n)]
    } else {
        decimal(n / 10) + seq![digit_char(n % 10)]
    }
}

pub open spec fn digit_char(d: nat) -> char {
    (48 + d) as char
}

/// Calls std's `u32::to_string`, which prints the number in decimal.
#[verifier::external_body]
fn u32_to_decimal(n: u32) -> (s: String)
    ensures
        s@ == decimal(n as nat),
{
    n.to_string()
}

/// The console logger.
#[derive(Clone, Copy, Debug, PartialEq, Eq, Structural)]
pub struct ConsoleLogger {
    pub level: LevelFilter,
}

/// `text` padded with spaces on the right to `width` characters.
pub open spec fn pad_right(text: Seq<char>, width: nat) -> Seq<char> {
    if text.len() >= width {
        text
    } else {
        text + Seq::new((width - text.len()) as nat, |i: int| ' ')
    }
}

/// The width the record's target is padded to.
pub const TARGET_WIDTH: usize = 10;

/// The HTML line a record is shown as: the level in its colour, the
/// padded target, `file:line` (or just the file; `<unknown>` without one),
/// the module path (`<unknown>` without one) and the message.
pub open spec fn log_line(
    level: Level,
    target: Seq<char>,
    file: Option<Seq<char>>,
    line: Option<u32>,
    module_name: Option<Seq<char>>,
    message: Seq<char>,
) -> Seq<char> {
    let file_text = match file { Some(f) => f, None => "<unknown>"@ };
    let location = match line {
        Some(l) => "<span>["@ + file_text + ":"@ + decimal(l as nat) + "] </span>"@,
        None => "<span>["@ + file_text + "] </span>"@,
    };
    let module_text = match module_name { Some(m) => m, None => "<unknown>"@ };
    "<span style=\"color:"@ + level_colour(level) + ";\">["@ + level_name(level) + "] </span>"@
        + "<span>"@ + pad_right(target, TARGET_WIDTH as nat) + ": </span>"@
        + location
        + "<span>["@ + module_text + "] </span>"@
        + "<span>"@ + message + "</span>"@
}

impl ConsoleLogger {
    pub fn new(log_level: LevelFilter) -> (logger: Box<ConsoleLogger>)
        ensures
            logger.level == log_level,
    {
        Box::new(ConsoleLogger { level: log_level })
    }

    /// Whether a record of `level` passes: the filter's rank is at most the
    /// level's.
    pub fn enabled(&self, level: Level) -> (b: bool)
        ensures
            b == (filter_rank(self.level) <= level_rank(level)),
    {
        let filter: u8 = match self.level {
            LevelFilter::Off => 0,
            LevelFilter::Error => 1,
            LevelFilter::Warn => 2,
            LevelFilter::Info => 3,
            LevelFilter::Debug => 4,
            LevelFilter::Trace => 5,
        };
        let rank: u8 = match level {
            Level::Error => 1,
            Level::Warn => 2,
            Level::Info => 3,
            Level::Debug => 4,
            Level::Trace => 5,
        };
        filter <= rank
    }

    pub fn level(&self) -> (filter: LevelFilter)
        ensures
            filter == self.level,
    {
        self.level
    }

    /// Lays a record out as the HTML line the console shows.
    pub fn render(
        &self,
        level: Level,
        target: &str,
        file: Option<&str>,
        line: Option<u32>,
        module_name: Option<&str>,
        message: &str,
    ) -> (text: String)
        ensures
            text@ == log_line(
                level,
                target@,
                match file { Some(f) => Some(f@), None => None },
                line,
                match module_name { Some(m) => Some(m@), None => None },
                message@,
            ),
    {
        // level
        let mut s = String::from_str("<span style=\"color:");
        s.append(get_level_colour(level).as_str());
        s.append(";\">[");
        s.append(level_as_str(level).as_str());
        s.append("] </span>");
        // target
        s.append("<span>");
        s.append(target);
        let mut n: usize = target.unicode_len();
        let ghost padded_from = s@;
        while n < TARGET_WIDTH
            invariant
                n <= TARGET_WIDTH || n == target@.len(),
                target@.len() <= n,
                s@ == padded_from + Seq::new((n - target@.len()) as nat, |i: int| ' '),
            decreases TARGET_WIDTH - n,
        {
            s.append(" ");
            proof {
                reveal_strlit(" ");
                assert(Seq::new((n + 1 - target@.len()) as nat, |i: int| ' ')
                    =~= Seq::new((n - target@.len()) as nat, |i: int| ' ') + " "@);
            }
            n = n + 1;
        }
        s.append(": </span>");
        // file: line
        let file_text = match file {
            Some(f) => f,
            None => "<unknown>",
        };
        match line {
            Some(l) => {
                s.append("<span>[");
                s.append(file_text);
                s.append(":");
                s.append(u32_to_decimal(l).as_str());
                s.append("] </span>");
            },
            None => {
                s.append("<span>[");
                s.append(file_text);
                s.append("] </span>");
            },
        }
        // module path
        let module_text = match module_name {
            Some(m) => m,
            None => "<unknown>",
        };
        s.append("<span>[");
        s.append(module_text);
        s.append("] </span>");
        // message
        s.append("<span>");
        s.append(message);
        s.append("</span>");
        s
    }
}

} // verus!

//! The decisions of the site's logger: which records it writes, and how a
//! record becomes one line of text with a coloured level tag.
use vstd::prelude::*;
use colored::Colorize;

verus! {

broadcast use vstd::string::group_string_axioms;

/// The severity of a log record, from the most to the least severe.
#[derive(PartialEq, Eq, Structural, Clone, Copy, Debug)]
pub enum Level {
    Error,
    Warn,
    Info,
    Debug,
    Trace,
}

impl Level {
    /// The level's place in the scale: `Error` is 1, `Trace` is 5.
    pub open spec fn rank(self) -> nat {
        match self {
            Level::Error => 1,
            Level::Warn => 2,
            Level::Info => 3,
            Level::Debug => 4,
            Level::Trace => 5,
        }
    }

    /// Whether `self` is at most as verbose as `other` (the order of the
    /// levels of the `log` crate, where `Error` is the least).
    pub fn at_most(&self, other: &Level) -> (b: bool)
        ensures
            b == (self.rank() <= other.rank()),
    {
        self.number() <= other.number()
    }

    fn number(&self) -> (n: u8)
        ensures
            n == self.rank(),
    {
        match self {
            Level::Error => 1,
            Level::Warn => 2,
            Level::Info => 3,
            Level::Debug => 4,
            Level::Trace => 5,
        }
    }
}

/// A terminal style: a foreground colour, bold, or both.
#[derive(PartialEq, Eq, Structural, Clone, Copy, Debug)]
pub enum Paint {
    Black,
    Bold,
    BoldBlack,
    BoldGreen,
    BoldYellow,
    BoldRed,
}

/// The escape sequence that switches a terminal to `paint`.
pub open spec fn sgr_open(paint: Paint) -> Seq<char> {
    let codes = match paint {
        Paint::Black => seq!['3', '0'],
        Paint::Bold => seq!['1'],
        Paint::BoldBlack => seq!['1', ';', '3', '0'],
        Paint::BoldGreen => seq!['1', ';', '3', '2'],
        Paint::BoldYellow => seq!['1', ';', '3', '3'],
        Paint::BoldRed => seq!['1', ';', '3', '1'],
    };
    seq!['\u{1b}', '['] + codes + seq!['m']
}

/// The escape sequence that resets a terminal's style.
pub open spec fn sgr_reset() -> Seq<char> {
    seq!['\u{1b}', '[', '0', 'm']
}

/// `out` shows `text` in `paint`: for a text without escape characters it
/// is the text itself (when colouring is switched off) or the text between
/// the style's opening sequence and the reset sequence.
pub open spec fn painted(text: Seq<char>, paint: Paint, out: Seq<char>) -> bool {
    (forall|i: int| 0 <= i < text.len() ==> text[i] != '\u{1b}') ==> (out == text || out
        == sgr_open(paint) + text + sgr_reset())
}

/// Shows `text` in a terminal style.
///
/// Trusted: builds a `colored::ColoredString` with `Colorize::black` and
/// `Colorize::bold` and turns it into a `String` through its `Display`.
/// Whether colours are written depends on the environment (`CLICOLOR`,
/// `NO_COLOR`, `CLICOLOR_FORCE`, whether stdout is a terminal), so the
/// contract only says that the result is the plain text or the text
/// wrapped in the style's escape sequences; for a text that holds an escape
/// character, where the crate rewrites inner reset sequences, it says
/// nothing.
#[verifier::external_body]
fn paint(text: &str, style: Paint) -> (out: String)
    ensures
        painted(text@, style, out@),
{
    let styled = match style {
        Paint::Black => text.black(),
        Paint::Bold => text.bold(),
        Paint::BoldBlack => text.bold().black(),
        Paint::BoldGreen => text.bold().green(),
        Paint::BoldYellow => text.bold().yellow(),
        Paint::BoldRed => text.bold().red(),
    };
    styled.to_string()
}

/// The three-letter tag of each level.
pub open spec fn tag(level: Level) -> Seq<char> {
    match level {
        Level::Trace => "TRC"@,
        Level::Debug => "DBG"@,
        Level::Info => "INF"@,
        Level::Warn => "WRN"@,
        Level::Error => "ERR"@,
    }
}

/// The style of each level's tag.
pub open spec fn tag_paint(level: Level) -> Paint {
    match level {
        Level::Trace => Paint::BoldBlack,
        Level::Debug => Paint::Bold,
        Level::Info => Paint::BoldGreen,
        Level::Warn => Paint::BoldYellow,
        Level::Error => Paint::BoldRed,
    }
}

/// Every level has its own three-letter tag, spelled from the level's
/// name (TRC, DBG, INF, WRN, ERR), and its own style: trace in bold black,
/// debug in bold, info in bold green, warnings in bold yellow and errors in
/// bold red. No two levels share a tag.
pub proof fn lemma_level_tags(level: Level)
    ensures
        level == Level::Trace ==> tag(level) == seq!['T', 'R', 'C'] && tag_paint(level)
            == Paint::BoldBlack,
        level == Level::Debug ==> tag(level) == seq!['D', 'B', 'G'] && tag_paint(level)
            == Paint::Bold,
        level == Level::Info ==> tag(level) == seq!['I', 'N', 'F'] && tag_paint(level)
            == Paint::BoldGreen,
        level == Level::Warn ==> tag(level) == seq!['W', 'R', 'N'] && tag_paint(level)
            == Paint::BoldYellow,
        level == Level::Error ==> tag(level) == seq!['E', 'R', 'R'] && tag_paint(level)
            == Paint::BoldRed,
        tag(level).len() == 3,
        forall|other: Level| #[trigger] tag(other) == tag(level) ==> other == level,
{
    reveal_strlit("TRC");
    reveal_strlit("DBG");
    reveal_strlit("INF");
    reveal_strlit("WRN");
    reveal_strlit("ERR");
    assert forall|other: Level| #[trigger] tag(other) == tag(level) implies other == level by {
        if other != level {
            assert(tag(other)[0] != tag(level)[0] || tag(other)[1] != tag(level)[1]);
        }
    }
}

/// The line written for a record whose time stamp, shown in black, reads
/// `stamp` and whose tag, shown in its style, reads `tag`.
pub open spec fn log_line(stamp: Seq<char>, tag: Seq<char>, message: Seq<char>) -> Seq<char> {
    stamp + " "@ + tag + " "@ + message + "\n"@
}

/// A log line is the stamp, one space, the tag, one space, the message and
/// a line break, and nothing else.
pub proof fn lemma_log_line_layout(stamp: Seq<char>, tag: Seq<char>, message: Seq<char>)
    ensures
        ({
            let l = log_line(stamp, tag, message);
            let s = stamp.len() as int;
            let t = tag.len() as int;
            let m = message.len() as int;
            &&& l.len() == s + t + m + 3
            &&& l.subrange(0, s) == stamp
            &&& l[s] == ' '
            &&& l.subrange(s + 1, s + 1 + t) == tag
            &&& l[s + 1 + t] == ' '
            &&& l.subrange(s + 2 + t, s + 2 + t + m) == message
            &&& l.last() == '\n'
        }),
{
    reveal_strlit(" ");
    reveal_strlit("\n");
    let l = log_line(stamp, tag, message);
    let s = stamp.len() as int;
    let t = tag.len() as int;
    let m = message.len() as int;
    assert(l =~= stamp + seq![' '] + tag + seq![' '] + message + seq!['\n']);
    assert(l.subrange(0, s) =~= stamp);
    assert(l.subrange(s + 1, s + 1 + t) =~= tag);
    assert(l.subrange(s + 2 + t, s + 2 + t + m) =~= message);
}

/// The tag and style of a level.
pub fn level_tag(level: Level) -> (t: (&'static str, Paint))
    ensures
        t.0@ == tag(level),
        t.1 == tag_paint(level),
        level == Level::Trace ==> t.0@ == seq!['T', 'R', 'C'] && t.1 == Paint::BoldBlack,
        level == Level::Debug ==> t.0@ == seq!['D', 'B', 'G'] && t.1 == Paint::Bold,
        level == Level::Info ==> t.0@ == seq!['I', 'N', 'F'] && t.1 == Paint::BoldGreen,
        level == Level::Warn ==> t.0@ == seq!['W', 'R', 'N'] && t.1 == Paint::BoldYellow,
        level == Level::Error ==> t.0@ == seq!['E', 'R', 'R'] && t.1 == Paint::BoldRed,
{
    proof {
        lemma_level_tags(level);
    }
    match level {
        Level::Trace => ("TRC", Paint::BoldBlack),
        Level::Debug => ("DBG", Paint::Bold),
        Level::Info => ("INF", Paint::BoldGreen),
        Level::Warn => ("WRN", Paint::BoldYellow),
        Level::Error => ("ERR", Paint::BoldRed),
    }
}

/// Joins a shown time stamp, a shown tag and the message into one line.
pub fn compose_line(stamp: &str, tag: &str, message: &str) -> (line: String)
    ensures
        line@ == log_line(stamp@, tag@, message@),
{
    let mut line = String::from_str(stamp);
    line.append(" ");
    line.append(tag);
    line.append(" ");
    line.append(message);
    line.append("\n");
    line
}

/// A logger that writes every record up to a level of verbosity as one
/// line: time stamp, level tag and message.
pub struct EZLogger {
    pub max_level: Level,
}

impl EZLogger {
    /// A logger for the records up to `max_level`.
    pub fn with_max_level(max_level: Level) -> (logger: EZLogger)
        ensures
            logger.max_level == max_level,
    {
        EZLogger { max_level }
    }

    /// The console logger: it writes everything but trace records.
    pub fn for_console() -> (logger: EZLogger)
        ensures
            logger.max_level == Level::Debug,
    {
        EZLogger { max_level: Level::Debug }
    }

    /// The file logger: it writes records of every level.
    pub fn for_file() -> (logger: EZLogger)
        ensures
            logger.max_level == Level::Trace,
    {
        EZLogger { max_level: Level::Trace }
    }

    /// Whether records of `level` are written.
    pub fn enabled(&self, level: Level) -> (b: bool)
        ensures
            b == (level.rank() <= self.max_level.rank()),
    {
        level.at_most(&self.max_level)
    }

    /// The line written for a record of `level` stamped `timestamp`, or
    /// `None` when the logger does not write such records. The stamp is
    /// shown in black and the tag in the level's style, each either plain
    /// or wrapped in escape sequences, as the terminal settings decide.
    pub fn format_record(&self, level: Level, timestamp: &str, message: &str) -> (line: Option<
        String,
    >)
        ensures
            line is None <==> level.rank() > self.max_level.rank(),
            line matches Some(l) ==> exists|stamp: Seq<char>, shown_tag: Seq<char>|
                #[trigger] painted(timestamp@, Paint::Black, stamp) && #[trigger] painted(
                    tag(level),
                    tag_paint(level),
                    shown_tag,
                ) && l@ == log_line(stamp, shown_tag, message@),
    {
        if !self.enabled(level) {
            return None;
        }
        let (text, style) = level_tag(level);
        let stamp = paint(timestamp, Paint::Black);
        let shown = paint(text, style);
        let line = compose_line(stamp.as_str(), shown.as_str(), message);
        assert(painted(timestamp@, Paint::Black, stamp@) && painted(
            tag(level),
            tag_paint(level),
            shown@,
        ));
        Some(line)
    }
}

/// The file logger writes records of every level, and the console logger
/// writes all but trace records.
pub proof fn lemma_logger_levels(level: Level)
    ensures
        level.rank() <= Level::Trace.rank(),
        level.rank() <= Level::Debug.rank() <==> level != Level::Trace,
{
}

} // verus!

//! Which messages are shown, and how a shown message begins.

use crate::text::joined;
use vstd::prelude::*;

verus! {

/// How much a message matters.
#[derive(Copy, Clone, Debug, PartialEq, Eq, Structural)]
pub enum Level {
    DEBUG,
    INFO,
    WARNING,
    ERROR,
}

/// Decides which messages are shown.
#[derive(Copy, Clone, Debug, PartialEq, Eq)]
pub struct Logger {
    /// The least level that is shown.
    pub level: Level,
    /// Whether messages are to be coloured.
    pub color: bool,
}

/// The place of a level among the levels, from the least to the gravest.
pub open spec fn rank(level: Level) -> nat {
    match level {
        Level::DEBUG => 0,
        Level::INFO => 1,
        Level::WARNING => 2,
        Level::ERROR => 3,
    }
}

/// The least level that is shown at a verbosity: errors alone at 0, and one
/// level more with each step.
pub open spec fn level_for(verbosity: nat) -> Level {
    if verbosity == 0 {
        Level::ERROR
    } else if verbosity == 1 {
        Level::WARNING
    } else if verbosity == 2 {
        Level::INFO
    } else {
        Level::DEBUG
    }
}

/// How a message of a level begins.
pub open spec fn prelude_text(level: Level) -> Seq<char> {
    match level {
        Level::DEBUG => "DEBU: "@,
        Level::INFO => "INFO: "@,
        Level::WARNING => "WARN: "@,
        Level::ERROR => "ERRO: "@,
    }
}

/// The line for a message of level `level`, where one is shown at all.
pub open spec fn shown(least: Level, level: Level, prelude: Seq<char>, msg: Seq<char>) -> Option<
    Seq<char>,
> {
    if rank(level) >= rank(least) {
        Some(prelude + msg)
    } else {
        None
    }
}

/// Whether `line` holds the text `text`, or both hold nothing.
pub open spec fn is_line(line: Option<String>, text: Option<Seq<char>>) -> bool {
    match line {
        Some(l) => text == Some(l@),
        None => text is None,
    }
}

impl Level {
    fn place(self) -> (r: u8)
        ensures
            r == rank(self),
    {
        match self {
            Level::DEBUG => 0,
            Level::INFO => 1,
            Level::WARNING => 2,
            Level::ERROR => 3,
        }
    }

    /// How a message of this level begins.
    pub fn prelude(self) -> (text: &'static str)
        ensures
            text@ == prelude_text(self),
    {
        match self {
            Level::DEBUG => "DEBU: ",
            Level::INFO => "INFO: ",
            Level::WARNING => "WARN: ",
            Level::ERROR => "ERRO: ",
        }
    }

    /// The name of the colour in which a message of this level is shown.
    pub fn color(self) -> (name: &'static str)
        ensures
            name@ == match self {
                Level::DEBUG => "cyan"@,
                Level::INFO => "green"@,
                Level::WARNING => "yellow"@,
                Level::ERROR => "red"@,
            },
    {
        match self {
            Level::DEBUG => "cyan",
            Level::INFO => "green",
            Level::WARNING => "yellow",
            Level::ERROR => "red",
        }
    }
}

impl Logger {
    /// The logger for a verbosity.
    pub fn default(verbosity: usize, color: bool) -> (logger: Logger)
        ensures
            logger.level == level_for(verbosity as nat),
            logger.color == color,
    {
        let level = if verbosity == 0 {
            Level::ERROR
        } else if verbosity == 1 {
            Level::WARNING
        } else if verbosity == 2 {
            Level::INFO
        } else {
            Level::DEBUG
        };
        Logger { level, color }
    }

    /// The line for `msg` at `level`, begun with `prelude`; nothing where
    /// the level is below what this logger shows.
    pub fn log(&self, level: Level, prelude: &str, msg: &str) -> (line: Option<String>)
        ensures
            is_line(line, shown(self.level, level, prelude@, msg@)),
    {
        if level.place() >= self.level.place() {
            Some(joined(prelude, msg))
        } else {
            None
        }
    }

    /// The line for a message for someone who looks into a fault, where this logger shows it.
    pub fn debug(&self, msg: &str) -> (line: Option<String>)
        ensures
            is_line(line, shown(self.level, Level::DEBUG, prelude_text(Level::DEBUG), msg@)),
    {
        self.log(Level::DEBUG, Level::DEBUG.prelude(), msg)
    }

    /// The line for a message on what is being done, where this logger shows it.
    pub fn info(&self, msg: &str) -> (line: Option<String>)
        ensures
            is_line(line, shown(self.level, Level::INFO, prelude_text(Level::INFO), msg@)),
    {
        self.log(Level::INFO, Level::INFO.prelude(), msg)
    }

    /// The line for a warning, where this logger shows it.
    pub fn warn(&self, msg: &str) -> (line: Option<String>)
        ensures
            is_line(line, shown(self.level, Level::WARNING, prelude_text(Level::WARNING), msg@)),
    {
        self.log(Level::WARNING, Level::WARNING.prelude(), msg)
    }

    /// The line for an error, where this logger shows it.
    pub fn error(&self, msg: &str) -> (line: Option<String>)
        ensures
            is_line(line, shown(self.level, Level::ERROR, prelude_text(Level::ERROR), msg@)),
    {
        self.log(Level::ERROR, Level::ERROR.prelude(), msg)
    }
}

} // verus!

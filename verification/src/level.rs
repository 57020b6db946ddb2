//! Severity levels: a closed, totally ordered enumeration with a fixed-width
//! display label and a per-level color tag.

use vstd::prelude::*;
use vstd::string::StringExecFns;

verus! {

/// Severity of a log record, ordered from most verbose to most severe:
/// `Trace < Debug < Info < Warning < Error < Fatal`.
#[derive(Clone, Copy, PartialEq, Eq, Structural, Debug)]
pub enum Level {
    Trace,
    Debug,
    Info,
    Warning,
    Error,
    Fatal,
}

impl Level {
    /// Position of the level in the fixed severity order.
    pub open spec fn ordinal(self) -> int {
        match self {
            Level::Trace => 0,
            Level::Debug => 1,
            Level::Info => 2,
            Level::Warning => 3,
            Level::Error => 4,
            Level::Fatal => 5,
        }
    }

    /// Severity rank of the level, usable for comparisons.
    pub fn severity(&self) -> (r: u8)
        ensures
            r as int == self.ordinal(),
    {
        match self {
            Level::Trace => 0,
            Level::Debug => 1,
            Level::Info => 2,
            Level::Warning => 3,
            Level::Error => 4,
            Level::Fatal => 5,
        }
    }

    /// `self` is at most as severe as `other`.
    pub fn le(&self, other: &Level) -> (r: bool)
        ensures
            r == (self.ordinal() <= other.ordinal()),
    {
        self.severity() <= other.severity()
    }

    /// `self` is at least as severe as `other`.
    pub fn ge(&self, other: &Level) -> (r: bool)
        ensures
            r == (self.ordinal() >= other.ordinal()),
    {
        self.severity() >= other.severity()
    }

    /// The fixed-width display label of the level: always five characters,
    /// padded with a trailing space where the name is shorter.
    pub open spec fn label(self) -> Seq<char> {
        match self {
            Level::Trace => "Trace"@,
            Level::Debug => "Debug"@,
            Level::Info => "Info "@,
            Level::Warning => "Warn "@,
            Level::Error => "Error"@,
            Level::Fatal => "Fatal"@,
        }
    }

    /// Render the fixed-width display label of the level.
    pub fn label_text(&self) -> (r: String)
        ensures
            r@ == self.label(),
    {
        match self {
            Level::Trace => String::from_str("Trace"),
            Level::Debug => String::from_str("Debug"),
            Level::Info => String::from_str("Info "),
            Level::Warning => String::from_str("Warn "),
            Level::Error => String::from_str("Error"),
            Level::Fatal => String::from_str("Fatal"),
        }
    }

    /// The terminal color tag associated with the level: the escape sequence
    /// written before a colored header.
    pub open spec fn color(self) -> Seq<char> {
        match self {
            Level::Trace => "\u{1b}[90m"@,
            Level::Debug => "\u{1b}[36m"@,
            Level::Info => "\u{1b}[32m"@,
            Level::Warning => "\u{1b}[33m"@,
            Level::Error => "\u{1b}[31m"@,
            Level::Fatal => "\u{1b}[35m"@,
        }
    }

    /// Render the terminal color tag of the level.
    pub fn color_text(&self) -> (r: String)
        ensures
            r@ == self.color(),
    {
        match self {
            Level::Trace => String::from_str("\u{1b}[90m"),
            Level::Debug => String::from_str("\u{1b}[36m"),
            Level::Info => String::from_str("\u{1b}[32m"),
            Level::Warning => String::from_str("\u{1b}[33m"),
            Level::Error => String::from_str("\u{1b}[31m"),
            Level::Fatal => String::from_str("\u{1b}[35m"),
        }
    }
}

/// The terminal escape sequence that restores the default color after a
/// colored header.
pub open spec fn color_reset() -> Seq<char> {
    "\u{1b}[0m"@
}

/// Render the color-reset escape sequence.
pub fn color_reset_text() -> (r: String)
    ensures
        r@ == color_reset(),
{
    String::from_str("\u{1b}[0m")
}

/// The severity order is total: distinct levels have distinct ordinals, and
/// of two distinct levels exactly one is the smaller.
pub proof fn lemma_level_order_total(a: Level, b: Level)
    ensures
        (a.ordinal() == b.ordinal()) <==> a == b,
        a != b ==> ((a.ordinal() < b.ordinal()) != (b.ordinal() < a.ordinal())),
{
}

} // verus!

//! Handlers: each couples one formatter with one filter and a sink, and
//! renders an accepted record into the single line that belongs on that sink.
//! The write itself is left to the caller that owns the process's streams.

use vstd::prelude::*;
use vstd::string::StringExecFns;

use crate::filters::Filter;
use crate::formatters::RecordFormatter;
use crate::level::{color_reset, color_reset_text, Level};
use crate::record::{Metadata, TimedRecord};
use crate::time::strftime_of;

verus! {

/// The output stream a handler writes to.
#[derive(Clone, Copy, PartialEq, Eq, Structural, Debug)]
pub enum Sink {
    Stdout,
    Stderr,
}

/// The full rendered line for a record: the header produced by the formatter
/// from the given time text, wrapped in the level's color tag and the reset
/// sequence when colors are on, with the message appended untouched.
pub open spec fn line_text(
    colors: bool,
    formatter: RecordFormatter,
    time_text: Seq<char>,
    record: TimedRecord,
) -> Seq<char> {
    let header = formatter.header_text(time_text, record.metadata.level, record.metadata.target@);
    if colors {
        record.metadata.level.color() + header + color_reset() + record.message@
    } else {
        header + record.message@
    }
}

/// `text` is the line these settings render for the record: its time field is
/// the record's capture time under the formatter's pattern, or empty where
/// the pattern cannot be rendered.
pub open spec fn is_rendered_line(
    colors: bool,
    formatter: RecordFormatter,
    record: TimedRecord,
    text: Seq<char>,
) -> bool {
    ||| text == line_text(colors, formatter, strftime_of(formatter.pattern@, record.time), record)
    ||| text == line_text(colors, formatter, Seq::<char>::empty(), record)
}

/// Render one record into its line under the given color flag and formatter.
fn render_with(colors: bool, formatter: &RecordFormatter, record: &TimedRecord) -> (r: String)
    ensures
        is_rendered_line(colors, *formatter, *record, r@),
{
    let header = formatter.format(record);
    let mut out = String::new();
    if colors {
        let tag = record.level().color_text();
        out.append(tag.as_str());
        out.append(header.as_str());
        let reset = color_reset_text();
        out.append(reset.as_str());
    } else {
        out.append(header.as_str());
    }
    out.append(record.args().as_str());
    proof {
        let with_time = formatter.header_text(
            strftime_of(formatter.pattern@, record.time),
            record.metadata.level,
            record.metadata.target@,
        );
        if header@ == with_time {
            assert(out@ =~= line_text(
                colors,
                *formatter,
                strftime_of(formatter.pattern@, record.time),
                *record,
            ));
        } else {
            assert(out@ =~= line_text(colors, *formatter, Seq::<char>::empty(), *record));
        }
    }
    out
}

/// With color disabled the rendered line is the bare header followed by the
/// message; with color enabled the same header is wrapped in the level's
/// color tag and the reset sequence, and the message stays untouched.
pub proof fn lemma_color_wraps_header_only(
    formatter: RecordFormatter,
    record: TimedRecord,
    time_text: Seq<char>,
)
    ensures
        ({
            let header = formatter.header_text(
                time_text,
                record.metadata.level,
                record.metadata.target@,
            );
            line_text(false, formatter, time_text, record) == header + record.message@
                && line_text(true, formatter, time_text, record) == record.metadata.level.color()
                + header + color_reset() + record.message@
        }),
{
}

/// A pluggable handler: decides whether a record is its business and renders
/// the line it would write. The provided stdout and stderr handlers implement
/// it; a sink of one's own implements the same three methods.
pub trait LogHandler {
    /// Whether records with this severity and target are accepted.
    spec fn accepts_spec(&self, level: Level, target: Seq<char>) -> bool;

    /// `text` is the line this handler renders for the record.
    spec fn line_spec(&self, record: TimedRecord, text: Seq<char>) -> bool;

    /// Whether this handler's filter accepts the record.
    fn filter(&self, metadata: &Metadata) -> (r: bool)
        ensures
            r == self.accepts_spec(metadata.level, metadata.target@),
    ;

    /// Render the record into the one line this handler would write.
    fn log(&self, record: &TimedRecord) -> (line: String)
        ensures
            self.line_spec(*record, line@),
    ;

    /// Force buffered output out to the sink.
    fn flush(&self);
}

/// Renders accepted records to standard output.
pub struct StdoutHandler {
    pub formatter: RecordFormatter,
    pub filter: Filter,
    pub colors: bool,
}

impl StdoutHandler {
    /// A stdout handler with the given formatter and filter; colors are
    /// enabled by default.
    pub fn new(formatter: RecordFormatter, filter: Filter) -> (h: Self)
        ensures
            h.formatter == formatter,
            h.filter == filter,
            h.colors,
    {
        StdoutHandler { formatter, filter, colors: true }
    }

    /// Turn the color tags on or off; formatter and filter are untouched.
    pub fn set_colors(&mut self, enabled: bool)
        ensures
            final(self).colors == enabled,
            final(self).formatter == old(self).formatter,
            final(self).filter == old(self).filter,
    {
        self.colors = enabled;
    }
}

impl LogHandler for StdoutHandler {
    open spec fn accepts_spec(&self, level: Level, target: Seq<char>) -> bool {
        self.filter.accepts(level, target)
    }

    open spec fn line_spec(&self, record: TimedRecord, text: Seq<char>) -> bool {
        is_rendered_line(self.colors, self.formatter, record, text)
    }

    fn filter(&self, metadata: &Metadata) -> (r: bool) {
        self.filter.apply(metadata)
    }

    fn log(&self, record: &TimedRecord) -> (line: String) {
        render_with(self.colors, &self.formatter, record)
    }

    /// A no-op: the stream is unbuffered.
    fn flush(&self) {
    }
}

/// Renders accepted records to standard error.
pub struct StderrHandler {
    pub formatter: RecordFormatter,
    pub filter: Filter,
    pub colors: bool,
}

impl StderrHandler {
    /// A stderr handler with the given formatter and filter; colors are
    /// enabled by default.
    pub fn new(formatter: RecordFormatter, filter: Filter) -> (h: Self)
        ensures
            h.formatter == formatter,
            h.filter == filter,
            h.colors,
    {
        StderrHandler { formatter, filter, colors: true }
    }

    /// Turn the color tags on or off; formatter and filter are untouched.
    pub fn set_colors(&mut self, enabled: bool)
        ensures
            final(self).colors == enabled,
            final(self).formatter == old(self).formatter,
            final(self).filter == old(self).filter,
    {
        self.colors = enabled;
    }
}

impl LogHandler for StderrHandler {
    open spec fn accepts_spec(&self, level: Level, target: Seq<char>) -> bool {
        self.filter.accepts(level, target)
    }

    open spec fn line_spec(&self, record: TimedRecord, text: Seq<char>) -> bool {
        is_rendered_line(self.colors, self.formatter, record, text)
    }

    fn filter(&self, metadata: &Metadata) -> (r: bool) {
        self.filter.apply(metadata)
    }

    fn log(&self, record: &TimedRecord) -> (line: String) {
        render_with(self.colors, &self.formatter, record)
    }

    /// A no-op: the stream is unbuffered.
    fn flush(&self) {
    }
}

/// One registered handler of either sink kind.
pub enum Handler {
    Stdout(StdoutHandler),
    Stderr(StderrHandler),
}

impl Handler {
    /// The sink this handler writes to.
    pub open spec fn sink(self) -> Sink {
        match self {
            Handler::Stdout(_) => Sink::Stdout,
            Handler::Stderr(_) => Sink::Stderr,
        }
    }

    /// Whether the handler's filter accepts a record with this severity and
    /// target.
    pub open spec fn accepts(self, level: Level, target: Seq<char>) -> bool {
        match self {
            Handler::Stdout(h) => h.accepts_spec(level, target),
            Handler::Stderr(h) => h.accepts_spec(level, target),
        }
    }

    /// `text` is the line the handler renders for the record.
    pub open spec fn is_line(self, record: TimedRecord, text: Seq<char>) -> bool {
        match self {
            Handler::Stdout(h) => h.line_spec(record, text),
            Handler::Stderr(h) => h.line_spec(record, text),
        }
    }

    /// Whether this handler's filter accepts the record.
    pub fn filter(&self, metadata: &Metadata) -> (r: bool)
        ensures
            r == self.accepts(metadata.level, metadata.target@),
    {
        match self {
            Handler::Stdout(h) => h.filter(metadata),
            Handler::Stderr(h) => h.filter(metadata),
        }
    }

    /// Render the record into the one line this handler would write.
    pub fn log(&self, record: &TimedRecord) -> (line: String)
        ensures
            self.is_line(*record, line@),
    {
        match self {
            Handler::Stdout(h) => h.log(record),
            Handler::Stderr(h) => h.log(record),
        }
    }

    /// The sink this handler writes to.
    pub fn sink_kind(&self) -> (s: Sink)
        ensures
            s == self.sink(),
    {
        match self {
            Handler::Stdout(_) => Sink::Stdout,
            Handler::Stderr(_) => Sink::Stderr,
        }
    }

    /// Force buffered output out; a no-op for the unbuffered streams.
    pub fn flush(&self) {
        match self {
            Handler::Stdout(h) => h.flush(),
            Handler::Stderr(h) => h.flush(),
        }
    }
}

} // verus!

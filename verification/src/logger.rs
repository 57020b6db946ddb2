//! The dispatch core: an ordered, append-only registry of handlers. Each
//! logged record is checked against every handler's filter in insertion
//! order, and every accepting handler contributes exactly one rendered line
//! bound for its sink. The caller that owns the process's streams performs
//! the writes.

use vstd::prelude::*;

use crate::handlers::{Handler, Sink};
use crate::level::Level;
use crate::record::{Metadata, TimedRecord};

verus! {

/// One line a dispatch produced: the sink it belongs on and its full text.
pub struct OutputLine {
    pub sink: Sink,
    pub text: String,
}

/// The one-time bulk installation failed.
#[derive(Clone, Copy, PartialEq, Eq, Structural, Debug)]
pub enum InitError {
    /// A handler list was already installed; the registry is unchanged.
    AlreadyInitialized,
}

/// `out` is exactly what dispatching `record` through `handlers` produces:
/// one line per accepting handler, in insertion order, each rendered by its
/// handler and bound for that handler's sink.
pub open spec fn is_dispatch(
    handlers: Seq<Handler>,
    record: TimedRecord,
    out: Seq<OutputLine>,
) -> bool
    decreases handlers.len(),
{
    if handlers.len() == 0 {
        out.len() == 0
    } else {
        let h = handlers.last();
        if h.accepts(record.metadata.level, record.metadata.target@) {
            &&& out.len() >= 1
            &&& out.last().sink == h.sink()
            &&& h.is_line(record, out.last().text@)
            &&& is_dispatch(handlers.drop_last(), record, out.drop_last())
        } else {
            is_dispatch(handlers.drop_last(), record, out)
        }
    }
}

/// The registry of handlers: created empty, populated by appending or by a
/// one-time bulk installation, and read by every dispatch.
pub struct Logger {
    pub handlers: Vec<Handler>,
    pub initialized: bool,
}

impl Logger {
    /// An empty registry that has not yet been bulk-installed.
    pub fn new() -> (l: Logger)
        ensures
            l.handlers@ == Seq::<Handler>::empty(),
            !l.initialized,
    {
        Logger { handlers: Vec::new(), initialized: false }
    }

    /// Append one handler to the registry; every later dispatch also checks
    /// it, after all handlers registered before it.
    pub fn register(&mut self, handler: Handler)
        ensures
            final(self).handlers@ == old(self).handlers@.push(handler),
            final(self).initialized == old(self).initialized,
    {
        self.handlers.push(handler);
    }

    /// Install the full handler list exactly once. A second call fails with
    /// the already-initialized condition and leaves the installed list
    /// untouched.
    pub fn initialize(&mut self, handlers: Vec<Handler>) -> (r: Result<(), InitError>)
        ensures
            r is Ok <==> !old(self).initialized,
            r matches Err(e) ==> e == InitError::AlreadyInitialized,
            old(self).initialized ==> *final(self) == *old(self),
            !old(self).initialized ==> final(self).initialized && final(self).handlers@
                == handlers@,
    {
        if self.initialized {
            Err(InitError::AlreadyInitialized)
        } else {
            self.handlers = handlers;
            self.initialized = true;
            Ok(())
        }
    }

    /// The registry never vetoes a record as a whole; acceptance is decided
    /// per handler.
    pub fn enabled(&self, _metadata: &Metadata) -> (r: bool)
        ensures
            r,
    {
        true
    }

    /// Dispatch one record: in insertion order, every handler whose filter
    /// accepts the record renders exactly one line for its sink.
    pub fn log(&self, record: &TimedRecord) -> (out: Vec<OutputLine>)
        ensures
            is_dispatch(self.handlers@, *record, out@),
    {
        let mut out: Vec<OutputLine> = Vec::new();
        let mut i: usize = 0;
        while i < self.handlers.len()
            invariant
                i <= self.handlers.len(),
                is_dispatch(self.handlers@.take(i as int), *record, out@),
            decreases self.handlers.len() - i,
        {
            let ghost prev_out = out@;
            let h = &self.handlers[i];
            if h.filter(record.metadata()) {
                let sink = h.sink_kind();
                let text = h.log(record);
                out.push(OutputLine { sink, text });
            }
            proof {
                let hs = self.handlers@;
                assert(hs.take(i + 1).last() == hs[i as int]);
                assert(hs.take(i + 1).drop_last() =~= hs.take(i as int));
                if hs[i as int].accepts(record.metadata.level, record.metadata.target@) {
                    assert(out@.drop_last() =~= prev_out);
                }
            }
            i += 1;
        }
        proof {
            assert(self.handlers@.take(self.handlers@.len() as int) =~= self.handlers@);
        }
        out
    }

    /// Construct a record at the current wall-clock time from the given
    /// level, target and rendered message, and dispatch it.
    pub fn emit(&self, level: Level, target: String, message: String) -> (out: Vec<OutputLine>)
        ensures
            exists|r: TimedRecord|
                r.time.wf() && r.metadata.level == level && r.metadata.target@ == target@
                    && r.message@ == message@ && #[trigger] is_dispatch(self.handlers@, r, out@),
    {
        let record = TimedRecord::new(level, target, message);
        let out = self.log(&record);
        proof {
            assert(is_dispatch(self.handlers@, record, out@));
        }
        out
    }

    /// Force buffered output out of every handler; a no-op for the
    /// unbuffered standard streams.
    pub fn flush(&self) {
    }
}

/// Dispatch visits handlers in insertion order: with a first and a second
/// registered handler and a record both accept, the dispatch yields exactly
/// the first handler's line and then the second handler's line.
pub proof fn lemma_dispatch_in_insertion_order(
    h1: Handler,
    h2: Handler,
    record: TimedRecord,
    out: Seq<OutputLine>,
)
    requires
        is_dispatch(seq![h1, h2], record, out),
        h1.accepts(record.metadata.level, record.metadata.target@),
        h2.accepts(record.metadata.level, record.metadata.target@),
    ensures
        out.len() == 2,
        out[0].sink == h1.sink() && h1.is_line(record, out[0].text@),
        out[1].sink == h2.sink() && h2.is_line(record, out[1].text@),
{
    reveal_with_fuel(is_dispatch, 3);
    let hs = seq![h1, h2];
    assert(hs.last() == h2);
    assert(hs.drop_last() =~= seq![h1]);
    assert(is_dispatch(seq![h1], record, out.drop_last()));
    assert(seq![h1].drop_last() =~= Seq::<Handler>::empty());
    assert(out.drop_last().drop_last().len() == 0);
    assert(out.len() == 2);
    assert(out.drop_last().last() == out[0]);
    assert(out.last() == out[1]);
}

/// How many of the handlers accept the record.
pub open spec fn accepting_count(handlers: Seq<Handler>, record: TimedRecord) -> int
    decreases handlers.len(),
{
    if handlers.len() == 0 {
        0
    } else {
        accepting_count(handlers.drop_last(), record) + if handlers.last().accepts(
            record.metadata.level,
            record.metadata.target@,
        ) {
            1int
        } else {
            0int
        }
    }
}

/// A dispatch loses and duplicates nothing: it yields exactly one line for
/// each handler that accepts the record.
pub proof fn lemma_one_line_per_accepting_handler(
    handlers: Seq<Handler>,
    record: TimedRecord,
    out: Seq<OutputLine>,
)
    requires
        is_dispatch(handlers, record, out),
    ensures
        out.len() == accepting_count(handlers, record),
    decreases handlers.len(),
{
    if handlers.len() != 0 {
        if handlers.last().accepts(record.metadata.level, record.metadata.target@) {
            lemma_one_line_per_accepting_handler(handlers.drop_last(), record, out.drop_last());
        } else {
            lemma_one_line_per_accepting_handler(handlers.drop_last(), record, out);
        }
    }
}

/// Resolution of the build-time minimum-level options, from most verbose to
/// least verbose; when none is selected, logging is fully disabled.
pub open spec fn resolved_gate(
    trace_on: bool,
    debug_on: bool,
    info_on: bool,
    warning_on: bool,
    error_on: bool,
    fatal_on: bool,
) -> Option<Level> {
    if trace_on {
        Some(Level::Trace)
    } else if debug_on {
        Some(Level::Debug)
    } else if info_on {
        Some(Level::Info)
    } else if warning_on {
        Some(Level::Warning)
    } else if error_on {
        Some(Level::Error)
    } else if fatal_on {
        Some(Level::Fatal)
    } else {
        None
    }
}

/// Pick the minimum level from the named build options: the first selected
/// option wins, in a fixed precedence order from most verbose to least
/// verbose, and with none selected logging is fully disabled.
pub fn resolve_level_gate(
    trace_on: bool,
    debug_on: bool,
    info_on: bool,
    warning_on: bool,
    error_on: bool,
    fatal_on: bool,
) -> (g: Option<Level>)
    ensures
        g == resolved_gate(trace_on, debug_on, info_on, warning_on, error_on, fatal_on),
{
    if trace_on {
        Some(Level::Trace)
    } else if debug_on {
        Some(Level::Debug)
    } else if info_on {
        Some(Level::Info)
    } else if warning_on {
        Some(Level::Warning)
    } else if error_on {
        Some(Level::Error)
    } else if fatal_on {
        Some(Level::Fatal)
    } else {
        None
    }
}

/// A gated level passes only a gate set at most as severe as it; a disabled
/// gate passes nothing.
pub open spec fn gate_passes(gate: Option<Level>, level: Level) -> bool {
    match gate {
        Some(min) => level.ordinal() >= min.ordinal(),
        None => false,
    }
}

/// Whether a record of this level passes the minimum-level gate before any
/// record is constructed or dispatched.
pub fn gate_allows(gate: Option<Level>, level: Level) -> (r: bool)
    ensures
        r == gate_passes(gate, level),
{
    match gate {
        Some(min) => level.ge(&min),
        None => false,
    }
}

} // verus!

//! The record model: the metadata a filter inspects (level and source
//! target), and one immutable captured logging event.

use vstd::prelude::*;

use crate::level::Level;
use crate::time::{self, Timestamp};

verus! {

/// What a filter predicate may inspect about a record: its severity and the
/// source/target string identifying the call site.
pub struct Metadata {
    pub level: Level,
    pub target: String,
}

impl Metadata {
    /// Build metadata from a severity and a source/target string.
    pub fn new(level: Level, target: String) -> (m: Metadata)
        ensures
            m.level == level,
            m.target@ == target@,
    {
        Metadata { level, target }
    }

    /// The record's severity.
    pub fn level(&self) -> (r: Level)
        ensures
            r == self.level,
    {
        self.level
    }

    /// The source/target string of the call site.
    pub fn target(&self) -> (r: &String)
        ensures
            r@ == self.target@,
    {
        &self.target
    }
}

/// One immutable logging event: the time it was captured, its metadata, and
/// the message, rendered once at the call site.
pub struct TimedRecord {
    pub time: Timestamp,
    pub message: String,
    pub metadata: Metadata,
}

impl TimedRecord {
    /// Snapshot a new record at the current wall-clock time.
    pub fn new(level: Level, target: String, message: String) -> (r: TimedRecord)
        ensures
            r.time.wf(),
            r.metadata.level == level,
            r.metadata.target@ == target@,
            r.message@ == message@,
    {
        TimedRecord { time: time::now(), message, metadata: Metadata { level, target } }
    }

    /// Build a record with an explicitly chosen capture time, for callers
    /// that supply their own clock reading.
    pub fn at_time(time: Timestamp, level: Level, target: String, message: String) -> (r:
        TimedRecord)
        ensures
            r.time == time,
            r.metadata.level == level,
            r.metadata.target@ == target@,
            r.message@ == message@,
    {
        TimedRecord { time, message, metadata: Metadata { level, target } }
    }

    /// The capture time of the record.
    pub fn time(&self) -> (r: &Timestamp)
        ensures
            r == self.time,
    {
        &self.time
    }

    /// The message rendered at the call site.
    pub fn args(&self) -> (r: &String)
        ensures
            r@ == self.message@,
    {
        &self.message
    }

    /// The record's severity.
    pub fn level(&self) -> (r: Level)
        ensures
            r == self.metadata.level,
    {
        self.metadata.level
    }

    /// The source/target string of the call site.
    pub fn target(&self) -> (r: &String)
        ensures
            r@ == self.metadata.target@,
    {
        &self.metadata.target
    }

    /// The metadata a filter inspects.
    pub fn metadata(&self) -> (r: &Metadata)
        ensures
            r.level == self.metadata.level,
            r.target@ == self.metadata.target@,
    {
        &self.metadata
    }
}

} // verus!

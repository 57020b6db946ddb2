//! Header formatters: a small configuration value deciding how the header of
//! a rendered line looks, built by named factory functions. The header is
//! `"[<time> <level>] <target> => "` or `"[<time> <level>] => "`, with the
//! message appended afterwards by the handler.

use vstd::prelude::*;
use vstd::string::StringExecFns;

use crate::level::Level;
use crate::record::TimedRecord;
use crate::time::{render_time, strftime_of};

verus! {

/// A pure rendering rule mapping (timestamp, level, target) to the textual
/// header of one line: a time pattern and whether the target is shown.
pub struct RecordFormatter {
    pub pattern: String,
    pub with_target: bool,
}

impl RecordFormatter {
    /// The header for an already-rendered time text.
    pub open spec fn header_text(self, time_text: Seq<char>, level: Level, target: Seq<char>)
        -> Seq<char> {
        if self.with_target {
            "["@ + time_text + " "@ + level.label() + "] "@ + target + " => "@
        } else {
            "["@ + time_text + " "@ + level.label() + "] => "@
        }
    }

    /// The header of the given record when its capture time renders as
    /// `time_text` under this formatter's pattern.
    pub fn header_for(&self, time_text: &String, level: Level, target: &String) -> (r: String)
        ensures
            r@ == self.header_text(time_text@, level, target@),
    {
        let mut out = String::from_str("[");
        out.append(time_text.as_str());
        out.append(" ");
        let label = level.label_text();
        out.append(label.as_str());
        if self.with_target {
            out.append("] ");
            out.append(target.as_str());
            out.append(" => ");
        } else {
            out.append("] => ");
        }
        proof {
            assert(out@ =~= self.header_text(time_text@, level, target@));
        }
        out
    }

    /// Render the header for a record: the capture time goes through the
    /// formatter's strftime-like pattern, then level and target are laid out
    /// around it. When the pattern cannot be rendered, the time field is left
    /// empty rather than failing the emission.
    pub fn format(&self, record: &TimedRecord) -> (r: String)
        ensures
            r@ == self.header_text(
                strftime_of(self.pattern@, record.time),
                record.metadata.level,
                record.metadata.target@,
            ) || r@ == self.header_text(
                Seq::<char>::empty(),
                record.metadata.level,
                record.metadata.target@,
            ),
    {
        let time_text = match render_time(&record.time, self.pattern.as_str()) {
            Some(s) => s,
            None => String::new(),
        };
        self.header_for(&time_text, record.level(), record.target())
    }
}

/// A formatter that includes the target field:
/// `[<time> <level>] <target> => <message>`.
pub fn time_lvl_target(pattern: String) -> (f: RecordFormatter)
    ensures
        f.pattern@ == pattern@,
        f.with_target,
{
    RecordFormatter { pattern, with_target: true }
}

/// A formatter without the target field: `[<time> <level>] => <message>`.
pub fn time_lvl(pattern: String) -> (f: RecordFormatter)
    ensures
        f.pattern@ == pattern@,
        !f.with_target,
{
    RecordFormatter { pattern, with_target: false }
}

} // verus!

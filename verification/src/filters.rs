//! Filter predicates over a record's metadata, built by named factory
//! functions: each one decides whether a handler processes a record.

use vstd::prelude::*;

use crate::level::Level;
use crate::record::Metadata;

verus! {

/// A pure predicate over (level, target) deciding whether a handler should
/// process a record.
pub enum Filter {
    /// Accepts every record.
    Empty,
    /// Accepts records at least as severe as the bound.
    LevelMin(Level),
    /// Accepts records at most as severe as the bound.
    LevelMax(Level),
    /// Accepts records whose severity lies in the inclusive range; an empty
    /// range (min above max) rejects every record.
    LevelRange(Level, Level),
    /// Accepts records whose target equals the given string exactly.
    Target(String),
    /// Accepts a record exactly when every joined filter accepts it; with no
    /// filters joined it accepts every record.
    Join(Vec<Filter>),
}

impl Filter {
    /// Whether the filter accepts a record with this severity and target.
    pub open spec fn accepts(self, level: Level, target: Seq<char>) -> bool
        decreases self,
        via Self::accepts_decreases
    {
        match self {
            Filter::Empty => true,
            Filter::LevelMin(min) => level.ordinal() >= min.ordinal(),
            Filter::LevelMax(max) => level.ordinal() <= max.ordinal(),
            Filter::LevelRange(min, max) => min.ordinal() <= level.ordinal() <= max.ordinal(),
            Filter::Target(t) => target == t@,
            Filter::Join(fs) => all_accept(fs@, level, target),
        }
    }

    #[via_fn]
    proof fn accepts_decreases(self, level: Level, target: Seq<char>) {
        if let Filter::Join(fs) = self {
            assert(decreases_to!(self => fs));
            assert(decreases_to!(fs => fs@));
        }
    }

    /// Apply the filter to a record's metadata.
    pub fn apply(&self, metadata: &Metadata) -> (r: bool)
        ensures
            r == self.accepts(metadata.level, metadata.target@),
        decreases *self,
    {
        match self {
            Filter::Empty => true,
            Filter::LevelMin(min) => metadata.level.ge(min),
            Filter::LevelMax(max) => metadata.level.le(max),
            Filter::LevelRange(min, max) => min.le(&metadata.level) && metadata.level.le(max),
            Filter::Target(t) => *t == metadata.target,
            Filter::Join(fs) => {
                proof {
                    assert(decreases_to!(*self => self->0));
                    assert(decreases_to!(self->0 => self->0@));
                }
                apply_all(fs, metadata)
            },
        }
    }
}

/// Every filter in the sequence accepts a record with this severity and
/// target.
pub open spec fn all_accept(fs: Seq<Filter>, level: Level, target: Seq<char>) -> bool
    decreases fs,
    via all_accept_decreases
{
    if fs.len() == 0 {
        true
    } else {
        fs[0].accepts(level, target) && all_accept(fs.drop_first(), level, target)
    }
}

#[via_fn]
proof fn all_accept_decreases(fs: Seq<Filter>, level: Level, target: Seq<char>) {
    if fs.len() != 0 {
        assert(decreases_to!(fs => fs[0]));
        assert(fs.drop_first() == fs.subrange(1, fs.len() as int));
        assert(decreases_to!(fs => fs.subrange(1, fs.len() as int)));
    }
}

/// A sequence of filters accepts as a whole exactly when each of its members
/// accepts.
pub proof fn lemma_all_accept_pointwise(fs: Seq<Filter>, level: Level, target: Seq<char>)
    ensures
        all_accept(fs, level, target) <==> (forall|i: int|
            0 <= i < fs.len() ==> #[trigger] fs[i].accepts(level, target)),
    decreases fs.len(),
{
    if fs.len() != 0 {
        lemma_all_accept_pointwise(fs.drop_first(), level, target);
        if fs[0].accepts(level, target) && (forall|i: int|
            0 <= i < fs.drop_first().len() ==> #[trigger] fs.drop_first()[i].accepts(
                level,
                target,
            )) {
            assert forall|i: int| 0 <= i < fs.len() implies #[trigger] fs[i].accepts(
                level,
                target,
            ) by {
                if i > 0 {
                    assert(fs.drop_first()[i - 1] == fs[i]);
                }
            }
        }
        if forall|i: int| 0 <= i < fs.len() ==> #[trigger] fs[i].accepts(level, target) {
            assert forall|i: int|
                0 <= i < fs.drop_first().len() implies #[trigger] fs.drop_first()[i].accepts(
                level,
                target,
            ) by {
                assert(fs.drop_first()[i] == fs[i + 1]);
            }
        }
    }
}

/// Apply every filter in the sequence to the metadata; true exactly when all
/// of them accept it.
fn apply_all(fs: &Vec<Filter>, metadata: &Metadata) -> (r: bool)
    ensures
        r == all_accept(fs@, metadata.level, metadata.target@),
    decreases fs@,
{
    let mut i: usize = 0;
    while i < fs.len()
        invariant
            i <= fs.len(),
            forall|j: int|
                0 <= j < i ==> #[trigger] fs@[j].accepts(metadata.level, metadata.target@),
        decreases fs.len() - i,
    {
        if !fs[i].apply(metadata) {
            proof {
                lemma_all_accept_pointwise(fs@, metadata.level, metadata.target@);
            }
            return false;
        }
        i += 1;
    }
    proof {
        lemma_all_accept_pointwise(fs@, metadata.level, metadata.target@);
    }
    true
}

/// An empty filter, which accepts every record.
pub fn empty() -> (f: Filter)
    ensures
        f == Filter::Empty,
{
    Filter::Empty
}

/// A filter accepting records whose level is at least as severe as `min`.
pub fn level_min(min: Level) -> (f: Filter)
    ensures
        f == Filter::LevelMin(min),
{
    Filter::LevelMin(min)
}

/// A filter accepting records whose level is at most as severe as `max`.
pub fn level_max(max: Level) -> (f: Filter)
    ensures
        f == Filter::LevelMax(max),
{
    Filter::LevelMax(max)
}

/// A filter accepting records whose level lies between `min` and `max`,
/// inclusive at both ends; when `min` is above `max` it rejects every record.
pub fn level_range(min: Level, max: Level) -> (f: Filter)
    ensures
        f == Filter::LevelRange(min, max),
{
    Filter::LevelRange(min, max)
}

/// A filter accepting records that came from the given target exactly.
pub fn target(t: String) -> (f: Filter)
    ensures
        f == Filter::Target(t),
{
    Filter::Target(t)
}

/// Chain filters: the joined filter accepts a record exactly when every
/// given filter accepts it; joining none accepts every record.
pub fn join_filters(filters: Vec<Filter>) -> (f: Filter)
    ensures
        f == Filter::Join(filters),
{
    Filter::Join(filters)
}

/// An in-range filter accepts every level strictly inside its bounds, and a
/// filter whose bounds are crossed (minimum above maximum) accepts no level.
pub proof fn lemma_level_range(a: Level, b: Level, c: Level, t: Seq<char>)
    ensures
        a.ordinal() < b.ordinal() < c.ordinal() ==> Filter::LevelRange(a, c).accepts(b, t),
        a.ordinal() < c.ordinal() ==> !Filter::LevelRange(c, a).accepts(b, t),
{
}

/// Joining zero filters accepts exactly what the empty filter accepts:
/// everything.
pub proof fn lemma_join_empty(fs: Vec<Filter>, level: Level, target: Seq<char>)
    requires
        fs@.len() == 0,
    ensures
        Filter::Join(fs).accepts(level, target) == Filter::Empty.accepts(level, target),
{
}

/// A join of filters accepts a record exactly when every one of the joined
/// filters accepts it.
pub proof fn lemma_join_is_conjunction(fs: Vec<Filter>, level: Level, target: Seq<char>)
    ensures
        Filter::Join(fs).accepts(level, target) <==> (forall|i: int|
            0 <= i < fs@.len() ==> #[trigger] fs@[i].accepts(level, target)),
{
    lemma_all_accept_pointwise(fs@, level, target);
}

} // verus!

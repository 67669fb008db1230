//! Timezone-aware instants and the freshness comparator.
//!
//! Every date that the loop compares is first reduced to seconds since the
//! Unix epoch, so chronological comparison is well-defined no matter what
//! textual format the feed or the platform used.

use vstd::prelude::*;

verus! {

/// An instant in time: seconds since the Unix epoch, independent of the
/// timezone offset the source text carried.
#[derive(Clone, Copy, Debug, PartialEq, Eq, Structural)]
pub struct Timestamp {
    pub epoch_seconds: i64,
}

/// What the freshness comparator decides: `candidate` warrants a new update
/// exactly when its instant is strictly later than `last_published`.
pub open spec fn spec_is_newer(candidate: Timestamp, last_published: Timestamp) -> bool {
    candidate.epoch_seconds > last_published.epoch_seconds
}

impl Timestamp {
    pub fn new(epoch_seconds: i64) -> (r: Timestamp)
        ensures
            r.epoch_seconds == epoch_seconds,
    {
        Timestamp { epoch_seconds }
    }

    /// True iff `self` is strictly later than `last_published`; equal instants
    /// are not newer, so the same post is never re-published.
    pub fn is_newer(self, last_published: Timestamp) -> (r: bool)
        ensures
            r == spec_is_newer(self, last_published),
    {
        self.epoch_seconds > last_published.epoch_seconds
    }
}

/// The comparator is a pure function of its two inputs: any two results the
/// contract of `is_newer` admits for the same pair of instants coincide, so
/// calling it twice with identical inputs yields identical answers.
pub proof fn lemma_is_newer_deterministic(
    candidate: Timestamp,
    last_published: Timestamp,
    r1: bool,
    r2: bool,
)
    requires
        r1 == spec_is_newer(candidate, last_published),
        r2 == spec_is_newer(candidate, last_published),
    ensures
        r1 == r2,
{
}

/// Strict order: newer-than is irreflexive and asymmetric, and equality of
/// instants means neither side is newer.
pub proof fn lemma_is_newer_strict(candidate: Timestamp, last_published: Timestamp)
    ensures
        spec_is_newer(candidate, last_published) <==> candidate.epoch_seconds
            > last_published.epoch_seconds,
        candidate == last_published ==> !spec_is_newer(candidate, last_published),
        spec_is_newer(candidate, last_published) ==> !spec_is_newer(last_published, candidate),
{
}

} // verus!

//! Backfill progress: the outcome of one bounded chunk of a multi-segment
//! backfill — a resumable position marker plus a completion flag.
//!
//! The external driver persists the newest cursor between chunks (and
//! across restarts) and feeds it back as the next chunk's exclusive lower
//! bound; this module neither stores nor reads prior cursors itself.

use vstd::prelude::*;

verus! {

/// An opaque, totally ordered marker for the last document a chunk
/// processed. `ordinal` is the position of that document's identifier in
/// the system's total order over document identifiers; the policy layer
/// only ever compares cursors, never interprets them.
#[derive(Clone, Copy, Debug, Eq, PartialEq, Structural)]
pub struct DocumentCursor {
    pub ordinal: u64,
}

impl DocumentCursor {
    /// Strict order on cursors: whether `self` lies before `other` in the
    /// document-identifier order.
    pub fn precedes(&self, other: &DocumentCursor) -> (r: bool)
        ensures
            r == (self.ordinal < other.ordinal),
    {
        self.ordinal < other.ordinal
    }
}

/// The outcome of one bounded chunk of a multi-segment backfill. When
/// `is_backfill_complete` is false, `new_cursor` is the exclusive lower
/// bound for the next chunk's scan; when it is true, no further chunks
/// are scheduled.
#[derive(Clone, Copy, Debug, Eq, PartialEq)]
pub struct MultiSegmentBackfillResult {
    pub new_cursor: Option<DocumentCursor>,
    pub is_backfill_complete: bool,
}

impl MultiSegmentBackfillResult {
    /// A step that does not complete the job must carry a resume cursor,
    /// or the job could never progress.
    pub open spec fn wf(self) -> bool {
        self.is_backfill_complete || self.new_cursor is Some
    }

    /// Validating constructor: rejects exactly the stuck shape, a step
    /// that neither completes the job nor carries a resume cursor.
    pub fn new(new_cursor: Option<DocumentCursor>, is_backfill_complete: bool) -> (r: Option<
        MultiSegmentBackfillResult,
    >)
        ensures
            r is Some <==> (is_backfill_complete || new_cursor is Some),
            r matches Some(s) ==> s.new_cursor == new_cursor
                && s.is_backfill_complete == is_backfill_complete && s.wf(),
    {
        if is_backfill_complete || new_cursor.is_some() {
            Some(MultiSegmentBackfillResult { new_cursor, is_backfill_complete })
        } else {
            None
        }
    }

    /// Whether the job is done and no further chunk should be scheduled.
    /// A complete step may still carry a cursor; completion wins and the
    /// cursor is ignored.
    pub fn is_terminal(&self) -> (r: bool)
        ensures
            r == self.is_backfill_complete,
    {
        self.is_backfill_complete
    }

    /// Whether this step makes progress from the bound its chunk was
    /// given: either the job is complete, or the step carries a cursor
    /// lying strictly after that bound.
    pub open spec fn spec_advances_from(self, prev: Option<DocumentCursor>) -> bool {
        self.is_backfill_complete || match (self.new_cursor, prev) {
            (Some(c), Some(p)) => p.ordinal < c.ordinal,
            (Some(_), None) => true,
            (None, _) => false,
        }
    }

    /// Checks that this step advances the scan: the driver retries a chunk
    /// under the same bound when this is false, rather than persisting a
    /// cursor that would stall or rewind the job.
    pub fn advances_from(&self, prev: &Option<DocumentCursor>) -> (r: bool)
        ensures
            r == self.spec_advances_from(*prev),
    {
        if self.is_backfill_complete {
            true
        } else {
            match (&self.new_cursor, prev) {
                (Some(c), Some(p)) => p.ordinal < c.ordinal,
                (Some(_), None) => true,
                (None, _) => false,
            }
        }
    }
}

} // verus!

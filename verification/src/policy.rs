//! Flusher routing and rate policy: which worker class serves a rebuild,
//! and how fast that worker may read documents while rebuilding.

use vstd::prelude::*;

verus! {

/// Why an index rebuild was initiated. Assigned by the caller once, never
/// persisted: it is a transient classification input, not stored state.
#[derive(Clone, Copy, Debug)]
pub enum BuildReason {
    Backfilling,
    TooOld,
    TooLarge,
    VersionMismatch,
}

/// There are two types of search index flushers: live flushers and backfill
/// flushers. Live flushers are responsible for flushing the in-memory search
/// index contents when they get too large or old. Backfill flushers are
/// responsible for backfilling newly added indexes or indexes on the wrong
/// version. We separate the flushers so that building backfill segments (which
/// can take a long time) does not block the in-memory index flushes. In-memory
/// flushes need to happen quickly or else writes fail when the in-memory
/// index gets too large.
#[derive(Clone, Copy, Debug, Eq, PartialEq, Structural)]
pub enum FlusherType {
    LiveFlush,
    Backfill,
}

/// The routing table: the flusher class that serves each rebuild trigger.
/// Total and exhaustive over `BuildReason` by construction.
pub open spec fn flusher_for(reason: BuildReason) -> FlusherType {
    match reason {
        BuildReason::Backfilling | BuildReason::VersionMismatch => FlusherType::Backfill,
        BuildReason::TooOld | BuildReason::TooLarge => FlusherType::LiveFlush,
    }
}

impl From<BuildReason> for FlusherType {
    fn from(reason: BuildReason) -> (t: Self) {
        match reason {
            BuildReason::Backfilling | BuildReason::VersionMismatch => FlusherType::Backfill,
            BuildReason::TooOld | BuildReason::TooLarge => FlusherType::LiveFlush,
        }
    }
}

impl vstd::std_specs::convert::FromSpecImpl<BuildReason> for FlusherType {
    open spec fn obeys_from_spec() -> bool {
        true
    }

    open spec fn from_spec(v: BuildReason) -> FlusherType {
        flusher_for(v)
    }
}

/// A strictly positive page-read rate (pages per second). Zero rates are
/// unrepresentable: every value of this type was built through `new`,
/// which rejects zero.
#[derive(Clone, Copy, Debug, Eq, PartialEq)]
pub struct ThroughputCeiling {
    pages_per_second: u32,
}

impl ThroughputCeiling {
    #[verifier::type_invariant]
    pub closed spec fn positive(self) -> bool {
        self.pages_per_second >= 1
    }

    /// The rate this ceiling carries.
    pub closed spec fn rate(self) -> u32 {
        self.pages_per_second
    }

    /// Accepts exactly the strictly positive rates.
    pub fn new(pages_per_second: u32) -> (r: Option<ThroughputCeiling>)
        ensures
            r is Some <==> pages_per_second >= 1,
            r matches Some(c) ==> c.rate() == pages_per_second,
    {
        if pages_per_second >= 1 {
            Some(ThroughputCeiling { pages_per_second })
        } else {
            None
        }
    }

    /// The configured rate, strictly positive by the type's invariant.
    pub fn get(&self) -> (r: u32)
        ensures
            r == self.rate(),
            r >= 1,
    {
        proof {
            use_type_invariant(&*self);
        }
        self.pages_per_second
    }
}

/// The externally configured rate tiers, read once per decision call and
/// passed in explicitly rather than held as ambient mutable state.
#[derive(Clone, Copy, Debug)]
pub struct RateConfig {
    /// The active tier: the cap for rebuilds tied to direct developer
    /// write pressure.
    pub pages_per_second: ThroughputCeiling,
    /// The passive tier: the lower cap for rebuilds caused by background
    /// drift, to avoid competing with foreground traffic.
    pub passive_pages_per_second: ThroughputCeiling,
}

/// The rate-policy table: the throughput tier that applies to each rebuild
/// trigger. Total and exhaustive over `BuildReason` by construction.
pub open spec fn max_rate(reason: BuildReason, config: RateConfig) -> ThroughputCeiling {
    match reason {
        BuildReason::TooOld | BuildReason::VersionMismatch => config.passive_pages_per_second,
        BuildReason::Backfilling | BuildReason::TooLarge => config.pages_per_second,
    }
}

impl BuildReason {
    /// The page-read ceiling a worker must respect while serving this
    /// rebuild, per the rate-policy table.
    pub fn read_max_pages_per_second(&self, config: &RateConfig) -> (r: ThroughputCeiling)
        ensures
            r == max_rate(*self, *config),
    {
        match self {
            // In non-blocking update pathways, use a lower limit to avoid
            // overloading the database with rebuilds.
            BuildReason::TooOld | BuildReason::VersionMismatch => config.passive_pages_per_second,
            // If the developer is writing data, then use a higher limit to
            // try to avoid causing transient 503s for the developer's writes.
            BuildReason::Backfilling | BuildReason::TooLarge => config.pages_per_second,
        }
    }
}

} // verus!

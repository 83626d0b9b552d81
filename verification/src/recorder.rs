//! The recorder: the top-level object the instrumentation side calls into.
//!
//! A [`SentryRecorder`] owns three unit caches, one per metric kind, because
//! the same name may be described differently per kind. Describe calls
//! forward to the matching cache; register calls snapshot a handle from it.
//! It has no other state, and none of its operations can fail.

use vstd::prelude::*;

use crate::cache::UnitCache;
use crate::handle::{Handle, MetricKey};
use crate::units::Unit;

verus! {

/// A recorder that prepares every emitted value as one backend record.
pub struct SentryRecorder {
    counters: UnitCache,
    gauges: UnitCache,
    histograms: UnitCache,
}

impl SentryRecorder {
    /// A recorder whose three caches start empty.
    pub fn new() -> (r: SentryRecorder) {
        SentryRecorder {
            counters: UnitCache::new(),
            gauges: UnitCache::new(),
            histograms: UnitCache::new(),
        }
    }

    /// Caches the unit a counter name was described with. The description
    /// text is accepted and ignored.
    pub fn describe_counter(&self, name: &str, unit: Option<Unit>, _description: &str) {
        self.counters.describe(name, unit);
    }

    /// Caches the unit a gauge name was described with. The description
    /// text is accepted and ignored.
    pub fn describe_gauge(&self, name: &str, unit: Option<Unit>, _description: &str) {
        self.gauges.describe(name, unit);
    }

    /// Caches the unit a histogram name was described with. The description
    /// text is accepted and ignored.
    pub fn describe_histogram(&self, name: &str, unit: Option<Unit>, _description: &str) {
        self.histograms.describe(name, unit);
    }

    /// A handle for a counter: snapshots the counter cache's unit for the
    /// key's name at this moment.
    pub fn register_counter(&self, key: MetricKey) -> (h: Handle)
        ensures
            h.key == key,
    {
        self.counters.register(key)
    }

    /// A handle for a gauge: snapshots the gauge cache's unit for the key's
    /// name at this moment.
    pub fn register_gauge(&self, key: MetricKey) -> (h: Handle)
        ensures
            h.key == key,
    {
        self.gauges.register(key)
    }

    /// A handle for a histogram: snapshots the histogram cache's unit for
    /// the key's name at this moment.
    pub fn register_histogram(&self, key: MetricKey) -> (h: Handle)
        ensures
            h.key == key,
    {
        self.histograms.register(key)
    }
}

impl Default for SentryRecorder {
    /// The one way to build a recorder: all three caches empty.
    fn default() -> (r: SentryRecorder) {
        SentryRecorder::new()
    }
}

} // verus!

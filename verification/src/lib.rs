//! A verified adapter between a counter/gauge/histogram instrumentation API
//! and a metrics backend that takes one record per emitted value, each record
//! carrying a name, a unit and a set of string tags.
//!
//! The core pieces are:
//! - a total mapping of the instrumentation unit vocabulary onto the
//!   backend unit vocabulary, with a custom-unit fallback ([`units`]);
//! - a name-to-unit store populated by describe calls ([`store`]), shared
//!   between threads behind a verified reader/writer lock ([`cache`]);
//! - per-registration handles that snapshot a metric's identity and unit and
//!   resolve, for every emitted value, the final tags and unit ([`handle`]);
//! - the recorder that owns one cache per metric kind ([`recorder`]).
//!
//! Delivery of the finished records to the backend is left to the caller.

pub mod cache;
pub mod handle;
pub mod recorder;
pub mod store;
pub mod units;

pub use cache::UnitCache;
pub use handle::{Handle, MetricKey, MetricRecord, RecordKind};
pub use recorder::SentryRecorder;
pub use store::UnitStore;
pub use units::{parse_unit, translate};
pub use units::{DurationUnit, FractionUnit, InformationUnit, MetricUnit, MetricUnitV, Unit};

//! Per-registration metric handles and the records they emit.
//!
//! A [`Handle`] is the immutable snapshot taken when a metric is registered:
//! the metric's identity (name and labels, in order) and the unit its name
//! was described with at that moment, if any. Every emission operation
//! resolves the final tags and unit of one outgoing [`MetricRecord`]:
//! labels keyed by the reserved word `unit` are read as unit overrides and
//! never become tags, every other label becomes a tag verbatim, and the
//! record's unit is, in strict precedence order, the last unit override,
//! else the snapshot, else "no unit". Operations the backend cannot
//! represent produce no record at all.
//!
//! The numeric value of an emission is not part of the record: the backend
//! takes it as a floating point number, which the caller attaches when it
//! dispatches the record.

use vstd::prelude::*;

use crate::store::UnitStore;
use crate::units::{parse_unit, str_eq, MetricUnit, MetricUnitV};
use crate::units::spec_parse_unit;

verus! {

/// A metric's identity: its name and its ordered label set, fixed at
/// registration and never changed afterwards.
#[derive(Debug)]
pub struct MetricKey {
    pub name: String,
    pub labels: Vec<(String, String)>,
}

/// Which backend primitive a record feeds.
#[derive(Clone, Copy, Debug, PartialEq, Eq, Structural)]
pub enum RecordKind {
    /// A counter delta.
    Increment,
    /// An absolute gauge snapshot.
    Gauge,
    /// One sample of a distribution.
    Distribution,
}

/// One fully resolved outgoing record: everything the backend needs besides
/// the numeric value itself.
#[derive(Debug)]
pub struct MetricRecord {
    pub name: String,
    pub kind: RecordKind,
    pub tags: Vec<(String, String)>,
    pub unit: MetricUnit,
}

/// The character sequences of a label list.
pub open spec fn labels_view(s: Seq<(String, String)>) -> Seq<(Seq<char>, Seq<char>)> {
    s.map_values(|p: (String, String)| (p.0@, p.1@))
}

/// The tags of a record emitted under the given labels: every label in
/// order, keys and values verbatim, except those keyed `unit`.
pub open spec fn spec_tags(labels: Seq<(String, String)>) -> Seq<(Seq<char>, Seq<char>)>
    decreases labels.len(),
{
    if labels.len() == 0 {
        Seq::empty()
    } else {
        let rest = spec_tags(labels.drop_last());
        let l = labels.last();
        if l.0@ == "unit"@ {
            rest
        } else {
            rest.push((l.0@, l.1@))
        }
    }
}

/// The unit override carried by the given labels: the parse of the value of
/// the last label keyed `unit`, if there is such a label.
pub open spec fn spec_override(labels: Seq<(String, String)>) -> Option<MetricUnitV>
    decreases labels.len(),
{
    if labels.len() == 0 {
        None
    } else if labels.last().0@ == "unit"@ {
        Some(spec_parse_unit(labels.last().1@))
    } else {
        spec_override(labels.drop_last())
    }
}

/// The unit snapshot of a handle, as a model value.
pub open spec fn opt_unit_view(o: Option<MetricUnit>) -> Option<MetricUnitV> {
    match o {
        Some(u) => Some(u@),
        None => None,
    }
}

/// The unit of a record emitted under the given labels by a handle with the
/// given snapshot, in strict precedence order: the labels' unit override,
/// else the snapshot, else "no unit".
pub open spec fn spec_resolved_unit(
    labels: Seq<(String, String)>,
    snapshot: Option<MetricUnit>,
) -> MetricUnitV {
    match spec_override(labels) {
        Some(u) => u,
        None => match snapshot {
            Some(u) => u@,
            None => MetricUnitV::NoUnit,
        },
    }
}

/// What every emitted record of a handle must be: the handle's name, the
/// given kind, the handle's labels as tags (the `unit` label excluded), and
/// the resolved unit.
pub open spec fn is_record_for(rec: MetricRecord, h: Handle, kind: RecordKind) -> bool {
    &&& rec.kind == kind
    &&& rec.name@ == h.key.name@
    &&& labels_view(rec.tags@) == spec_tags(h.key.labels@)
    &&& rec.unit@ == spec_resolved_unit(h.key.labels@, h.unit)
}

/// The snapshot a registration takes: the metric's identity and the unit its
/// name resolves to in the store at this very moment.
pub struct Handle {
    pub key: MetricKey,
    pub unit: Option<MetricUnit>,
}

impl Handle {
    /// Captures the identity and performs the one unit lookup of a
    /// registration. Later describe calls do not reach a handle built here.
    pub fn new(key: MetricKey, units: &UnitStore) -> (h: Handle)
        ensures
            h.key == key,
            match h.unit {
                Some(u) => units@.contains_key(key.name@) && u@ == units@[key.name@],
                None => !units@.contains_key(key.name@),
            },
    {
        let unit = units.lookup(key.name.as_str());
        Handle { key, unit }
    }

    /// Builds the one record of an emission call: walks the labels in order,
    /// turning every label but the `unit`-keyed ones into a tag and reading
    /// the last `unit`-keyed label as the unit override.
    fn build(&self, kind: RecordKind) -> (rec: MetricRecord)
        ensures
            is_record_for(rec, *self, kind),
    {
        let mut tags: Vec<(String, String)> = Vec::new();
        let mut overriding: Option<MetricUnit> = None;
        let n = self.key.labels.len();
        let mut i: usize = 0;
        while i < n
            invariant
                n == self.key.labels.len(),
                i <= n,
                labels_view(tags@) == spec_tags(self.key.labels@.take(i as int)),
                opt_unit_view(overriding) == spec_override(self.key.labels@.take(i as int)),
            decreases n - i,
        {
            let label = &self.key.labels[i];
            proof {
                let lbls = self.key.labels@;
                assert(lbls.take(i as int + 1).drop_last() =~= lbls.take(i as int));
                assert(lbls.take(i as int + 1).last() == lbls[i as int]);
            }
            if str_eq(label.0.as_str(), "unit") {
                overriding = Some(parse_unit(label.1.as_str()));
            } else {
                let ghost tags_pre = tags@;
                tags.push((label.0.clone(), label.1.clone()));
                proof {
                    assert(labels_view(tags@) =~= labels_view(tags_pre).push(
                        (label.0@, label.1@),
                    ));
                }
            }
            i = i + 1;
        }
        proof {
            assert(self.key.labels@.take(n as int) =~= self.key.labels@);
        }
        let unit = match overriding {
            Some(u) => u,
            None => match &self.unit {
                Some(u) => u.clone(),
                None => MetricUnit::NoUnit,
            },
        };
        MetricRecord { name: self.key.name.clone(), kind, tags, unit }
    }

    /// A counter delta: one increment record.
    pub fn counter_increment(&self) -> (r: Option<MetricRecord>)
        ensures
            r matches Some(rec) && is_record_for(rec, *self, RecordKind::Increment),
    {
        Some(self.build(RecordKind::Increment))
    }

    /// Setting a counter to an absolute value: the backend has no primitive
    /// for it, and encoding it as a delta would double count, so it is
    /// dropped — no record is emitted.
    pub fn counter_absolute(&self) -> (r: Option<MetricRecord>)
        ensures
            r is None,
    {
        None
    }

    /// A relative gauge increment: the backend only takes absolute gauge
    /// snapshots, so it is dropped — no record is emitted.
    pub fn gauge_increment(&self) -> (r: Option<MetricRecord>)
        ensures
            r is None,
    {
        None
    }

    /// A relative gauge decrement: dropped like the increment — no record is
    /// emitted.
    pub fn gauge_decrement(&self) -> (r: Option<MetricRecord>)
        ensures
            r is None,
    {
        None
    }

    /// An absolute gauge value: one gauge record.
    pub fn gauge_set(&self) -> (r: Option<MetricRecord>)
        ensures
            r matches Some(rec) && is_record_for(rec, *self, RecordKind::Gauge),
    {
        Some(self.build(RecordKind::Gauge))
    }

    /// A histogram sample: one distribution record.
    pub fn histogram_record(&self) -> (r: Option<MetricRecord>)
        ensures
            r matches Some(rec) && is_record_for(rec, *self, RecordKind::Distribution),
    {
        Some(self.build(RecordKind::Distribution))
    }
}

/// Law: a label set with no label keyed `unit` carries no unit override.
pub proof fn lemma_no_unit_label_no_override(labels: Seq<(String, String)>)
    requires
        forall|i: int| 0 <= i < labels.len() ==> (#[trigger] labels[i].0@) != "unit"@,
    ensures
        spec_override(labels) is None,
    decreases labels.len(),
{
    if labels.len() > 0 {
        lemma_no_unit_label_no_override(labels.drop_last());
    }
}

/// Law: a handle that captured no unit emits "no unit", whenever its labels
/// carry no override.
pub proof fn lemma_no_snapshot_no_unit(labels: Seq<(String, String)>)
    requires
        spec_override(labels) is None,
    ensures
        spec_resolved_unit(labels, Option::<MetricUnit>::None) == MetricUnitV::NoUnit,
{
}

/// Law: a handle that captured a unit emits that very unit, whenever its
/// labels carry no override — whatever was described afterwards does not
/// reach it.
pub proof fn lemma_snapshot_used_without_override(
    labels: Seq<(String, String)>,
    snapshot: MetricUnit,
)
    requires
        spec_override(labels) is None,
    ensures
        spec_resolved_unit(labels, Some(snapshot)) == snapshot@,
{
}

/// Law: a unit override beats the snapshot: when the labels carry one, the
/// record's unit is the override, whatever the handle captured.
pub proof fn lemma_override_wins(
    labels: Seq<(String, String)>,
    snapshot: Option<MetricUnit>,
    u: MetricUnitV,
)
    requires
        spec_override(labels) == Some(u),
    ensures
        spec_resolved_unit(labels, snapshot) == u,
{
}

/// Law: the reserved `unit` label never appears among a record's tags,
/// whether or not its value names a real unit.
pub proof fn lemma_unit_label_never_a_tag(labels: Seq<(String, String)>)
    ensures
        forall|i: int|
            0 <= i < spec_tags(labels).len() ==> (#[trigger] spec_tags(labels)[i]).0 != "unit"@,
    decreases labels.len(),
{
    if labels.len() > 0 {
        lemma_unit_label_never_a_tag(labels.drop_last());
        let rest = spec_tags(labels.drop_last());
        let l = labels.last();
        if l.0@ != "unit"@ {
            assert forall|i: int|
                0 <= i < spec_tags(labels).len() implies (#[trigger] spec_tags(
                labels,
            )[i]).0 != "unit"@ by {
                if i < rest.len() {
                    assert(spec_tags(labels)[i] == rest[i]);
                } else {
                    assert(spec_tags(labels)[i] == (l.0@, l.1@));
                }
            }
        }
    }
}

} // verus!

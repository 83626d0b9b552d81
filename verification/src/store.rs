//! The name-to-unit store behind the describe and lookup operations.
//!
//! A [`UnitStore`] maps metric names to resolved backend units. Its model is
//! a `Map<Seq<char>, MetricUnitV>`: describing a name with a unit inserts the
//! translated unit under that name (last write wins), describing without a
//! unit changes nothing, and a lookup reads exactly the map. The store only
//! grows for its whole lifetime: entries are appended and later entries for a
//! name shadow earlier ones.

use vstd::prelude::*;

use crate::units::{str_eq, translate, MetricUnit, MetricUnitV, Unit};
use crate::units::spec_translate;

verus! {

spec fn entries_map(s: Seq<(String, MetricUnit)>) -> Map<Seq<char>, MetricUnitV>
    decreases s.len(),
{
    if s.len() == 0 {
        Map::empty()
    } else {
        entries_map(s.drop_last()).insert(s.last().0@, s.last().1@)
    }
}

proof fn lemma_entries_map_found(s: Seq<(String, MetricUnit)>, k: Seq<char>, j: int)
    requires
        0 <= j < s.len(),
        s[j].0@ == k,
        forall|l: int| j < l < s.len() ==> (#[trigger] s[l].0@) != k,
    ensures
        entries_map(s).contains_key(k),
        entries_map(s)[k] == s[j].1@,
    decreases s.len(),
{
    if j < s.len() - 1 {
        lemma_entries_map_found(s.drop_last(), k, j);
    }
}

proof fn lemma_entries_map_absent(s: Seq<(String, MetricUnit)>, k: Seq<char>)
    requires
        forall|l: int| 0 <= l < s.len() ==> (#[trigger] s[l].0@) != k,
    ensures
        !entries_map(s).contains_key(k),
    decreases s.len(),
{
    if s.len() > 0 {
        lemma_entries_map_absent(s.drop_last(), k);
    }
}

/// A mapping from metric names to resolved backend units, populated by
/// describe calls and consulted when a metric is registered.
pub struct UnitStore {
    entries: Vec<(String, MetricUnit)>,
}

impl View for UnitStore {
    type V = Map<Seq<char>, MetricUnitV>;

    closed spec fn view(&self) -> Map<Seq<char>, MetricUnitV> {
        entries_map(self.entries@)
    }
}

impl UnitStore {
    /// A store with nothing described yet.
    pub fn new() -> (s: UnitStore)
        ensures
            s@ == Map::<Seq<char>, MetricUnitV>::empty(),
    {
        UnitStore { entries: Vec::new() }
    }

    /// Records the unit a name was described with: a present unit overwrites
    /// whatever the store held for that name, an absent unit changes nothing.
    pub fn describe(&mut self, name: &str, unit: Option<Unit>)
        ensures
            match unit {
                Some(u) => final(self)@ == old(self)@.insert(name@, spec_translate(u)),
                None => final(self)@ == old(self)@,
            },
    {
        match unit {
            Some(u) => {
                let t = translate(u);
                self.entries.push((name.to_owned(), t));
                proof {
                    assert(self.entries@.drop_last() =~= old(self).entries@);
                }
            },
            None => {},
        }
    }

    /// The unit the name was last described with, if it ever was.
    pub fn lookup(&self, name: &str) -> (r: Option<MetricUnit>)
        ensures
            match r {
                Some(u) => self@.contains_key(name@) && u@ == self@[name@],
                None => !self@.contains_key(name@),
            },
    {
        let mut i: usize = self.entries.len();
        while i > 0
            invariant
                i <= self.entries.len(),
                forall|l: int|
                    i <= l < self.entries@.len() ==> (#[trigger] self.entries@[l].0@) != name@,
            decreases i,
        {
            i = i - 1;
            let entry = &self.entries[i];
            if str_eq(entry.0.as_str(), name) {
                proof {
                    lemma_entries_map_found(self.entries@, name@, i as int);
                }
                return Some(entry.1.clone());
            }
        }
        proof {
            lemma_entries_map_absent(self.entries@, name@);
        }
        None
    }
}

/// Law: a later description of a name wins. After a store's model goes
/// through the two inserts of `describe(name, Some(unit_a))` followed by
/// `describe(name, Some(unit_b))`, a lookup of `name` finds exactly the
/// translation of `unit_b`, whatever the store held before.
pub proof fn lemma_describe_last_write_wins(
    m: Map<Seq<char>, MetricUnitV>,
    name: Seq<char>,
    unit_a: Unit,
    unit_b: Unit,
)
    ensures
        ({
            let m2 = m.insert(name, spec_translate(unit_a)).insert(name, spec_translate(unit_b));
            m2.contains_key(name) && m2[name] == spec_translate(unit_b)
        }),
{
}

/// Law: describing one name says nothing about any other name. The insert of
/// `describe(name, Some(unit))` leaves every other name bound exactly as it
/// was, present or absent.
pub proof fn lemma_describe_other_names_unchanged(
    m: Map<Seq<char>, MetricUnitV>,
    name: Seq<char>,
    other: Seq<char>,
    unit: Unit,
)
    requires
        other != name,
    ensures
        m.insert(name, spec_translate(unit)).contains_key(other) == m.contains_key(other),
        m.contains_key(other) ==> m.insert(name, spec_translate(unit))[other] == m[other],
{
}

} // verus!

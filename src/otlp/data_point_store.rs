//! Data points bucketed by the id of the metric that owns them.
use std::collections::HashMap;
use vstd::prelude::*;

use crate::otlp::proto::{
    ExponentialHistogramDataPoint, HistogramDataPoint, NumberDataPoint, SummaryDataPoint,
};

verus! {

broadcast use vstd::std_specs::hash::group_hash_axioms;

/// The data points of each metric id, in the order of their rows.
pub struct DataPointStore<T> {
    data_point_by_id: HashMap<u16, Vec<T>>,
}

pub type NumberDataPointsStore = DataPointStore<NumberDataPoint>;

pub type SummaryDataPointsStore = DataPointStore<SummaryDataPoint>;

pub type HistogramDataPointsStore = DataPointStore<HistogramDataPoint>;

pub type EHistogramDataPointsStore = DataPointStore<ExponentialHistogramDataPoint>;

/// The list of `key` in `m`, empty when `key` has none.
pub open spec fn list_or_empty<K, T>(m: Map<K, Seq<T>>, key: K) -> Seq<T> {
    if m.contains_key(key) {
        m[key]
    } else {
        Seq::empty()
    }
}

impl<T> DataPointStore<T> {
    pub closed spec fn view(&self) -> Map<u16, Seq<T>> {
        self.data_point_by_id@.map_values(|v: Vec<T>| v@)
    }

    /// A store without data points.
    pub fn new() -> (r: Self)
        ensures
            r.view() == Map::<u16, Seq<T>>::empty(),
    {
        let r = DataPointStore { data_point_by_id: HashMap::new() };
        assert(r.view() =~= Map::<u16, Seq<T>>::empty());
        r
    }

    /// The list of `key`, created empty when `key` has none yet.
    pub fn get_or_default(&mut self, key: u16) -> (r: &mut Vec<T>)
        ensures
            r@ == list_or_empty(old(self).view(), key),
            final(self).view() == old(self).view().insert(key, final(r)@),
    {
        proof {
            broadcast use vstd::std_specs::hash::axiom_u16_obeys_hash_table_key_model;

        }
        self.data_point_by_id.entry(key).or_insert(Vec::new())
    }

    /// Appends `point` to the list of `key`.
    pub fn push(&mut self, key: u16, point: T)
        ensures
            final(self).view() == old(self).view().insert(key, list_or_empty(old(self).view(), key).push(point)),
    {
        let list = self.get_or_default(key);
        list.push(point);
    }

    /// Moves the list of `key` out of the store, leaving it empty.
    pub fn take(&mut self, key: u16) -> (r: Vec<T>)
        ensures
            r@ == list_or_empty(old(self).view(), key),
            final(self).view() == old(self).view().insert(key, Seq::empty()),
    {
        proof {
            broadcast use vstd::std_specs::hash::axiom_u16_obeys_hash_table_key_model;

        }
        let r = match self.data_point_by_id.insert(key, Vec::new()) {
            Some(list) => list,
            None => Vec::new(),
        };
        proof {
            assert(final(self).view() =~= old(self).view().insert(key, Seq::empty()));
        }
        r
    }
}

} // verus!

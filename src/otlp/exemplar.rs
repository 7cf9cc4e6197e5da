//! Exemplars bucketed by the id of the data point that owns them.
use std::collections::HashMap;
use vstd::prelude::*;

use crate::arrays::{
    cell_bytes, cell_f64, cell_i64, cell_timestamp, cell_u32, first_missing_from,
    get_binary_array_opt, get_f64_column_opt, get_i64_column_opt, get_timestamp_nanosecond_array,
    get_u32_array, get_u32_array_opt, lemma_first_missing_is_missing, opt_numeric_at,
    opt_value_at, require_columns, spec_column, ArrayData, Column, NullableArrayAccessor,
    RecordBatch,
};
use crate::error::Error;
use crate::otlp::attribute_store::{absent_or, is_float64_like, is_int64_like, opt_bytes_at, AttributeStore};
use crate::otlp::data_point_store::list_or_empty;
use crate::otlp::num_data_points::{or_zero32, or_zero_ts, wrap32};
use crate::otlp::proto::{copy_key_values, kvs_view, Exemplar, ExemplarView, KeyValue, KeyValueView, NumberValue};
use crate::schema::consts;

verus! {

broadcast use vstd::std_specs::hash::group_hash_axioms;

/// The exemplars of each data point id, in the order of their rows.
pub struct ExemplarsStore {
    exemplars_by_ids: HashMap<u32, Vec<Exemplar>>,
}

impl ExemplarsStore {
    pub closed spec fn view(&self) -> Map<u32, Seq<Exemplar>> {
        self.exemplars_by_ids@.map_values(|v: Vec<Exemplar>| v@)
    }

    /// A store without exemplars.
    pub fn new() -> (r: Self)
        ensures
            r.view() == Map::<u32, Seq<Exemplar>>::empty(),
    {
        let r = ExemplarsStore { exemplars_by_ids: HashMap::new() };
        assert(r.view() =~= Map::<u32, Seq<Exemplar>>::empty());
        r
    }

    /// The exemplars of `id`, created empty when `id` has none yet.
    pub fn get_or_create_exemplar_by_id(&mut self, id: u32) -> (r: &mut Vec<Exemplar>)
        ensures
            r@ == list_or_empty(old(self).view(), id),
            final(self).view() == old(self).view().insert(id, final(r)@),
    {
        proof {
            broadcast use vstd::std_specs::hash::axiom_u32_obeys_hash_table_key_model;

        }
        self.exemplars_by_ids.entry(id).or_insert(Vec::new())
    }

    /// Moves the exemplars of `id` out of the store, leaving them empty.
    pub fn take(&mut self, id: u32) -> (r: Vec<Exemplar>)
        ensures
            r@ == list_or_empty(old(self).view(), id),
            final(self).view() == old(self).view().insert(id, Seq::empty()),
    {
        proof {
            broadcast use vstd::std_specs::hash::axiom_u32_obeys_hash_table_key_model;

        }
        let r = match self.exemplars_by_ids.insert(id, Vec::new()) {
            Some(list) => list,
            None => Vec::new(),
        };
        proof {
            assert(final(self).view() =~= old(self).view().insert(id, Seq::empty()));
        }
        r
    }
}


pub open spec fn exemplar_required() -> Seq<&'static str> {
    seq![consts::PARENT_ID, consts::TIME_UNIX_NANO]
}

/// Whether every column of an exemplars table has its expected type.
pub open spec fn exemplar_columns_ok(cols: Seq<Column>) -> bool {
    &&& spec_column(cols, consts::PARENT_ID@) matches Some(d) && d is UInt32
    &&& spec_column(cols, consts::TIME_UNIX_NANO@) matches Some(d) && d is TimestampNanosecond
    &&& absent_or(cols, consts::ID@, |d: ArrayData| d is UInt32)
    &&& absent_or(cols, consts::INT_VALUE@, |d: ArrayData| is_int64_like(d))
    &&& absent_or(cols, consts::DOUBLE_VALUE@, |d: ArrayData| is_float64_like(d))
    &&& absent_or(cols, consts::SPAN_ID@, |d: ArrayData| d is Binary)
    &&& absent_or(cols, consts::TRACE_ID@, |d: ArrayData| d is Binary)
}

/// Whether exemplar row `i` holds both an integer and a double value.
pub open spec fn exemplar_has_both_values(cols: Seq<Column>, i: int) -> bool {
    cell_i64(cols, consts::INT_VALUE@, i) is Some && cell_f64(cols, consts::DOUBLE_VALUE@, i) is Some
}

pub open spec fn exemplar_value(cols: Seq<Column>, i: int) -> Option<NumberValue> {
    match (cell_i64(cols, consts::INT_VALUE@, i), cell_f64(cols, consts::DOUBLE_VALUE@, i)) {
        (Some(v), None) => Some(NumberValue::AsInt(v)),
        (None, Some(d)) => Some(NumberValue::AsDouble(d)),
        _ => None,
    }
}

pub open spec fn bytes_or_empty(b: Option<Seq<u8>>) -> Seq<u8> {
    match b {
        Some(b) => b,
        None => Seq::empty(),
    }
}

/// The state of reading an exemplars table row by row.
pub struct ExemplarRows {
    /// The running parent id (the owning data point id).
    pub parent_id: u32,
    /// The running exemplar id.
    pub last_id: u32,
    /// The exemplars so far, by data point id.
    pub exemplars: Map<u32, Seq<ExemplarView>>,
}

/// Row `i` of an exemplars table: its parent id is the running sum of the
/// `parent_id` column; when its `id` cell is set, the running exemplar id
/// advances and the attributes of that id are attached.
pub open spec fn exemplar_row_step(
    s: ExemplarRows,
    cols: Seq<Column>,
    attrs: Map<u32, Seq<KeyValueView>>,
    i: int,
) -> ExemplarRows {
    let pid = wrap32(s.parent_id + or_zero32(cell_u32(cols, consts::PARENT_ID@, i)));
    let id = match cell_u32(cols, consts::ID@, i) {
        Some(d) => Some(wrap32(s.last_id + d)),
        None => None,
    };
    let ex = ExemplarView {
        filtered_attributes: match id {
            Some(id) => list_or_empty(attrs, id),
            None => Seq::empty(),
        },
        time_unix_nano: or_zero_ts(cell_timestamp(cols, consts::TIME_UNIX_NANO@, i)) as u64,
        value: exemplar_value(cols, i),
        span_id: bytes_or_empty(cell_bytes(cols, consts::SPAN_ID@, i)),
        trace_id: bytes_or_empty(cell_bytes(cols, consts::TRACE_ID@, i)),
    };
    ExemplarRows {
        parent_id: pid,
        last_id: match id {
            Some(id) => id,
            None => s.last_id,
        },
        exemplars: s.exemplars.insert(pid, list_or_empty(s.exemplars, pid).push(ex)),
    }
}

/// The first `n` rows of an exemplars table.
pub open spec fn exemplar_rows(cols: Seq<Column>, attrs: Map<u32, Seq<KeyValueView>>, n: int) -> ExemplarRows
    decreases n,
{
    if n <= 0 {
        ExemplarRows { parent_id: 0, last_id: 0, exemplars: Map::empty() }
    } else {
        exemplar_row_step(exemplar_rows(cols, attrs, n - 1), cols, attrs, n - 1)
    }
}

/// The views of the exemplars of a store.
pub open spec fn exemplars_view(store: ExemplarsStore) -> Map<u32, Seq<ExemplarView>> {
    store.view().map_values(|s: Seq<Exemplar>| s.map_values(|e: Exemplar| e@))
}

impl ExemplarsStore {
    /// Appends `ex` to the exemplars of `id`.
    pub fn push(&mut self, id: u32, ex: Exemplar)
        ensures
            final(self).view() == old(self).view().insert(id, list_or_empty(old(self).view(), id).push(ex)),
    {
        let list = self.get_or_create_exemplar_by_id(id);
        list.push(ex);
    }

    /// Builds the exemplars of an exemplars table, by owning data point id,
    /// with the attributes of `attr_store`.
    pub fn from_record_batch(rb: &RecordBatch, attr_store: &AttributeStore<u32>) -> (r: Result<ExemplarsStore, Error>)
        ensures
            first_missing_from(rb.columns@, exemplar_required(), 0) matches Some(j) ==> r matches Err(e)
                && e.is_column_not_found(exemplar_required()[j]@),
            r matches Err(e) ==> (e is ColumnNotFound || e is ColumnDataTypeMismatch || e is ConflictingNumberValue),
            exemplar_columns_ok(rb.columns@) && r is Err ==> (r matches Err(e) && e is ConflictingNumberValue),
            r is Ok <==> exemplar_columns_ok(rb.columns@) && forall|i: int|
                0 <= i < rb.num_rows ==> !#[trigger] exemplar_has_both_values(rb.columns@, i),
            r matches Ok(store) ==> exemplars_view(store) == exemplar_rows(
                rb.columns@,
                attr_store.view(),
                rb.num_rows as int,
            ).exemplars,
    {
        let cols = &rb.columns;
        let required = [consts::PARENT_ID, consts::TIME_UNIX_NANO];
        assert(required@ == exemplar_required());
        if let Err(e) = require_columns(cols, &required) {
            proof {
                lemma_first_missing_is_missing(cols@, exemplar_required(), 0);
            }
            return Err(e);
        }
        let parent_id_arr = match get_u32_array(cols, consts::PARENT_ID) {
            Ok(a) => a,
            Err(e) => return Err(e),
        };
        let time_arr = match get_timestamp_nanosecond_array(cols, consts::TIME_UNIX_NANO) {
            Ok(a) => a,
            Err(e) => return Err(e),
        };
        let id_arr = match get_u32_array_opt(cols, consts::ID) {
            Ok(a) => a,
            Err(e) => return Err(e),
        };
        let int_value = match get_i64_column_opt(cols, consts::INT_VALUE) {
            Ok(a) => a,
            Err(e) => return Err(e),
        };
        let double_value = match get_f64_column_opt(cols, consts::DOUBLE_VALUE) {
            Ok(a) => a,
            Err(e) => return Err(e),
        };
        let span_id_arr = match get_binary_array_opt(cols, consts::SPAN_ID) {
            Ok(a) => a,
            Err(e) => return Err(e),
        };
        let trace_id_arr = match get_binary_array_opt(cols, consts::TRACE_ID) {
            Ok(a) => a,
            Err(e) => return Err(e),
        };
        let ghost attrs = attr_store.view();
        let mut store = ExemplarsStore::new();
        let mut prev_parent_id: u32 = 0;
        let mut last_id: u32 = 0;
        let n = rb.num_rows;
        let mut i: usize = 0;
        proof {
            assert(exemplars_view(store) =~= Map::<u32, Seq<ExemplarView>>::empty());
        }
        while i < n
            invariant
                0 <= i <= n,
                n == rb.num_rows,
                cols == &rb.columns,
                exemplar_columns_ok(cols@),
                first_missing_from(cols@, exemplar_required(), 0) is None,
                attrs == attr_store.view(),
                spec_column(cols@, consts::PARENT_ID@) == Some(ArrayData::UInt32(*parent_id_arr)),
                spec_column(cols@, consts::TIME_UNIX_NANO@) == Some(ArrayData::TimestampNanosecond(*time_arr)),
                forall|k: int| #[trigger] opt_value_at(id_arr, k) == cell_u32(cols@, consts::ID@, k),
                forall|k: int| #[trigger] opt_numeric_at(int_value, k) == cell_i64(cols@, consts::INT_VALUE@, k),
                forall|k: int| #[trigger] opt_numeric_at(double_value, k) == cell_f64(cols@, consts::DOUBLE_VALUE@, k),
                forall|k: int| #[trigger] opt_bytes_at(span_id_arr, k) == cell_bytes(cols@, consts::SPAN_ID@, k),
                forall|k: int| #[trigger] opt_bytes_at(trace_id_arr, k) == cell_bytes(cols@, consts::TRACE_ID@, k),
                forall|k: int| 0 <= k < i ==> !#[trigger] exemplar_has_both_values(cols@, k),
                ({
                    let rows = exemplar_rows(cols@, attrs, i as int);
                    &&& rows.parent_id == prev_parent_id
                    &&& rows.last_id == last_id
                    &&& rows.exemplars == exemplars_view(store)
                }),
            decreases n - i,
        {
            let ghost before = exemplar_rows(cols@, attrs, i as int);
            let ghost ii = i as int;
            let delta = parent_id_arr.value_at_or_default(i);
            let parent_id = prev_parent_id.wrapping_add(delta);
            prev_parent_id = parent_id;
            let iv = match &int_value {
                Some(c) => c.value_at(i),
                None => None,
            };
            let dv = match &double_value {
                Some(c) => c.value_at(i),
                None => None,
            };
            assert(iv == opt_numeric_at(int_value, ii));
            assert(dv == opt_numeric_at(double_value, ii));
            let value = match (iv, dv) {
                (Some(v), None) => Some(NumberValue::AsInt(v)),
                (None, Some(d)) => Some(NumberValue::AsDouble(d)),
                (None, None) => None,
                (Some(_), Some(_)) => {
                    assert(exemplar_has_both_values(cols@, ii));
                    return Err(Error::ConflictingNumberValue);
                },
            };
            let id_cell = match id_arr {
                Some(a) => a.value_at(i),
                None => None,
            };
            assert(id_cell == opt_value_at(id_arr, ii));
            let mut filtered_attributes: Vec<KeyValue> = Vec::new();
            match id_cell {
                Some(id) => {
                    last_id = last_id.wrapping_add(id);
                    match attr_store.attribute_by_id(last_id) {
                        Some(attr) => {
                            filtered_attributes = copy_key_values(attr);
                        },
                        None => {},
                    }
                },
                None => {},
            }
            let span_id = match span_id_arr {
                Some(a) => a.value_at_or_default(i),
                None => Vec::new(),
            };
            let trace_id = match trace_id_arr {
                Some(a) => a.value_at_or_default(i),
                None => Vec::new(),
            };
            assert(opt_bytes_at(span_id_arr, ii) == cell_bytes(cols@, consts::SPAN_ID@, ii));
            assert(opt_bytes_at(trace_id_arr, ii) == cell_bytes(cols@, consts::TRACE_ID@, ii));
            let ex = Exemplar {
                filtered_attributes,
                time_unix_nano: #[verifier::truncate] (time_arr.value_at_or_default(i) as u64),
                value,
                span_id,
                trace_id,
            };
            store.push(parent_id, ex);
            proof {
                let after = exemplar_rows(cols@, attrs, ii + 1);
                assert(after == exemplar_row_step(before, cols@, attrs, ii));
                assert(ex@.filtered_attributes == after.exemplars[parent_id].last().filtered_attributes) by {
                    assert(kvs_view(Seq::<KeyValue>::empty()) =~= Seq::<KeyValueView>::empty());
                }
                assert(ex@.span_id == after.exemplars[parent_id].last().span_id) by {
                    assert(Seq::<u8>::empty() =~= Seq::<u8>::empty());
                }
                assert(ex@ == after.exemplars[parent_id].last());
                assert(exemplars_view(store) =~= after.exemplars) by {
                    assert(list_or_empty(store.view(), parent_id).map_values(|e: Exemplar| e@)
                        =~= list_or_empty(before.exemplars, parent_id).push(ex@));
                }
            }
            i += 1;
        }
        Ok(store)
    }
}
} // verus!

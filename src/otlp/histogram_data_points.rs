//! The histogram data points table.
use vstd::prelude::*;

use crate::arrays::{
    cell_timestamp, cell_u16, cell_u32, cell_u64, first_missing_from, get_f64_array_opt,
    get_list_array, get_timestamp_nanosecond_array, get_u16_array, get_u32_array,
    get_u32_array_opt, get_u64_array, lemma_first_missing_is_missing, opt_value_at,
    require_columns, spec_column, ArrayData, Column, ListArray, NullableArrayAccessor,
    PrimitiveArray, RecordBatch,
};
use crate::error::{DataType, Error};
use crate::otlp::attribute_store::{absent_or, AttributeStore};
use crate::otlp::data_point_store::{list_or_empty, HistogramDataPointsStore};
use crate::otlp::exemplar::{exemplars_view, ExemplarsStore};
use crate::otlp::num_data_points::{or_zero16, or_zero32, or_zero_ts, wrap16, wrap32};
use crate::otlp::proto::{
    copy_key_values, kvs_view, Exemplar, ExemplarView, HistogramDataPoint, HistogramDataPointView,
    KeyValue, KeyValueView,
};
use crate::otlp::summary_data_points::{list_range, or_zero64};
use crate::schema::consts;

verus! {

/// The values of the child rows `start..end`; a null cell reads as zero.
pub open spec fn values_in(values: PrimitiveArray<u64>, start: int, end: int) -> Seq<u64> {
    Seq::new(
        if end > start {
            (end - start) as nat
        } else {
            0
        },
        |k: int| or_zero64(values.spec_value_at(start + k)),
    )
}

/// The child values of `d` when it is a list whose values are `child`.
pub open spec fn list_child(d: ArrayData, child: DataType) -> Option<(ListArray, PrimitiveArray<u64>)> {
    match d {
        ArrayData::List(l) => match *l.values {
            ArrayData::UInt64(v) => if child == DataType::UInt64 {
                Some((l, v))
            } else {
                None
            },
            ArrayData::Float64(v) => if child == DataType::Float64 {
                Some((l, v))
            } else {
                None
            },
            _ => None,
        },
        _ => None,
    }
}

/// The list of row `i` of the list column `d` of `child` values; empty
/// when the row is null or the column has another shape.
pub open spec fn list_values_at(d: Option<ArrayData>, child: DataType, i: int) -> Seq<u64> {
    match d {
        Some(d) => match list_child(d, child) {
            Some((l, v)) => match list_range(l, i) {
                Some((start, end)) => values_in(v, start, end),
                None => Seq::empty(),
            },
            None => Seq::empty(),
        },
        None => Seq::empty(),
    }
}

/// The list column named `name` whose values are `child` (`UInt64` or
/// `Float64` bit patterns).
pub fn get_u64_list<'a>(cols: &'a Vec<Column>, name: &str, child: DataType) -> (r: Result<
    (&'a ListArray, &'a PrimitiveArray<u64>),
    Error,
>)
    requires
        child == DataType::UInt64 || child == DataType::Float64,
    ensures
        match spec_column(cols@, name@) {
            None => r matches Err(e) && e.is_column_not_found(name@),
            Some(d) => match list_child(d, child) {
                Some((l, v)) => r matches Ok((a, b)) && *a == l && *b == v,
                None => r matches Err(e) && e.is_type_mismatch(name@, DataType::List, d.spec_data_type()),
            },
        },
{
    let list = match get_list_array(cols, name) {
        Ok(l) => l,
        Err(e) => return Err(e),
    };
    match &*list.values {
        ArrayData::UInt64(v) => {
            if child == DataType::UInt64 {
                return Ok((list, v));
            }
        },
        ArrayData::Float64(v) => {
            if child == DataType::Float64 {
                return Ok((list, v));
            }
        },
        _ => {},
    }
    Err(Error::ColumnDataTypeMismatch { name: name.to_string(), expect: DataType::List, actual: DataType::List })
}

/// The values of row `idx` of a list column; a null row is empty.
pub fn u64_list_at(list: &ListArray, values: &PrimitiveArray<u64>, idx: usize) -> (r: Vec<u64>)
    ensures
        r@ == (match list_range(*list, idx as int) {
            Some((start, end)) => values_in(*values, start, end),
            None => Seq::empty(),
        }),
{
    if idx >= list.validity.len() || !list.validity[idx] || idx + 1 >= list.offsets.len() {
        return Vec::new();
    }
    let start = list.offsets[idx];
    let end = list.offsets[idx + 1];
    let ghost expected = values_in(*values, start as int, end as int);
    let mut out: Vec<u64> = Vec::new();
    if end <= start {
        assert(expected =~= Seq::<u64>::empty());
        return out;
    }
    let mut k = start;
    while k < end
        invariant
            start <= k <= end,
            out@ == expected.take(k - start),
            expected == values_in(*values, start as int, end as int),
        decreases end - k,
    {
        out.push(values.value_at_or_default(k));
        k += 1;
        assert(out@ =~= expected.take(k - start));
    }
    assert(expected.take(k - start) =~= expected);
    out
}

pub open spec fn histogram_required() -> Seq<&'static str> {
    seq![
        consts::PARENT_ID,
        consts::START_TIME_UNIX_NANO,
        consts::TIME_UNIX_NANO,
        consts::HISTOGRAM_COUNT,
        consts::HISTOGRAM_BUCKET_COUNTS,
        consts::HISTOGRAM_EXPLICIT_BOUNDS,
        consts::FLAGS,
    ]
}

/// Whether every column of a histogram table has its expected type.
pub open spec fn histogram_columns_ok(cols: Seq<Column>) -> bool {
    &&& absent_or(cols, consts::ID@, |d: ArrayData| d is UInt32)
    &&& spec_column(cols, consts::PARENT_ID@) matches Some(d) && d is UInt16
    &&& spec_column(cols, consts::START_TIME_UNIX_NANO@) matches Some(d) && d is TimestampNanosecond
    &&& spec_column(cols, consts::TIME_UNIX_NANO@) matches Some(d) && d is TimestampNanosecond
    &&& spec_column(cols, consts::HISTOGRAM_COUNT@) matches Some(d) && d is UInt64
    &&& absent_or(cols, consts::HISTOGRAM_SUM@, |d: ArrayData| d is Float64)
    &&& spec_column(cols, consts::HISTOGRAM_BUCKET_COUNTS@) matches Some(d) && list_child(
        d,
        DataType::UInt64,
    ) is Some
    &&& spec_column(cols, consts::HISTOGRAM_EXPLICIT_BOUNDS@) matches Some(d) && list_child(
        d,
        DataType::Float64,
    ) is Some
    &&& spec_column(cols, consts::FLAGS@) matches Some(d) && d is UInt32
    &&& absent_or(cols, consts::HISTOGRAM_MIN@, |d: ArrayData| d is Float64)
    &&& absent_or(cols, consts::HISTOGRAM_MAX@, |d: ArrayData| d is Float64)
}

pub open spec fn cell_f64_opt(cols: Seq<Column>, name: Seq<char>, i: int) -> Option<u64> {
    match spec_column(cols, name) {
        Some(ArrayData::Float64(a)) => a.spec_value_at(i),
        _ => None,
    }
}

/// The state of reading a histogram table row by row.
pub struct HistogramRows {
    pub parent_id: u16,
    pub last_id: u32,
    pub exemplars: Map<u32, Seq<ExemplarView>>,
    pub points: Map<u16, Seq<HistogramDataPointView>>,
}

/// Row `i` of a histogram table, read as a number data point is, with its
/// count, optional sum, min and max, and its bucket counts and bounds.
pub open spec fn histogram_row_step(
    s: HistogramRows,
    cols: Seq<Column>,
    attrs: Map<u32, Seq<KeyValueView>>,
    i: int,
) -> HistogramRows {
    let pid = wrap16(s.parent_id + or_zero16(cell_u16(cols, consts::PARENT_ID@, i)));
    let id = match cell_u32(cols, consts::ID@, i) {
        Some(d) => Some(wrap32(s.last_id + d)),
        None => None,
    };
    let point = HistogramDataPointView {
        attributes: match id {
            Some(id) => list_or_empty(attrs, id),
            None => Seq::empty(),
        },
        start_time_unix_nano: or_zero_ts(cell_timestamp(cols, consts::START_TIME_UNIX_NANO@, i)) as u64,
        time_unix_nano: or_zero_ts(cell_timestamp(cols, consts::TIME_UNIX_NANO@, i)) as u64,
        count: or_zero64(cell_u64(cols, consts::HISTOGRAM_COUNT@, i)),
        sum: cell_f64_opt(cols, consts::HISTOGRAM_SUM@, i),
        bucket_counts: list_values_at(spec_column(cols, consts::HISTOGRAM_BUCKET_COUNTS@), DataType::UInt64, i),
        explicit_bounds: list_values_at(
            spec_column(cols, consts::HISTOGRAM_EXPLICIT_BOUNDS@),
            DataType::Float64,
            i,
        ),
        exemplars: match id {
            Some(id) => list_or_empty(s.exemplars, id),
            None => Seq::empty(),
        },
        flags: or_zero32(cell_u32(cols, consts::FLAGS@, i)),
        min: cell_f64_opt(cols, consts::HISTOGRAM_MIN@, i),
        max: cell_f64_opt(cols, consts::HISTOGRAM_MAX@, i),
    };
    HistogramRows {
        parent_id: pid,
        last_id: match id {
            Some(id) => id,
            None => s.last_id,
        },
        exemplars: match id {
            Some(id) => s.exemplars.insert(id, Seq::empty()),
            None => s.exemplars,
        },
        points: s.points.insert(pid, list_or_empty(s.points, pid).push(point)),
    }
}

/// The first `n` rows of a histogram table, from state `init`.
pub open spec fn histogram_rows(
    init: HistogramRows,
    cols: Seq<Column>,
    attrs: Map<u32, Seq<KeyValueView>>,
    n: int,
) -> HistogramRows
    decreases n,
{
    if n <= 0 {
        init
    } else {
        histogram_row_step(histogram_rows(init, cols, attrs, n - 1), cols, attrs, n - 1)
    }
}

pub open spec fn histogram_points_view(store: HistogramDataPointsStore) -> Map<u16, Seq<HistogramDataPointView>> {
    store.view().map_values(|s: Seq<HistogramDataPoint>| s.map_values(|p: HistogramDataPoint| p@))
}

impl HistogramDataPointsStore {
    /// Builds the histogram data points of a table, by owning metric id;
    /// attaches the exemplars of `exemplar_store` and the attributes of
    /// `attr_store`.
    #[verifier::rlimit(30)]
    pub fn from_record_batch(
        rb: &RecordBatch,
        exemplar_store: &mut ExemplarsStore,
        attr_store: &AttributeStore<u32>,
    ) -> (r: Result<HistogramDataPointsStore, Error>)
        ensures
            first_missing_from(rb.columns@, histogram_required(), 0) matches Some(j) ==> r matches Err(e)
                && e.is_column_not_found(histogram_required()[j]@),
            r is Ok <==> histogram_columns_ok(rb.columns@),
            r matches Err(e) ==> (e is ColumnNotFound || e is ColumnDataTypeMismatch),
            r matches Ok(store) ==> {
                let rows = histogram_rows(
                    HistogramRows {
                        parent_id: 0,
                        last_id: 0,
                        exemplars: exemplars_view(*old(exemplar_store)),
                        points: Map::empty(),
                    },
                    rb.columns@,
                    attr_store.view(),
                    rb.num_rows as int,
                );
                &&& histogram_points_view(store) == rows.points
                &&& exemplars_view(*final(exemplar_store)) == rows.exemplars
            },
    {
        let cols = &rb.columns;
        let required = [
            consts::PARENT_ID,
            consts::START_TIME_UNIX_NANO,
            consts::TIME_UNIX_NANO,
            consts::HISTOGRAM_COUNT,
            consts::HISTOGRAM_BUCKET_COUNTS,
            consts::HISTOGRAM_EXPLICIT_BOUNDS,
            consts::FLAGS,
        ];
        assert(required@ == histogram_required());
        if let Err(e) = require_columns(cols, &required) {
            proof {
                lemma_first_missing_is_missing(cols@, histogram_required(), 0);
            }
            return Err(e);
        }
        let id_arr = match get_u32_array_opt(cols, consts::ID) {
            Ok(a) => a,
            Err(e) => return Err(e),
        };
        let parent_arr = match get_u16_array(cols, consts::PARENT_ID) {
            Ok(a) => a,
            Err(e) => return Err(e),
        };
        let start_arr = match get_timestamp_nanosecond_array(cols, consts::START_TIME_UNIX_NANO) {
            Ok(a) => a,
            Err(e) => return Err(e),
        };
        let time_arr = match get_timestamp_nanosecond_array(cols, consts::TIME_UNIX_NANO) {
            Ok(a) => a,
            Err(e) => return Err(e),
        };
        let count_arr = match get_u64_array(cols, consts::HISTOGRAM_COUNT) {
            Ok(a) => a,
            Err(e) => return Err(e),
        };
        let sum_arr = match get_f64_array_opt(cols, consts::HISTOGRAM_SUM) {
            Ok(a) => a,
            Err(e) => return Err(e),
        };
        let (counts_list, counts_values) = match get_u64_list(
            cols,
            consts::HISTOGRAM_BUCKET_COUNTS,
            DataType::UInt64,
        ) {
            Ok(a) => a,
            Err(e) => return Err(e),
        };
        let (bounds_list, bounds_values) = match get_u64_list(
            cols,
            consts::HISTOGRAM_EXPLICIT_BOUNDS,
            DataType::Float64,
        ) {
            Ok(a) => a,
            Err(e) => return Err(e),
        };
        let flags_arr = match get_u32_array(cols, consts::FLAGS) {
            Ok(a) => a,
            Err(e) => return Err(e),
        };
        let min_arr = match get_f64_array_opt(cols, consts::HISTOGRAM_MIN) {
            Ok(a) => a,
            Err(e) => return Err(e),
        };
        let max_arr = match get_f64_array_opt(cols, consts::HISTOGRAM_MAX) {
            Ok(a) => a,
            Err(e) => return Err(e),
        };
        let ghost init = HistogramRows {
            parent_id: 0,
            last_id: 0,
            exemplars: exemplars_view(*exemplar_store),
            points: Map::empty(),
        };
        let ghost attrs = attr_store.view();
        let mut store = HistogramDataPointsStore::new();
        let mut prev_parent_id: u16 = 0;
        let mut last_id: u32 = 0;
        let n = rb.num_rows;
        let mut i: usize = 0;
        proof {
            assert(histogram_points_view(store) =~= Map::<u16, Seq<HistogramDataPointView>>::empty());
        }
        while i < n
            invariant
                0 <= i <= n,
                n == rb.num_rows,
                cols == &rb.columns,
                histogram_columns_ok(cols@),
                first_missing_from(cols@, histogram_required(), 0) is None,
                attrs == attr_store.view(),
                forall|k: int| #[trigger] opt_value_at(id_arr, k) == cell_u32(cols@, consts::ID@, k),
                spec_column(cols@, consts::PARENT_ID@) == Some(ArrayData::UInt16(*parent_arr)),
                spec_column(cols@, consts::START_TIME_UNIX_NANO@) == Some(ArrayData::TimestampNanosecond(*start_arr)),
                spec_column(cols@, consts::TIME_UNIX_NANO@) == Some(ArrayData::TimestampNanosecond(*time_arr)),
                spec_column(cols@, consts::HISTOGRAM_COUNT@) == Some(ArrayData::UInt64(*count_arr)),
                forall|k: int| #[trigger] opt_value_at(sum_arr, k) == cell_f64_opt(cols@, consts::HISTOGRAM_SUM@, k),
                forall|k: int| #[trigger] opt_value_at(min_arr, k) == cell_f64_opt(cols@, consts::HISTOGRAM_MIN@, k),
                forall|k: int| #[trigger] opt_value_at(max_arr, k) == cell_f64_opt(cols@, consts::HISTOGRAM_MAX@, k),
                spec_column(cols@, consts::HISTOGRAM_BUCKET_COUNTS@) matches Some(d) && list_child(d, DataType::UInt64)
                    == Some((*counts_list, *counts_values)),
                spec_column(cols@, consts::HISTOGRAM_EXPLICIT_BOUNDS@) matches Some(d) && list_child(
                    d,
                    DataType::Float64,
                ) == Some((*bounds_list, *bounds_values)),
                spec_column(cols@, consts::FLAGS@) == Some(ArrayData::UInt32(*flags_arr)),
                ({
                    let rows = histogram_rows(init, cols@, attrs, i as int);
                    &&& rows.parent_id == prev_parent_id
                    &&& rows.last_id == last_id
                    &&& rows.exemplars == exemplars_view(*exemplar_store)
                    &&& rows.points == histogram_points_view(store)
                }),
            decreases n - i,
        {
            let ghost before = histogram_rows(init, cols@, attrs, i as int);
            let ghost ii = i as int;
            let delta = parent_arr.value_at_or_default(i);
            let parent_id = prev_parent_id.wrapping_add(delta);
            prev_parent_id = parent_id;
            let id_cell = match id_arr {
                Some(a) => a.value_at(i),
                None => None,
            };
            assert(id_cell == opt_value_at(id_arr, ii));
            let mut exemplars: Vec<Exemplar> = Vec::new();
            let mut attributes: Vec<KeyValue> = Vec::new();
            match id_cell {
                Some(id) => {
                    last_id = last_id.wrapping_add(id);
                    let ghost before_ex = *exemplar_store;
                    exemplars = exemplar_store.take(last_id);
                    proof {
                        assert(exemplars@.map_values(|e: Exemplar| e@) =~= list_or_empty(
                            exemplars_view(before_ex),
                            last_id,
                        ));
                        assert(Seq::<Exemplar>::empty().map_values(|e: Exemplar| e@) =~= Seq::<ExemplarView>::empty());
                        assert(exemplars_view(*exemplar_store) =~= exemplars_view(before_ex).insert(
                            last_id,
                            Seq::empty(),
                        ));
                    }
                    match attr_store.attribute_by_id(last_id) {
                        Some(attr) => {
                            attributes = copy_key_values(attr);
                        },
                        None => {},
                    }
                },
                None => {},
            }
            let sum = match sum_arr {
                Some(a) => a.value_at(i),
                None => None,
            };
            let min = match min_arr {
                Some(a) => a.value_at(i),
                None => None,
            };
            let max = match max_arr {
                Some(a) => a.value_at(i),
                None => None,
            };
            assert(sum == opt_value_at(sum_arr, ii));
            assert(min == opt_value_at(min_arr, ii));
            assert(max == opt_value_at(max_arr, ii));
            let point = HistogramDataPoint {
                attributes,
                start_time_unix_nano: #[verifier::truncate] (start_arr.value_at_or_default(i) as u64),
                time_unix_nano: #[verifier::truncate] (time_arr.value_at_or_default(i) as u64),
                count: count_arr.value_at_or_default(i),
                sum,
                bucket_counts: u64_list_at(counts_list, counts_values, i),
                explicit_bounds: u64_list_at(bounds_list, bounds_values, i),
                exemplars,
                flags: flags_arr.value_at_or_default(i),
                min,
                max,
            };
            store.push(parent_id, point);
            proof {
                let after = histogram_rows(init, cols@, attrs, ii + 1);
                assert(after == histogram_row_step(before, cols@, attrs, ii));
                assert(point@.attributes == after.points[parent_id].last().attributes) by {
                    assert(kvs_view(Seq::<KeyValue>::empty()) =~= Seq::<KeyValueView>::empty());
                }
                assert(point@.exemplars == after.points[parent_id].last().exemplars) by {
                    assert(Seq::<Exemplar>::empty().map_values(|e: Exemplar| e@) =~= Seq::<ExemplarView>::empty());
                }
                assert(point@ == after.points[parent_id].last());
                assert(histogram_points_view(store) =~= after.points) by {
                    assert(list_or_empty(store.view(), parent_id).map_values(|p: HistogramDataPoint| p@)
                        =~= list_or_empty(before.points, parent_id).push(point@));
                }
            }
            i += 1;
        }
        Ok(store)
    }
}

} // verus!

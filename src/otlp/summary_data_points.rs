//! The summary data points table.
use vstd::prelude::*;

use crate::arrays::{
    cell_timestamp, cell_u16, cell_u32, cell_u64, column_by_name,
    get_f64_array, get_timestamp_nanosecond_array, get_u16_array, get_u32_array,
    get_u32_array_opt, get_u64_array, check_columns, columns_ok, is_columns_error, lemma_first_mistyped,
    lemma_none_missing,
    opt_value_at, spec_column, ArrayData, Column, ListArray,
    NullableArrayAccessor, PrimitiveArray, RecordBatch,
};
use crate::error::{DataType, Error};
use crate::otlp::attribute_store::AttributeStore;
use crate::otlp::data_point_store::{list_or_empty, SummaryDataPointsStore};
use crate::otlp::num_data_points::{or_zero16, or_zero32, or_zero_ts, wrap16, wrap32};
use crate::otlp::proto::{
    copy_key_values, kvs_view, KeyValue, KeyValueView, SummaryDataPoint, SummaryDataPointView,
    ValueAtQuantile,
};
use crate::schema::consts;

verus! {

/// The child range `offsets[i]..offsets[i + 1]` of a valid row `i` of a list.
pub open spec fn list_range(l: ListArray, i: int) -> Option<(int, int)> {
    if 0 <= i < l.validity.len() && l.validity@[i] && i + 1 < l.offsets.len() {
        Some((l.offsets@[i] as int, l.offsets@[i + 1] as int))
    } else {
        None
    }
}

pub open spec fn or_zero64(v: Option<u64>) -> u64 {
    match v {
        Some(v) => v,
        None => 0,
    }
}

/// The quantiles of the child rows `start..end`; a null cell reads as zero.
pub open spec fn quantiles_in(
    q: PrimitiveArray<u64>,
    v: PrimitiveArray<u64>,
    start: int,
    end: int,
) -> Seq<ValueAtQuantile> {
    Seq::new(
        if end > start {
            (end - start) as nat
        } else {
            0
        },
        |k: int|
            ValueAtQuantile {
                quantile: or_zero64(q.spec_value_at(start + k)),
                value: or_zero64(v.spec_value_at(start + k)),
            },
    )
}

/// The child columns of a summary `quantile` column.
pub struct QuantileArrays<'a> {
    pub list_array: &'a ListArray,
    pub quantile_array: &'a PrimitiveArray<u64>,
    pub value_array: &'a PrimitiveArray<u64>,
}

/// What reading the `quantile` column `d` yields: the list with its
/// `quantile` and `value` fields when `d` is a list of structs with two
/// `Float64` fields; a missing field is `ColumnNotFound`; any other shape
/// is `InvalidQuantileType`.
pub open spec fn quantile_arrays_ok(d: ArrayData, r: Result<QuantileArrays, Error>) -> bool {
    match d {
        ArrayData::List(l) => match *l.values {
            ArrayData::Struct(st) => match spec_column(st.columns@, consts::SUMMARY_QUANTILE@) {
                None => r matches Err(e) && e.is_column_not_found(consts::SUMMARY_QUANTILE@),
                Some(ArrayData::Float64(q)) => match spec_column(st.columns@, consts::SUMMARY_VALUE@) {
                    None => r matches Err(e) && e.is_column_not_found(consts::SUMMARY_VALUE@),
                    Some(ArrayData::Float64(v)) => r matches Ok(a) && *a.list_array == l
                        && *a.quantile_array == q && *a.value_array == v,
                    Some(_) => r matches Err(e) && e.is_invalid_quantile_type(),
                },
                Some(_) => r matches Err(e) && e.is_invalid_quantile_type(),
            },
            _ => r matches Err(e) && e.is_invalid_quantile_type(),
        },
        _ => r matches Err(e) && e.is_invalid_quantile_type(),
    }
}

impl<'a> QuantileArrays<'a> {
    pub open spec fn spec_value_at(&self, idx: int) -> Option<Seq<ValueAtQuantile>> {
        match list_range(*self.list_array, idx) {
            Some((start, end)) => Some(quantiles_in(*self.quantile_array, *self.value_array, start, end)),
            None => None,
        }
    }

    /// The quantile columns of the summary `quantile` column `array`.
    pub fn try_new(array: &'a ArrayData) -> (r: Result<QuantileArrays<'a>, Error>)
        ensures
            quantile_arrays_ok(*array, r),
            r is Ok <==> quantile_shape_ok(*array),
            r matches Err(e) ==> is_quantile_error(*array, e),
            r matches Ok(a) ==> forall|i: int| #[trigger] a.spec_value_at(i) == quantile_list_at(*array, i),
    {
        let list = match array {
            ArrayData::List(l) => l,
            _ => {
                return Err(Error::InvalidQuantileType { message: array.data_type().name().to_string() });
            },
        };
        let struct_array = match &*list.values {
            ArrayData::Struct(s) => s,
            _ => {
                return Err(Error::InvalidQuantileType { message: array.data_type().name().to_string() });
            },
        };
        let quantile = match column_by_name(&struct_array.columns, consts::SUMMARY_QUANTILE) {
            None => {
                return Err(Error::ColumnNotFound { name: consts::SUMMARY_QUANTILE.to_string() });
            },
            Some(ArrayData::Float64(q)) => q,
            Some(other) => {
                return Err(Error::InvalidQuantileType { message: other.data_type().name().to_string() });
            },
        };
        let value = match column_by_name(&struct_array.columns, consts::SUMMARY_VALUE) {
            None => {
                return Err(Error::ColumnNotFound { name: consts::SUMMARY_VALUE.to_string() });
            },
            Some(ArrayData::Float64(v)) => v,
            Some(other) => {
                return Err(Error::InvalidQuantileType { message: other.data_type().name().to_string() });
            },
        };
        Ok(QuantileArrays { list_array: list, quantile_array: quantile, value_array: value })
    }

    /// The quantiles of row `idx`; a null row is absent.
    pub fn value_at(&self, idx: usize) -> (r: Option<Vec<ValueAtQuantile>>)
        ensures
            match self.spec_value_at(idx as int) {
                Some(s) => r matches Some(v) && v@ == s,
                None => r is None,
            },
    {
        let l = self.list_array;
        if idx >= l.validity.len() || !l.validity[idx] || idx + 1 >= l.offsets.len() {
            return None;
        }
        let start = l.offsets[idx];
        let end = l.offsets[idx + 1];
        let ghost expected = quantiles_in(*self.quantile_array, *self.value_array, start as int, end as int);
        let mut quantiles: Vec<ValueAtQuantile> = Vec::new();
        if end <= start {
            assert(expected =~= Seq::<ValueAtQuantile>::empty());
            return Some(quantiles);
        }
        let mut k = start;
        while k < end
            invariant
                start <= k <= end,
                quantiles@ == expected.take(k - start),
                expected == quantiles_in(*self.quantile_array, *self.value_array, start as int, end as int),
            decreases end - k,
        {
            let q = ValueAtQuantile {
                quantile: self.quantile_array.value_at_or_default(k),
                value: self.value_array.value_at_or_default(k),
            };
            quantiles.push(q);
            k += 1;
            assert(quantiles@ =~= expected.take(k - start));
        }
        assert(expected.take(k - start) =~= expected);
        Some(quantiles)
    }
}

/// The quantiles of row `i` of the `quantile` column `d`, when it has the
/// expected shape and row `i` is not null.
pub open spec fn quantile_list_at(d: ArrayData, i: int) -> Option<Seq<ValueAtQuantile>> {
    match d {
        ArrayData::List(l) => match *l.values {
            ArrayData::Struct(st) => match (
                spec_column(st.columns@, consts::SUMMARY_QUANTILE@),
                spec_column(st.columns@, consts::SUMMARY_VALUE@),
            ) {
                (Some(ArrayData::Float64(q)), Some(ArrayData::Float64(v))) => match list_range(l, i) {
                    Some((start, end)) => Some(quantiles_in(q, v, start, end)),
                    None => None,
                },
                _ => None,
            },
            _ => None,
        },
        _ => None,
    }
}

/// Whether `d` is a list of structs with `Float64` fields `quantile` and `value`.
pub open spec fn quantile_shape_ok(d: ArrayData) -> bool {
    match d {
        ArrayData::List(l) => match *l.values {
            ArrayData::Struct(st) => (spec_column(st.columns@, consts::SUMMARY_QUANTILE@) matches Some(
                q,
            ) && q is Float64) && (spec_column(st.columns@, consts::SUMMARY_VALUE@) matches Some(v)
                && v is Float64),
            _ => false,
        },
        _ => false,
    }
}

pub open spec fn summary_required() -> Seq<&'static str> {
    seq![
        consts::PARENT_ID,
        consts::START_TIME_UNIX_NANO,
        consts::TIME_UNIX_NANO,
        consts::SUMMARY_COUNT,
        consts::SUMMARY_SUM,
        consts::SUMMARY_QUANTILE_VALUES,
        consts::FLAGS,
    ]
}

/// Whether every column of a summary data points table has its expected type.
/// The summary columns whose type is checked: those of plain types.
pub open spec fn summary_typed() -> Seq<&'static str> {
    seq![
        consts::ID,
        consts::PARENT_ID,
        consts::START_TIME_UNIX_NANO,
        consts::TIME_UNIX_NANO,
        consts::SUMMARY_COUNT,
        consts::SUMMARY_SUM,
        consts::FLAGS,
    ]
}

pub open spec fn summary_types() -> Seq<DataType> {
    seq![
        DataType::UInt32,
        DataType::UInt16,
        DataType::TimestampNanosecond,
        DataType::TimestampNanosecond,
        DataType::UInt64,
        DataType::Float64,
        DataType::UInt32,
    ]
}

/// Whether every column of a summary data points table has its expected
/// type; the `id` column may be absent.
pub open spec fn summary_columns_ok(cols: Seq<Column>) -> bool {
    &&& columns_ok(cols, summary_required(), summary_typed(), summary_types())
    &&& spec_column(cols, consts::SUMMARY_QUANTILE_VALUES@) matches Some(d) && quantile_shape_ok(d)
}

/// The error of reading a summary table that is not `summary_columns_ok`:
/// a missing column first, then a column of a wrong plain type, then what
/// is wrong with the `quantile` column.
pub open spec fn summary_error(e: Error, cols: Seq<Column>) -> bool {
    if !columns_ok(cols, summary_required(), summary_typed(), summary_types()) {
        is_columns_error(e, cols, summary_required(), summary_typed(), summary_types())
    } else {
        match spec_column(cols, consts::SUMMARY_QUANTILE_VALUES@) {
            Some(d) => is_quantile_error(d, e),
            None => false,
        }
    }
}

/// The error of reading a `quantile` column `d` of the wrong shape: a
/// missing struct field is `ColumnNotFound`; any other shape is
/// `InvalidQuantileType`.
pub open spec fn is_quantile_error(d: ArrayData, e: Error) -> bool {
    match d {
        ArrayData::List(l) => match *l.values {
            ArrayData::Struct(st) => match spec_column(st.columns@, consts::SUMMARY_QUANTILE@) {
                None => e.is_column_not_found(consts::SUMMARY_QUANTILE@),
                Some(ArrayData::Float64(q)) => match spec_column(st.columns@, consts::SUMMARY_VALUE@) {
                    None => e.is_column_not_found(consts::SUMMARY_VALUE@),
                    Some(ArrayData::Float64(v)) => false,
                    Some(_) => e.is_invalid_quantile_type(),
                },
                Some(_) => e.is_invalid_quantile_type(),
            },
            _ => e.is_invalid_quantile_type(),
        },
        _ => e.is_invalid_quantile_type(),
    }
}

pub open spec fn cell_f64_plain(cols: Seq<Column>, name: Seq<char>, i: int) -> Option<u64> {
    match spec_column(cols, name) {
        Some(ArrayData::Float64(a)) => a.spec_value_at(i),
        _ => None,
    }
}

/// The state of reading a summary table row by row.
pub struct SummaryRows {
    pub parent_id: u16,
    pub last_id: u32,
    pub points: Map<u16, Seq<SummaryDataPointView>>,
}

/// Row `i` of a summary table: its parent id is the running sum of the
/// `parent_id` column; when its `id` cell is set, the running data point id
/// advances and the attributes of that id are attached.
pub open spec fn summary_row_step(
    s: SummaryRows,
    cols: Seq<Column>,
    attrs: Map<u32, Seq<KeyValueView>>,
    i: int,
) -> SummaryRows {
    let pid = wrap16(s.parent_id + or_zero16(cell_u16(cols, consts::PARENT_ID@, i)));
    let id = match cell_u32(cols, consts::ID@, i) {
        Some(d) => Some(wrap32(s.last_id + d)),
        None => None,
    };
    let quantiles = match spec_column(cols, consts::SUMMARY_QUANTILE_VALUES@) {
        Some(d) => match quantile_list_at(d, i) {
            Some(q) => q,
            None => Seq::empty(),
        },
        None => Seq::empty(),
    };
    let point = SummaryDataPointView {
        attributes: match id {
            Some(id) => list_or_empty(attrs, id),
            None => Seq::empty(),
        },
        start_time_unix_nano: or_zero_ts(cell_timestamp(cols, consts::START_TIME_UNIX_NANO@, i)) as u64,
        time_unix_nano: or_zero_ts(cell_timestamp(cols, consts::TIME_UNIX_NANO@, i)) as u64,
        count: or_zero64(cell_u64(cols, consts::SUMMARY_COUNT@, i)),
        sum: or_zero64(cell_f64_plain(cols, consts::SUMMARY_SUM@, i)),
        quantile_values: quantiles,
        flags: or_zero32(cell_u32(cols, consts::FLAGS@, i)),
    };
    SummaryRows {
        parent_id: pid,
        last_id: match id {
            Some(id) => id,
            None => s.last_id,
        },
        points: s.points.insert(pid, list_or_empty(s.points, pid).push(point)),
    }
}

/// The first `n` rows of a summary table.
pub open spec fn summary_rows(cols: Seq<Column>, attrs: Map<u32, Seq<KeyValueView>>, n: int) -> SummaryRows
    decreases n,
{
    if n <= 0 {
        SummaryRows { parent_id: 0, last_id: 0, points: Map::empty() }
    } else {
        summary_row_step(summary_rows(cols, attrs, n - 1), cols, attrs, n - 1)
    }
}

/// The views of the data points of a store.
pub open spec fn summary_points_view(store: SummaryDataPointsStore) -> Map<u16, Seq<SummaryDataPointView>> {
    store.view().map_values(|s: Seq<SummaryDataPoint>| s.map_values(|p: SummaryDataPoint| p@))
}

impl SummaryDataPointsStore {
    /// Builds the summary data points of a table, by owning metric id, with
    /// the attributes of `attr_store`.
    pub fn from_record_batch(rb: &RecordBatch, attr_store: &AttributeStore<u32>) -> (r: Result<
        SummaryDataPointsStore,
        Error,
    >)
        ensures
            r is Ok <==> summary_columns_ok(rb.columns@),
            r matches Err(e) ==> summary_error(e, rb.columns@),
            r matches Ok(store) ==> summary_points_view(store) == summary_rows(
                rb.columns@,
                attr_store.view(),
                rb.num_rows as int,
            ).points,
    {
        let cols = &rb.columns;
        let required = [
            consts::PARENT_ID,
            consts::START_TIME_UNIX_NANO,
            consts::TIME_UNIX_NANO,
            consts::SUMMARY_COUNT,
            consts::SUMMARY_SUM,
            consts::SUMMARY_QUANTILE_VALUES,
            consts::FLAGS,
        ];
        let typed = [
            consts::ID,
            consts::PARENT_ID,
            consts::START_TIME_UNIX_NANO,
            consts::TIME_UNIX_NANO,
            consts::SUMMARY_COUNT,
            consts::SUMMARY_SUM,
            consts::FLAGS,
        ];
        let types = [
            DataType::UInt32,
            DataType::UInt16,
            DataType::TimestampNanosecond,
            DataType::TimestampNanosecond,
            DataType::UInt64,
            DataType::Float64,
            DataType::UInt32,
        ];
        assert(required@ == summary_required());
        assert(typed@ == summary_typed());
        assert(types@ == summary_types());
        if let Err(e) = check_columns(cols, &required, &typed, &types) {
            return Err(e);
        }
        proof {
            lemma_none_missing(cols@, summary_required(), 0);
            lemma_first_mistyped(cols@, summary_typed(), summary_types(), 0);
            assert(spec_column(cols@, summary_required()[0]@) is Some);
            assert(spec_column(cols@, summary_required()[1]@) is Some);
            assert(spec_column(cols@, summary_required()[2]@) is Some);
            assert(spec_column(cols@, summary_required()[3]@) is Some);
            assert(spec_column(cols@, summary_required()[4]@) is Some);
            assert(spec_column(cols@, summary_required()[5]@) is Some);
            assert(spec_column(cols@, summary_required()[6]@) is Some);
        }
        let id_arr_opt = match get_u32_array_opt(cols, consts::ID) {
            Ok(a) => a,
            Err(e) => return Err(e),
        };
        let delta_id_arr = match get_u16_array(cols, consts::PARENT_ID) {
            Ok(a) => a,
            Err(e) => return Err(e),
        };
        let start_time_arr = match get_timestamp_nanosecond_array(cols, consts::START_TIME_UNIX_NANO) {
            Ok(a) => a,
            Err(e) => return Err(e),
        };
        let time_arr = match get_timestamp_nanosecond_array(cols, consts::TIME_UNIX_NANO) {
            Ok(a) => a,
            Err(e) => return Err(e),
        };
        let count_arr = match get_u64_array(cols, consts::SUMMARY_COUNT) {
            Ok(a) => a,
            Err(e) => return Err(e),
        };
        let sum_arr = match get_f64_array(cols, consts::SUMMARY_SUM) {
            Ok(a) => a,
            Err(e) => return Err(e),
        };
        let quantile_col = match column_by_name(cols, consts::SUMMARY_QUANTILE_VALUES) {
            Some(d) => d,
            None => {
                return Err(Error::ColumnNotFound { name: consts::SUMMARY_QUANTILE_VALUES.to_string() });
            },
        };
        let quantile_arr = match QuantileArrays::try_new(quantile_col) {
            Ok(q) => q,
            Err(e) => return Err(e),
        };
        let flag_arr = match get_u32_array(cols, consts::FLAGS) {
            Ok(a) => a,
            Err(e) => return Err(e),
        };
        let ghost attrs = attr_store.view();
        let mut store = SummaryDataPointsStore::new();
        let mut prev_parent_id: u16 = 0;
        let mut last_id: u32 = 0;
        let n = rb.num_rows;
        let mut i: usize = 0;
        proof {
            assert(summary_points_view(store) =~= Map::<u16, Seq<SummaryDataPointView>>::empty());
        }
        while i < n
            invariant
                0 <= i <= n,
                n == rb.num_rows,
                cols == &rb.columns,
                summary_columns_ok(cols@),
                attrs == attr_store.view(),
                forall|k: int| #[trigger] opt_value_at(id_arr_opt, k) == cell_u32(cols@, consts::ID@, k),
                spec_column(cols@, consts::PARENT_ID@) == Some(ArrayData::UInt16(*delta_id_arr)),
                spec_column(cols@, consts::START_TIME_UNIX_NANO@) == Some(
                    ArrayData::TimestampNanosecond(*start_time_arr),
                ),
                spec_column(cols@, consts::TIME_UNIX_NANO@) == Some(ArrayData::TimestampNanosecond(*time_arr)),
                spec_column(cols@, consts::SUMMARY_COUNT@) == Some(ArrayData::UInt64(*count_arr)),
                spec_column(cols@, consts::SUMMARY_SUM@) == Some(ArrayData::Float64(*sum_arr)),
                spec_column(cols@, consts::SUMMARY_QUANTILE_VALUES@) == Some(*quantile_col),
                forall|k: int| #[trigger] quantile_arr.spec_value_at(k) == quantile_list_at(*quantile_col, k),
                spec_column(cols@, consts::FLAGS@) == Some(ArrayData::UInt32(*flag_arr)),
                ({
                    let rows = summary_rows(cols@, attrs, i as int);
                    &&& rows.parent_id == prev_parent_id
                    &&& rows.last_id == last_id
                    &&& rows.points == summary_points_view(store)
                }),
            decreases n - i,
        {
            let ghost before = summary_rows(cols@, attrs, i as int);
            let delta = delta_id_arr.value_at_or_default(i);
            let parent_id = prev_parent_id.wrapping_add(delta);
            prev_parent_id = parent_id;
            let mut attributes: Vec<KeyValue> = Vec::new();
            let id_cell = match id_arr_opt {
                Some(a) => a.value_at(i),
                None => None,
            };
            assert(id_cell == opt_value_at(id_arr_opt, i as int));
            match id_cell {
                Some(id) => {
                    last_id = last_id.wrapping_add(id);
                    match attr_store.attribute_by_id(last_id) {
                        Some(attr) => {
                            attributes = copy_key_values(attr);
                        },
                        None => {},
                    }
                },
                None => {},
            }
            let quantile_values = match quantile_arr.value_at(i) {
                Some(q) => q,
                None => Vec::new(),
            };
            let point = SummaryDataPoint {
                attributes,
                start_time_unix_nano: #[verifier::truncate] (start_time_arr.value_at_or_default(i) as u64),
                time_unix_nano: #[verifier::truncate] (time_arr.value_at_or_default(i) as u64),
                count: count_arr.value_at_or_default(i),
                sum: sum_arr.value_at_or_default(i),
                quantile_values,
                flags: flag_arr.value_at_or_default(i),
            };
            store.push(parent_id, point);
            proof {
                let after = summary_rows(cols@, attrs, i as int + 1);
                assert(after == summary_row_step(before, cols@, attrs, i as int));
                assert(point@.attributes == after.points[parent_id].last().attributes) by {
                    assert(kvs_view(Seq::<KeyValue>::empty()) =~= Seq::<KeyValueView>::empty());
                }
                assert(point@ == after.points[parent_id].last());
                assert(summary_points_view(store) =~= after.points) by {
                    assert(list_or_empty(store.view(), parent_id).map_values(|p: SummaryDataPoint| p@)
                        =~= list_or_empty(before.points, parent_id).push(point@));
                }
            }
            i += 1;
        }
        Ok(store)
    }
}

} // verus!

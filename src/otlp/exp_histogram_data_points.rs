//! The exponential histogram data points table.
use vstd::prelude::*;

use crate::arrays::{
    cell_i32, cell_timestamp, cell_u16, cell_u32, cell_u64, first_missing_from, get_f64_array_opt,
    get_i32_array, get_struct_array_opt, get_timestamp_nanosecond_array, get_u16_array,
    get_u32_array, get_u32_array_opt, get_u64_array, lemma_first_missing_is_missing,
    opt_value_at, require_columns, spec_column, ArrayData, Column, ListArray,
    NullableArrayAccessor, PrimitiveArray, RecordBatch,
};
use crate::error::{DataType, Error};
use crate::otlp::attribute_store::{absent_or, AttributeStore};
use crate::otlp::data_point_store::{list_or_empty, EHistogramDataPointsStore};
use crate::otlp::exemplar::{exemplars_view, ExemplarsStore};
use crate::otlp::histogram_data_points::{
    cell_f64_opt, get_u64_list, list_child, list_values_at, u64_list_at,
};
use crate::otlp::num_data_points::{or_zero16, or_zero32, or_zero_ts, wrap16, wrap32};
use crate::otlp::proto::{
    copy_key_values, kvs_view, Buckets, BucketsView, Exemplar, ExemplarView,
    ExponentialHistogramDataPoint, ExponentialHistogramDataPointView, KeyValue, KeyValueView,
};
use crate::otlp::summary_data_points::or_zero64;
use crate::schema::consts;

verus! {

/// Whether `d` is a buckets struct: an `Int32` offset and a list of `UInt64` counts.
pub open spec fn buckets_column_ok(d: ArrayData) -> bool {
    match d {
        ArrayData::Struct(st) => {
            &&& spec_column(st.columns@, consts::EXP_HISTOGRAM_OFFSET@) matches Some(o) && o is Int32
            &&& spec_column(st.columns@, consts::EXP_HISTOGRAM_BUCKET_COUNTS@) matches Some(c) && list_child(
                c,
                DataType::UInt64,
            ) is Some
        },
        _ => false,
    }
}

/// The buckets of row `i` of the buckets column `d`; none when the column is absent.
pub open spec fn buckets_at(d: Option<ArrayData>, i: int) -> Option<BucketsView> {
    match d {
        Some(ArrayData::Struct(st)) => Some(
            BucketsView {
                offset: match cell_i32(st.columns@, consts::EXP_HISTOGRAM_OFFSET@, i) {
                    Some(v) => v,
                    None => 0,
                },
                bucket_counts: list_values_at(
                    spec_column(st.columns@, consts::EXP_HISTOGRAM_BUCKET_COUNTS@),
                    DataType::UInt64,
                    i,
                ),
            },
        ),
        _ => None,
    }
}

/// The columns of a buckets struct.
pub struct BucketsArrays<'a> {
    pub offset: &'a PrimitiveArray<i32>,
    pub counts_list: &'a ListArray,
    pub counts_values: &'a PrimitiveArray<u64>,
}

impl<'a> BucketsArrays<'a> {
    pub open spec fn matches_column(&self, d: ArrayData) -> bool {
        match d {
            ArrayData::Struct(st) => {
                &&& spec_column(st.columns@, consts::EXP_HISTOGRAM_OFFSET@) == Some(ArrayData::Int32(*self.offset))
                &&& spec_column(st.columns@, consts::EXP_HISTOGRAM_BUCKET_COUNTS@) matches Some(c) && list_child(
                    c,
                    DataType::UInt64,
                ) == Some((*self.counts_list, *self.counts_values))
            },
            _ => false,
        }
    }

    /// Reads the optional buckets struct column named `name`.
    pub fn try_new_opt(cols: &'a Vec<Column>, name: &str) -> (r: Result<Option<BucketsArrays<'a>>, Error>)
        ensures
            match spec_column(cols@, name@) {
                None => r matches Ok(None),
                Some(d) => if buckets_column_ok(d) {
                    r matches Ok(Some(b)) && b.matches_column(d)
                } else {
                    r is Err
                },
            },
            r matches Err(e) ==> (e is ColumnNotFound || e is ColumnDataTypeMismatch),
    {
        let st = match get_struct_array_opt(cols, name) {
            Ok(Some(s)) => s,
            Ok(None) => return Ok(None),
            Err(e) => return Err(e),
        };
        let offset = match get_i32_array(&st.columns, consts::EXP_HISTOGRAM_OFFSET) {
            Ok(a) => a,
            Err(e) => return Err(e),
        };
        let (counts_list, counts_values) = match get_u64_list(
            &st.columns,
            consts::EXP_HISTOGRAM_BUCKET_COUNTS,
            DataType::UInt64,
        ) {
            Ok(a) => a,
            Err(e) => return Err(e),
        };
        Ok(Some(BucketsArrays { offset, counts_list, counts_values }))
    }

    /// The buckets of row `idx`.
    fn buckets_at(&self, idx: usize, Ghost(d): Ghost<ArrayData>) -> (r: Buckets)
        requires
            self.matches_column(d),
        ensures
            Some(r@) == buckets_at(Some(d), idx as int),
    {
        Buckets {
            offset: self.offset.value_at_or_default(idx),
            bucket_counts: u64_list_at(self.counts_list, self.counts_values, idx),
        }
    }
}

fn opt_buckets_at(b: &Option<BucketsArrays>, idx: usize, Ghost(d): Ghost<Option<ArrayData>>) -> (r: Option<Buckets>)
    requires
        match d {
            Some(d) => b matches Some(a) && a.matches_column(d),
            None => b is None,
        },
    ensures
        crate::otlp::proto::opt_buckets_view(r) == buckets_at(d, idx as int),
{
    match b {
        Some(a) => Some(a.buckets_at(idx, Ghost(d.unwrap()))),
        None => None,
    }
}

pub open spec fn exp_histogram_required() -> Seq<&'static str> {
    seq![
        consts::PARENT_ID,
        consts::START_TIME_UNIX_NANO,
        consts::TIME_UNIX_NANO,
        consts::HISTOGRAM_COUNT,
        consts::EXP_HISTOGRAM_SCALE,
        consts::EXP_HISTOGRAM_ZERO_COUNT,
        consts::FLAGS,
    ]
}

/// Whether every column of an exponential histogram table has its expected type.
pub open spec fn exp_histogram_columns_ok(cols: Seq<Column>) -> bool {
    &&& absent_or(cols, consts::ID@, |d: ArrayData| d is UInt32)
    &&& spec_column(cols, consts::PARENT_ID@) matches Some(d) && d is UInt16
    &&& spec_column(cols, consts::START_TIME_UNIX_NANO@) matches Some(d) && d is TimestampNanosecond
    &&& spec_column(cols, consts::TIME_UNIX_NANO@) matches Some(d) && d is TimestampNanosecond
    &&& spec_column(cols, consts::HISTOGRAM_COUNT@) matches Some(d) && d is UInt64
    &&& absent_or(cols, consts::HISTOGRAM_SUM@, |d: ArrayData| d is Float64)
    &&& spec_column(cols, consts::EXP_HISTOGRAM_SCALE@) matches Some(d) && d is Int32
    &&& spec_column(cols, consts::EXP_HISTOGRAM_ZERO_COUNT@) matches Some(d) && d is UInt64
    &&& absent_or(cols, consts::EXP_HISTOGRAM_POSITIVE@, |d: ArrayData| buckets_column_ok(d))
    &&& absent_or(cols, consts::EXP_HISTOGRAM_NEGATIVE@, |d: ArrayData| buckets_column_ok(d))
    &&& spec_column(cols, consts::FLAGS@) matches Some(d) && d is UInt32
    &&& absent_or(cols, consts::HISTOGRAM_MIN@, |d: ArrayData| d is Float64)
    &&& absent_or(cols, consts::HISTOGRAM_MAX@, |d: ArrayData| d is Float64)
}

/// The state of reading an exponential histogram table row by row.
pub struct ExpHistogramRows {
    pub parent_id: u16,
    pub last_id: u32,
    pub exemplars: Map<u32, Seq<ExemplarView>>,
    pub points: Map<u16, Seq<ExponentialHistogramDataPointView>>,
}

/// Row `i` of an exponential histogram table, read as a histogram row is,
/// with its scale, zero count and positive and negative buckets.
pub open spec fn exp_histogram_row_step(
    s: ExpHistogramRows,
    cols: Seq<Column>,
    attrs: Map<u32, Seq<KeyValueView>>,
    i: int,
) -> ExpHistogramRows {
    let pid = wrap16(s.parent_id + or_zero16(cell_u16(cols, consts::PARENT_ID@, i)));
    let id = match cell_u32(cols, consts::ID@, i) {
        Some(d) => Some(wrap32(s.last_id + d)),
        None => None,
    };
    let point = ExponentialHistogramDataPointView {
        attributes: match id {
            Some(id) => list_or_empty(attrs, id),
            None => Seq::empty(),
        },
        start_time_unix_nano: or_zero_ts(cell_timestamp(cols, consts::START_TIME_UNIX_NANO@, i)) as u64,
        time_unix_nano: or_zero_ts(cell_timestamp(cols, consts::TIME_UNIX_NANO@, i)) as u64,
        count: or_zero64(cell_u64(cols, consts::HISTOGRAM_COUNT@, i)),
        sum: cell_f64_opt(cols, consts::HISTOGRAM_SUM@, i),
        scale: match cell_i32(cols, consts::EXP_HISTOGRAM_SCALE@, i) {
            Some(v) => v,
            None => 0,
        },
        zero_count: or_zero64(cell_u64(cols, consts::EXP_HISTOGRAM_ZERO_COUNT@, i)),
        positive: buckets_at(spec_column(cols, consts::EXP_HISTOGRAM_POSITIVE@), i),
        negative: buckets_at(spec_column(cols, consts::EXP_HISTOGRAM_NEGATIVE@), i),
        flags: or_zero32(cell_u32(cols, consts::FLAGS@, i)),
        exemplars: match id {
            Some(id) => list_or_empty(s.exemplars, id),
            None => Seq::empty(),
        },
        min: cell_f64_opt(cols, consts::HISTOGRAM_MIN@, i),
        max: cell_f64_opt(cols, consts::HISTOGRAM_MAX@, i),
    };
    ExpHistogramRows {
        parent_id: pid,
        last_id: match id {
            Some(id) => id,
            None => s.last_id,
        },
        exemplars: match id {
            Some(id) => s.exemplars.insert(id, Seq::empty()),
            None => s.exemplars,
        },
        points: s.points.insert(pid, list_or_empty(s.points, pid).push(point)),
    }
}

/// The first `n` rows of an exponential histogram table, from state `init`.
pub open spec fn exp_histogram_rows(
    init: ExpHistogramRows,
    cols: Seq<Column>,
    attrs: Map<u32, Seq<KeyValueView>>,
    n: int,
) -> ExpHistogramRows
    decreases n,
{
    if n <= 0 {
        init
    } else {
        exp_histogram_row_step(exp_histogram_rows(init, cols, attrs, n - 1), cols, attrs, n - 1)
    }
}

pub open spec fn exp_histogram_points_view(store: EHistogramDataPointsStore) -> Map<
    u16,
    Seq<ExponentialHistogramDataPointView>,
> {
    store.view().map_values(
        |s: Seq<ExponentialHistogramDataPoint>| s.map_values(|p: ExponentialHistogramDataPoint| p@),
    )
}

impl EHistogramDataPointsStore {
    /// Builds the exponential histogram data points of a table, by owning
    /// metric id; attaches the exemplars of `exemplar_store` and the
    /// attributes of `attr_store`.
    #[verifier::rlimit(40)]
    pub fn from_record_batch(
        rb: &RecordBatch,
        exemplar_store: &mut ExemplarsStore,
        attr_store: &AttributeStore<u32>,
    ) -> (r: Result<EHistogramDataPointsStore, Error>)
        ensures
            first_missing_from(rb.columns@, exp_histogram_required(), 0) matches Some(j) ==> r matches Err(e)
                && e.is_column_not_found(exp_histogram_required()[j]@),
            r is Ok <==> exp_histogram_columns_ok(rb.columns@),
            r matches Err(e) ==> (e is ColumnNotFound || e is ColumnDataTypeMismatch),
            r matches Ok(store) ==> {
                let rows = exp_histogram_rows(
                    ExpHistogramRows {
                        parent_id: 0,
                        last_id: 0,
                        exemplars: exemplars_view(*old(exemplar_store)),
                        points: Map::empty(),
                    },
                    rb.columns@,
                    attr_store.view(),
                    rb.num_rows as int,
                );
                &&& exp_histogram_points_view(store) == rows.points
                &&& exemplars_view(*final(exemplar_store)) == rows.exemplars
            },
    {
        let cols = &rb.columns;
        let required = [
            consts::PARENT_ID,
            consts::START_TIME_UNIX_NANO,
            consts::TIME_UNIX_NANO,
            consts::HISTOGRAM_COUNT,
            consts::EXP_HISTOGRAM_SCALE,
            consts::EXP_HISTOGRAM_ZERO_COUNT,
            consts::FLAGS,
        ];
        assert(required@ == exp_histogram_required());
        if let Err(e) = require_columns(cols, &required) {
            proof {
                lemma_first_missing_is_missing(cols@, exp_histogram_required(), 0);
            }
            return Err(e);
        }
        let id_arr = match get_u32_array_opt(cols, consts::ID) {
            Ok(a) => a,
            Err(e) => return Err(e),
        };
        let parent_arr = match get_u16_array(cols, consts::PARENT_ID) {
            Ok(a) => a,
            Err(e) => return Err(e),
        };
        let start_arr = match get_timestamp_nanosecond_array(cols, consts::START_TIME_UNIX_NANO) {
            Ok(a) => a,
            Err(e) => return Err(e),
        };
        let time_arr = match get_timestamp_nanosecond_array(cols, consts::TIME_UNIX_NANO) {
            Ok(a) => a,
            Err(e) => return Err(e),
        };
        let count_arr = match get_u64_array(cols, consts::HISTOGRAM_COUNT) {
            Ok(a) => a,
            Err(e) => return Err(e),
        };
        let sum_arr = match get_f64_array_opt(cols, consts::HISTOGRAM_SUM) {
            Ok(a) => a,
            Err(e) => return Err(e),
        };
        let scale_arr = match get_i32_array(cols, consts::EXP_HISTOGRAM_SCALE) {
            Ok(a) => a,
            Err(e) => return Err(e),
        };
        let zero_count_arr = match get_u64_array(cols, consts::EXP_HISTOGRAM_ZERO_COUNT) {
            Ok(a) => a,
            Err(e) => return Err(e),
        };
        let positive = match BucketsArrays::try_new_opt(cols, consts::EXP_HISTOGRAM_POSITIVE) {
            Ok(a) => a,
            Err(e) => return Err(e),
        };
        let negative = match BucketsArrays::try_new_opt(cols, consts::EXP_HISTOGRAM_NEGATIVE) {
            Ok(a) => a,
            Err(e) => return Err(e),
        };
        let flags_arr = match get_u32_array(cols, consts::FLAGS) {
            Ok(a) => a,
            Err(e) => return Err(e),
        };
        let min_arr = match get_f64_array_opt(cols, consts::HISTOGRAM_MIN) {
            Ok(a) => a,
            Err(e) => return Err(e),
        };
        let max_arr = match get_f64_array_opt(cols, consts::HISTOGRAM_MAX) {
            Ok(a) => a,
            Err(e) => return Err(e),
        };
        let ghost init = ExpHistogramRows {
            parent_id: 0,
            last_id: 0,
            exemplars: exemplars_view(*exemplar_store),
            points: Map::empty(),
        };
        let ghost attrs = attr_store.view();
        let ghost pos_col = spec_column(cols@, consts::EXP_HISTOGRAM_POSITIVE@);
        let ghost neg_col = spec_column(cols@, consts::EXP_HISTOGRAM_NEGATIVE@);
        let mut store = EHistogramDataPointsStore::new();
        let mut prev_parent_id: u16 = 0;
        let mut last_id: u32 = 0;
        let n = rb.num_rows;
        let mut i: usize = 0;
        proof {
            assert(exp_histogram_points_view(store) =~= Map::<u16, Seq<ExponentialHistogramDataPointView>>::empty());
        }
        while i < n
            invariant
                0 <= i <= n,
                n == rb.num_rows,
                cols == &rb.columns,
                exp_histogram_columns_ok(cols@),
                first_missing_from(cols@, exp_histogram_required(), 0) is None,
                attrs == attr_store.view(),
                forall|k: int| #[trigger] opt_value_at(id_arr, k) == cell_u32(cols@, consts::ID@, k),
                spec_column(cols@, consts::PARENT_ID@) == Some(ArrayData::UInt16(*parent_arr)),
                spec_column(cols@, consts::START_TIME_UNIX_NANO@) == Some(ArrayData::TimestampNanosecond(*start_arr)),
                spec_column(cols@, consts::TIME_UNIX_NANO@) == Some(ArrayData::TimestampNanosecond(*time_arr)),
                spec_column(cols@, consts::HISTOGRAM_COUNT@) == Some(ArrayData::UInt64(*count_arr)),
                spec_column(cols@, consts::EXP_HISTOGRAM_SCALE@) == Some(ArrayData::Int32(*scale_arr)),
                spec_column(cols@, consts::EXP_HISTOGRAM_ZERO_COUNT@) == Some(ArrayData::UInt64(*zero_count_arr)),
                forall|k: int| #[trigger] opt_value_at(sum_arr, k) == cell_f64_opt(cols@, consts::HISTOGRAM_SUM@, k),
                forall|k: int| #[trigger] opt_value_at(min_arr, k) == cell_f64_opt(cols@, consts::HISTOGRAM_MIN@, k),
                forall|k: int| #[trigger] opt_value_at(max_arr, k) == cell_f64_opt(cols@, consts::HISTOGRAM_MAX@, k),
                pos_col == spec_column(cols@, consts::EXP_HISTOGRAM_POSITIVE@),
                neg_col == spec_column(cols@, consts::EXP_HISTOGRAM_NEGATIVE@),
                match pos_col {
                    Some(d) => positive matches Some(a) && a.matches_column(d),
                    None => positive is None,
                },
                match neg_col {
                    Some(d) => negative matches Some(a) && a.matches_column(d),
                    None => negative is None,
                },
                spec_column(cols@, consts::FLAGS@) == Some(ArrayData::UInt32(*flags_arr)),
                ({
                    let rows = exp_histogram_rows(init, cols@, attrs, i as int);
                    &&& rows.parent_id == prev_parent_id
                    &&& rows.last_id == last_id
                    &&& rows.exemplars == exemplars_view(*exemplar_store)
                    &&& rows.points == exp_histogram_points_view(store)
                }),
            decreases n - i,
        {
            let ghost before = exp_histogram_rows(init, cols@, attrs, i as int);
            let ghost ii = i as int;
            let delta = parent_arr.value_at_or_default(i);
            let parent_id = prev_parent_id.wrapping_add(delta);
            prev_parent_id = parent_id;
            let id_cell = match id_arr {
                Some(a) => a.value_at(i),
                None => None,
            };
            assert(id_cell == opt_value_at(id_arr, ii));
            let mut exemplars: Vec<Exemplar> = Vec::new();
            let mut attributes: Vec<KeyValue> = Vec::new();
            match id_cell {
                Some(id) => {
                    last_id = last_id.wrapping_add(id);
                    let ghost before_ex = *exemplar_store;
                    exemplars = exemplar_store.take(last_id);
                    proof {
                        assert(exemplars@.map_values(|e: Exemplar| e@) =~= list_or_empty(
                            exemplars_view(before_ex),
                            last_id,
                        ));
                        assert(Seq::<Exemplar>::empty().map_values(|e: Exemplar| e@) =~= Seq::<ExemplarView>::empty());
                        assert(exemplars_view(*exemplar_store) =~= exemplars_view(before_ex).insert(
                            last_id,
                            Seq::empty(),
                        ));
                    }
                    match attr_store.attribute_by_id(last_id) {
                        Some(attr) => {
                            attributes = copy_key_values(attr);
                        },
                        None => {},
                    }
                },
                None => {},
            }
            let sum = match sum_arr {
                Some(a) => a.value_at(i),
                None => None,
            };
            let min = match min_arr {
                Some(a) => a.value_at(i),
                None => None,
            };
            let max = match max_arr {
                Some(a) => a.value_at(i),
                None => None,
            };
            assert(sum == opt_value_at(sum_arr, ii));
            assert(min == opt_value_at(min_arr, ii));
            assert(max == opt_value_at(max_arr, ii));
            let point = ExponentialHistogramDataPoint {
                attributes,
                start_time_unix_nano: #[verifier::truncate] (start_arr.value_at_or_default(i) as u64),
                time_unix_nano: #[verifier::truncate] (time_arr.value_at_or_default(i) as u64),
                count: count_arr.value_at_or_default(i),
                sum,
                scale: scale_arr.value_at_or_default(i),
                zero_count: zero_count_arr.value_at_or_default(i),
                positive: opt_buckets_at(&positive, i, Ghost(pos_col)),
                negative: opt_buckets_at(&negative, i, Ghost(neg_col)),
                flags: flags_arr.value_at_or_default(i),
                exemplars,
                min,
                max,
            };
            store.push(parent_id, point);
            proof {
                let after = exp_histogram_rows(init, cols@, attrs, ii + 1);
                assert(after == exp_histogram_row_step(before, cols@, attrs, ii));
                assert(point@.attributes == after.points[parent_id].last().attributes) by {
                    assert(kvs_view(Seq::<KeyValue>::empty()) =~= Seq::<KeyValueView>::empty());
                }
                assert(point@.exemplars == after.points[parent_id].last().exemplars) by {
                    assert(Seq::<Exemplar>::empty().map_values(|e: Exemplar| e@) =~= Seq::<ExemplarView>::empty());
                }
                assert(point@ == after.points[parent_id].last());
                assert(exp_histogram_points_view(store) =~= after.points) by {
                    assert(list_or_empty(store.view(), parent_id).map_values(|p: ExponentialHistogramDataPoint| p@)
                        =~= list_or_empty(before.points, parent_id).push(point@));
                }
            }
            i += 1;
        }
        Ok(store)
    }
}

} // verus!

//! The number data points table.
use vstd::prelude::*;

use crate::arrays::{
    cell_f64, cell_i64, cell_timestamp, cell_u16, cell_u32, first_missing_from, get_f64_column_opt,
    get_i64_column_opt, get_timestamp_nanosecond_array, get_u16_array, get_u32_array,
    lemma_first_missing_is_missing, lemma_none_missing, require_columns, spec_column, ArrayData,
    Column, NullableArrayAccessor, RecordBatch,
};
use crate::error::Error;
use crate::otlp::attribute_store::{is_float64_like, is_int64_like, AttributeStore};
use crate::otlp::data_point_store::{list_or_empty, NumberDataPointsStore};
use crate::otlp::exemplar::{exemplars_view, ExemplarsStore};
use crate::otlp::proto::{
    copy_key_values, kvs_view, Exemplar, ExemplarView, KeyValue, KeyValueView, NumberDataPoint,
    NumberDataPointView, NumberValue,
};
use crate::schema::consts;

verus! {

/// `x` reduced to a `u16`, as sums of `u16` ids wrap.
pub open spec fn wrap16(x: int) -> u16 {
    (x % 0x1_0000) as u16
}

/// `x` reduced to a `u32`, as sums of `u32` ids wrap.
pub open spec fn wrap32(x: int) -> u32 {
    (x % 0x1_0000_0000) as u32
}

pub open spec fn number_required() -> Seq<&'static str> {
    seq![
        consts::ID,
        consts::PARENT_ID,
        consts::START_TIME_UNIX_NANO,
        consts::TIME_UNIX_NANO,
        consts::INT_VALUE,
        consts::DOUBLE_VALUE,
        consts::FLAGS,
    ]
}

/// Whether every column of a number data points table has its expected type.
pub open spec fn number_columns_ok(cols: Seq<Column>) -> bool {
    &&& spec_column(cols, consts::ID@) matches Some(d) && d is UInt32
    &&& spec_column(cols, consts::PARENT_ID@) matches Some(d) && d is UInt16
    &&& spec_column(cols, consts::START_TIME_UNIX_NANO@) matches Some(d) && d is TimestampNanosecond
    &&& spec_column(cols, consts::TIME_UNIX_NANO@) matches Some(d) && d is TimestampNanosecond
    &&& spec_column(cols, consts::INT_VALUE@) matches Some(d) && is_int64_like(d)
    &&& spec_column(cols, consts::DOUBLE_VALUE@) matches Some(d) && is_float64_like(d)
    &&& spec_column(cols, consts::FLAGS@) matches Some(d) && d is UInt32
}

/// Whether row `i` holds both an integer and a double value.
pub open spec fn has_both_values(cols: Seq<Column>, i: int) -> bool {
    cell_i64(cols, consts::INT_VALUE@, i) is Some && cell_f64(cols, consts::DOUBLE_VALUE@, i) is Some
}

/// The value of row `i`: whichever of the integer and double cells is set.
pub open spec fn number_value(cols: Seq<Column>, i: int) -> Option<NumberValue> {
    match (cell_i64(cols, consts::INT_VALUE@, i), cell_f64(cols, consts::DOUBLE_VALUE@, i)) {
        (Some(v), None) => Some(NumberValue::AsInt(v)),
        (None, Some(d)) => Some(NumberValue::AsDouble(d)),
        _ => None,
    }
}

pub open spec fn or_zero16(v: Option<u16>) -> u16 {
    match v {
        Some(v) => v,
        None => 0,
    }
}

pub open spec fn or_zero32(v: Option<u32>) -> u32 {
    match v {
        Some(v) => v,
        None => 0,
    }
}

pub open spec fn or_zero_ts(v: Option<i64>) -> i64 {
    match v {
        Some(v) => v,
        None => 0,
    }
}

/// The state of reading a data points table row by row.
pub struct NumberRows {
    /// The running parent id (the owning metric id).
    pub parent_id: u16,
    /// The running data point id.
    pub last_id: u32,
    /// The exemplars not yet attached.
    pub exemplars: Map<u32, Seq<ExemplarView>>,
    /// The data points so far, by parent id.
    pub points: Map<u16, Seq<NumberDataPointView>>,
}

/// Row `i` of a number data points table: its parent id is the running sum
/// of the `parent_id` column; when its `id` cell is set, the running data
/// point id advances, and the exemplars and attributes of that id are
/// attached (the exemplars leave their store).
pub open spec fn number_row_step(
    s: NumberRows,
    cols: Seq<Column>,
    attrs: Map<u32, Seq<KeyValueView>>,
    i: int,
) -> NumberRows {
    let pid = wrap16(s.parent_id + or_zero16(cell_u16(cols, consts::PARENT_ID@, i)));
    let id = match cell_u32(cols, consts::ID@, i) {
        Some(d) => Some(wrap32(s.last_id + d)),
        None => None,
    };
    let point = NumberDataPointView {
        attributes: match id {
            Some(id) => list_or_empty(attrs, id),
            None => Seq::empty(),
        },
        start_time_unix_nano: or_zero_ts(cell_timestamp(cols, consts::START_TIME_UNIX_NANO@, i)) as u64,
        time_unix_nano: or_zero_ts(cell_timestamp(cols, consts::TIME_UNIX_NANO@, i)) as u64,
        exemplars: match id {
            Some(id) => list_or_empty(s.exemplars, id),
            None => Seq::empty(),
        },
        flags: or_zero32(cell_u32(cols, consts::FLAGS@, i)),
        value: number_value(cols, i),
    };
    NumberRows {
        parent_id: pid,
        last_id: match id {
            Some(id) => id,
            None => s.last_id,
        },
        exemplars: match id {
            Some(id) => s.exemplars.insert(id, Seq::empty()),
            None => s.exemplars,
        },
        points: s.points.insert(pid, list_or_empty(s.points, pid).push(point)),
    }
}

/// The first `n` rows of a number data points table, from state `init`.
pub open spec fn number_rows(
    init: NumberRows,
    cols: Seq<Column>,
    attrs: Map<u32, Seq<KeyValueView>>,
    n: int,
) -> NumberRows
    decreases n,
{
    if n <= 0 {
        init
    } else {
        number_row_step(number_rows(init, cols, attrs, n - 1), cols, attrs, n - 1)
    }
}

/// The views of the data points of a store.
pub open spec fn number_points_view(store: NumberDataPointsStore) -> Map<u16, Seq<NumberDataPointView>> {
    store.view().map_values(|s: Seq<NumberDataPoint>| s.map_values(|p: NumberDataPoint| p@))
}

/// Builds the number data points of a table, by owning metric id; attaches
/// the exemplars of `exemplar_store` and the attributes of `attribute_store`.
pub fn from_record_batch(
    rb: &RecordBatch,
    exemplar_store: &mut ExemplarsStore,
    attribute_store: &AttributeStore<u32>,
) -> (r: Result<NumberDataPointsStore, Error>)
    ensures
        first_missing_from(rb.columns@, number_required(), 0) matches Some(j) ==> r matches Err(e)
            && e.is_column_not_found(number_required()[j]@),
        r matches Err(e) ==> (e is ColumnNotFound || e is ColumnDataTypeMismatch || e is ConflictingNumberValue),
        number_columns_ok(rb.columns@) && r is Err ==> (r matches Err(e) && e is ConflictingNumberValue),
        r is Ok <==> number_columns_ok(rb.columns@) && forall|i: int|
            0 <= i < rb.num_rows ==> !#[trigger] has_both_values(rb.columns@, i),
        r matches Ok(store) ==> {
            let rows = number_rows(
                NumberRows {
                    parent_id: 0,
                    last_id: 0,
                    exemplars: exemplars_view(*old(exemplar_store)),
                    points: Map::empty(),
                },
                rb.columns@,
                attribute_store.view(),
                rb.num_rows as int,
            );
            &&& number_points_view(store) == rows.points
            &&& exemplars_view(*final(exemplar_store)) == rows.exemplars
        },
{
    let cols = &rb.columns;
    let required = [
        consts::ID,
        consts::PARENT_ID,
        consts::START_TIME_UNIX_NANO,
        consts::TIME_UNIX_NANO,
        consts::INT_VALUE,
        consts::DOUBLE_VALUE,
        consts::FLAGS,
    ];
    assert(required@ == number_required());
    if let Err(e) = require_columns(cols, &required) {
        proof {
            lemma_first_missing_is_missing(cols@, number_required(), 0);
        }
        return Err(e);
    }
    proof {
        lemma_none_missing(cols@, number_required(), 0);
        assert(spec_column(cols@, number_required()[4]@) is Some);
        assert(spec_column(cols@, number_required()[5]@) is Some);
    }
    let id_array = match get_u32_array(cols, consts::ID) {
        Ok(a) => a,
        Err(e) => return Err(e),
    };
    let parent_id_array = match get_u16_array(cols, consts::PARENT_ID) {
        Ok(a) => a,
        Err(e) => return Err(e),
    };
    let start_time_array = match get_timestamp_nanosecond_array(cols, consts::START_TIME_UNIX_NANO) {
        Ok(a) => a,
        Err(e) => return Err(e),
    };
    let time_array = match get_timestamp_nanosecond_array(cols, consts::TIME_UNIX_NANO) {
        Ok(a) => a,
        Err(e) => return Err(e),
    };
    let int_value = match get_i64_column_opt(cols, consts::INT_VALUE) {
        Ok(Some(c)) => c,
        Ok(None) => return Err(Error::ColumnNotFound { name: consts::INT_VALUE.to_string() }),
        Err(e) => return Err(e),
    };
    let double_value = match get_f64_column_opt(cols, consts::DOUBLE_VALUE) {
        Ok(Some(c)) => c,
        Ok(None) => return Err(Error::ColumnNotFound { name: consts::DOUBLE_VALUE.to_string() }),
        Err(e) => return Err(e),
    };
    let flags_array = match get_u32_array(cols, consts::FLAGS) {
        Ok(a) => a,
        Err(e) => return Err(e),
    };
    let ghost init = NumberRows {
        parent_id: 0,
        last_id: 0,
        exemplars: exemplars_view(*exemplar_store),
        points: Map::empty(),
    };
    let ghost attrs = attribute_store.view();
    let mut store = NumberDataPointsStore::new();
    let mut last_id: u32 = 0;
    let mut prev_parent_id: u16 = 0;
    let n = rb.num_rows;
    let mut i: usize = 0;
    proof {
        assert(number_points_view(store) =~= Map::<u16, Seq<NumberDataPointView>>::empty());
    }
    while i < n
        invariant
            0 <= i <= n,
            n == rb.num_rows,
            cols == &rb.columns,
            number_columns_ok(cols@),
            first_missing_from(cols@, number_required(), 0) is None,
            attrs == attribute_store.view(),
            spec_column(cols@, consts::ID@) == Some(ArrayData::UInt32(*id_array)),
            spec_column(cols@, consts::PARENT_ID@) == Some(ArrayData::UInt16(*parent_id_array)),
            spec_column(cols@, consts::START_TIME_UNIX_NANO@) == Some(
                ArrayData::TimestampNanosecond(*start_time_array),
            ),
            spec_column(cols@, consts::TIME_UNIX_NANO@) == Some(ArrayData::TimestampNanosecond(*time_array)),
            spec_column(cols@, consts::FLAGS@) == Some(ArrayData::UInt32(*flags_array)),
            forall|k: int| #[trigger] int_value.spec_value_at(k) == cell_i64(cols@, consts::INT_VALUE@, k),
            forall|k: int| #[trigger] double_value.spec_value_at(k) == cell_f64(cols@, consts::DOUBLE_VALUE@, k),
            forall|k: int| 0 <= k < i ==> !#[trigger] has_both_values(cols@, k),
            ({
                let rows = number_rows(init, cols@, attrs, i as int);
                &&& rows.parent_id == prev_parent_id
                &&& rows.last_id == last_id
                &&& rows.exemplars == exemplars_view(*exemplar_store)
                &&& rows.points == number_points_view(store)
            }),
        decreases n - i,
    {
        let ghost before = number_rows(init, cols@, attrs, i as int);
        let delta = parent_id_array.value_at_or_default(i);
        let parent_id = prev_parent_id.wrapping_add(delta);
        prev_parent_id = parent_id;
        let iv = int_value.value_at(i);
        let dv = double_value.value_at(i);
        let value = match (iv, dv) {
            (Some(v), None) => Some(NumberValue::AsInt(v)),
            (None, Some(d)) => Some(NumberValue::AsDouble(d)),
            (None, None) => None,
            (Some(_), Some(_)) => {
                assert(has_both_values(cols@, i as int));
                return Err(Error::ConflictingNumberValue);
            },
        };
        let mut exemplars: Vec<Exemplar> = Vec::new();
        let mut attributes: Vec<KeyValue> = Vec::new();
        match id_array.value_at(i) {
            Some(id) => {
                last_id = last_id.wrapping_add(id);
                let ghost before_ex = *exemplar_store;
                exemplars = exemplar_store.take(last_id);
                proof {
                    assert(exemplars@.map_values(|e: Exemplar| e@) =~= list_or_empty(
                        exemplars_view(before_ex),
                        last_id,
                    ));
                    assert(Seq::<Exemplar>::empty().map_values(|e: Exemplar| e@) =~= Seq::<ExemplarView>::empty());
                    assert(exemplars_view(*exemplar_store) =~= exemplars_view(before_ex).insert(
                        last_id,
                        Seq::empty(),
                    ));
                }
                match attribute_store.attribute_by_id(last_id) {
                    Some(attr) => {
                        attributes = copy_key_values(attr);
                    },
                    None => {},
                }
            },
            None => {},
        }
        let point = NumberDataPoint {
            attributes,
            start_time_unix_nano: #[verifier::truncate] (start_time_array.value_at_or_default(i) as u64),
            time_unix_nano: #[verifier::truncate] (time_array.value_at_or_default(i) as u64),
            exemplars,
            flags: flags_array.value_at_or_default(i),
            value,
        };
        let ghost old_store = store;
        store.push(parent_id, point);
        proof {
            let after = number_rows(init, cols@, attrs, i as int + 1);
            assert(after == number_row_step(before, cols@, attrs, i as int));
            assert(point@.attributes == after.points[parent_id].last().attributes) by {
                assert(kvs_view(Seq::<KeyValue>::empty()) =~= Seq::<KeyValueView>::empty());
            }
            assert(point@.exemplars == after.points[parent_id].last().exemplars) by {
                assert(Seq::<Exemplar>::empty().map_values(|e: Exemplar| e@) =~= Seq::<ExemplarView>::empty());
            }
            assert(point@ == after.points[parent_id].last());
            assert(number_points_view(store) =~= after.points) by {
                assert(list_or_empty(store.view(), parent_id).map_values(|p: NumberDataPoint| p@)
                    =~= list_or_empty(before.points, parent_id).push(point@));
            }
        }
        i += 1;
    }
    Ok(store)
}

} // verus!

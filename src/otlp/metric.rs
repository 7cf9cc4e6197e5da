//! The main metrics table, reduced to the OTLP metric tree.
use vstd::prelude::*;

use crate::arrays::{
    cell_bool, cell_i32, cell_str_or_empty, cell_u16, cell_u32, cell_u8, first_missing_from,
    get_bool_array, get_i32_array, get_string_array, get_struct_array, get_u16_array,
    get_u32_array, get_u8_array, check_columns, columns_ok, is_columns_error, lemma_columns_ok_intro, lemma_first_mistyped,
    lemma_none_missing, spec_column, ArrayData, Column, NullableArrayAccessor, PrimitiveArray,
    RecordBatch, StringArray,
};
use crate::error::{DataType, Error};
use crate::otlp::data_point_store::list_or_empty;
use crate::otlp::num_data_points::{or_zero16, or_zero32, wrap16};
use crate::otlp::proto::{
    copy_key_values, kvs_view, ExponentialHistogram, ExponentialHistogramDataPoint,
    ExportMetricsServiceRequest, Gauge, Histogram, HistogramDataPoint, InstrumentationScope,
    KeyValue, KeyValueView, Metric, MetricData, MetricDataView, MetricView, NumberDataPoint,
    Resource, ResourceMetrics, ResourceMetricsView, ResourceView, ScopeMetrics,
    ScopeMetricsView, ScopeView, Sum, Summary, SummaryDataPoint, NumberDataPointView,
    SummaryDataPointView, HistogramDataPointView, ExponentialHistogramDataPointView,
};
use crate::otlp::attribute_store::AttributeStore;
use crate::otlp::related_data::RelatedData;
use crate::otlp::num_data_points::number_points_view;
use crate::otlp::summary_data_points::summary_points_view;
use crate::otlp::histogram_data_points::histogram_points_view;
use crate::otlp::exp_histogram_data_points::exp_histogram_points_view;
use crate::schema::consts;

verus! {

/// The type of a metric, as the `metric_type` column encodes it.
#[derive(Clone, Copy, Debug, PartialEq, Eq, Structural)]
pub enum MetricType {
    Empty,
    Gauge,
    Sum,
    Histogram,
    ExponentialHistogram,
    Summary,
}

impl MetricType {
    pub open spec fn spec_from_u8(v: u8) -> Option<MetricType> {
        if v == 0 {
            Some(MetricType::Empty)
        } else if v == 1 {
            Some(MetricType::Gauge)
        } else if v == 2 {
            Some(MetricType::Sum)
        } else if v == 3 {
            Some(MetricType::Histogram)
        } else if v == 4 {
            Some(MetricType::ExponentialHistogram)
        } else if v == 5 {
            Some(MetricType::Summary)
        } else {
            None
        }
    }

    /// The metric type that `v` stands for.
    pub fn from_u8(v: u8) -> (r: Option<MetricType>)
        ensures
            r == Self::spec_from_u8(v),
    {
        if v == 0 {
            Some(MetricType::Empty)
        } else if v == 1 {
            Some(MetricType::Gauge)
        } else if v == 2 {
            Some(MetricType::Sum)
        } else if v == 3 {
            Some(MetricType::Histogram)
        } else if v == 4 {
            Some(MetricType::ExponentialHistogram)
        } else if v == 5 {
            Some(MetricType::Summary)
        } else {
            None
        }
    }
}

/// The child columns of the struct column named `name`; none when it is
/// missing or is not a struct.
pub open spec fn struct_cols(cols: Seq<Column>, name: Seq<char>) -> Seq<Column> {
    match spec_column(cols, name) {
        Some(ArrayData::Struct(s)) => s.columns@,
        _ => Seq::empty(),
    }
}

/// The top-level columns of the main metrics table.
pub open spec fn main_required() -> Seq<&'static str> {
    seq![
        consts::RESOURCE,
        consts::SCOPE,
        consts::ID,
        consts::METRIC_TYPE,
        consts::NAME,
        consts::DESCRIPTION,
        consts::SCHEMA_URL,
        consts::UNIT,
        consts::AGGREGATION_TEMPORALITY,
        consts::IS_MONOTONIC,
    ]
}

/// The fields of the `resource` struct column.
pub open spec fn resource_required() -> Seq<&'static str> {
    seq![consts::ID, consts::DROPPED_ATTRIBUTES_COUNT, consts::SCHEMA_URL]
}

/// The fields of the `scope` struct column.
pub open spec fn scope_required() -> Seq<&'static str> {
    seq![consts::NAME, consts::VERSION, consts::DROPPED_ATTRIBUTES_COUNT, consts::ID]
}

pub open spec fn resource_types() -> Seq<DataType> {
    seq![DataType::UInt16, DataType::UInt32, DataType::Utf8]
}

pub open spec fn scope_types() -> Seq<DataType> {
    seq![DataType::Utf8, DataType::Utf8, DataType::UInt32, DataType::UInt16]
}

/// The top-level columns of the main table other than the two structs.
pub open spec fn metrics_required() -> Seq<&'static str> {
    seq![
        consts::ID,
        consts::METRIC_TYPE,
        consts::NAME,
        consts::DESCRIPTION,
        consts::SCHEMA_URL,
        consts::UNIT,
        consts::AGGREGATION_TEMPORALITY,
        consts::IS_MONOTONIC,
    ]
}

pub open spec fn metrics_types() -> Seq<DataType> {
    seq![
        DataType::UInt16,
        DataType::UInt8,
        DataType::Utf8,
        DataType::Utf8,
        DataType::Utf8,
        DataType::Utf8,
        DataType::Int32,
        DataType::Boolean,
    ]
}

/// The types of the columns of `main_required`, in the same order.
pub open spec fn main_types() -> Seq<DataType> {
    seq![
        DataType::Struct,
        DataType::Struct,
        DataType::UInt16,
        DataType::UInt8,
        DataType::Utf8,
        DataType::Utf8,
        DataType::Utf8,
        DataType::Utf8,
        DataType::Int32,
        DataType::Boolean,
    ]
}

pub open spec fn resource_columns_ok(rc: Seq<Column>) -> bool {
    columns_ok(rc, resource_required(), resource_required(), resource_types())
}

pub open spec fn scope_columns_ok(sc: Seq<Column>) -> bool {
    columns_ok(sc, scope_required(), scope_required(), scope_types())
}

/// Whether every column of the main metrics table, and every field of its
/// `resource` and `scope` structs, is present with its expected type.
pub open spec fn main_columns_ok(cols: Seq<Column>) -> bool {
    &&& columns_ok(cols, main_required(), main_required(), main_types())
    &&& resource_columns_ok(struct_cols(cols, consts::RESOURCE@))
    &&& scope_columns_ok(struct_cols(cols, consts::SCOPE@))
}

/// The metric type cell of row `i`, a null cell reading as zero.
pub open spec fn metric_type_at(cols: Seq<Column>, i: int) -> u8 {
    match cell_u8(cols, consts::METRIC_TYPE@, i) {
        Some(v) => v,
        None => 0,
    }
}

/// Whether row `i` has a metric type of data (`1..=5`).
pub open spec fn valid_metric_type(cols: Seq<Column>, i: int) -> bool {
    1 <= metric_type_at(cols, i) <= 5
}

/// The columns of the `resource` struct.
pub struct ResourceArrays<'a> {
    pub id: &'a PrimitiveArray<u16>,
    pub dropped_attributes_count: &'a PrimitiveArray<u32>,
    pub schema_url: &'a StringArray,
}

impl<'a> ResourceArrays<'a> {
    pub open spec fn matches_columns(&self, rc: Seq<Column>) -> bool {
        &&& spec_column(rc, consts::ID@) == Some(ArrayData::UInt16(*self.id))
        &&& spec_column(rc, consts::DROPPED_ATTRIBUTES_COUNT@) == Some(
            ArrayData::UInt32(*self.dropped_attributes_count),
        )
        &&& spec_column(rc, consts::SCHEMA_URL@) == Some(ArrayData::Utf8(*self.schema_url))
    }

    /// Reads the `resource` struct column of the main table: its fields are
    /// checked for presence first, then for their types.
    pub fn try_from(rb: &'a RecordBatch) -> (r: Result<ResourceArrays<'a>, Error>)
        ensures
            match spec_column(rb.columns@, consts::RESOURCE@) {
                None => r matches Err(e) && e.is_column_not_found(consts::RESOURCE@),
                Some(ArrayData::Struct(s)) => {
                    &&& r is Ok <==> resource_columns_ok(s.columns@)
                    &&& r matches Ok(a) ==> a.matches_columns(s.columns@)
                    &&& r matches Err(e) ==> is_columns_error(
                        e,
                        s.columns@,
                        resource_required(),
                        resource_required(),
                        resource_types(),
                    )
                },
                Some(d) => r matches Err(e) && e.is_type_mismatch(
                    consts::RESOURCE@,
                    DataType::Struct,
                    d.spec_data_type(),
                ),
            },
    {
        let struct_array = match get_struct_array(&rb.columns, consts::RESOURCE) {
            Ok(s) => s,
            Err(e) => return Err(e),
        };
        let rc = &struct_array.columns;
        let required = [consts::ID, consts::DROPPED_ATTRIBUTES_COUNT, consts::SCHEMA_URL];
        let types = [DataType::UInt16, DataType::UInt32, DataType::Utf8];
        assert(required@ == resource_required());
        assert(types@ == resource_types());
        if let Err(e) = check_columns(rc, &required, &required, &types) {
            return Err(e);
        }
        proof {
            lemma_none_missing(rc@, resource_required(), 0);
            lemma_first_mistyped(rc@, resource_required(), resource_types(), 0);
            assert(spec_column(rc@, resource_required()[0]@) is Some);
            assert(spec_column(rc@, resource_required()[1]@) is Some);
            assert(spec_column(rc@, resource_required()[2]@) is Some);
        }
        let id = match get_u16_array(rc, consts::ID) {
            Ok(a) => a,
            Err(e) => return Err(e),
        };
        let dropped_attributes_count = match get_u32_array(rc, consts::DROPPED_ATTRIBUTES_COUNT) {
            Ok(a) => a,
            Err(e) => return Err(e),
        };
        let schema_url = match get_string_array(rc, consts::SCHEMA_URL) {
            Ok(a) => a,
            Err(e) => return Err(e),
        };
        Ok(ResourceArrays { id, dropped_attributes_count, schema_url })
    }
}

/// The columns of the `scope` struct.
pub struct ScopeArrays<'a> {
    pub name: &'a StringArray,
    pub version: &'a StringArray,
    pub dropped_attributes_count: &'a PrimitiveArray<u32>,
    pub id: &'a PrimitiveArray<u16>,
}

/// What reading the `scope` struct column of `cols` yields: its fields are
/// checked for presence first, then for their types.
pub open spec fn scope_read_ok(
    cols: Seq<Column>,
    r: Result<(&StringArray, &StringArray, &PrimitiveArray<u32>, &PrimitiveArray<u16>), Error>,
) -> bool {
    match spec_column(cols, consts::SCOPE@) {
        None => r matches Err(e) && e.is_column_not_found(consts::SCOPE@),
        Some(ArrayData::Struct(s)) => {
            &&& r is Ok <==> scope_columns_ok(s.columns@)
            &&& r matches Err(e) ==> is_columns_error(
                e,
                s.columns@,
                scope_required(),
                scope_required(),
                scope_types(),
            )
            &&& r matches Ok((name, version, dropped, id)) ==> {
                &&& spec_column(s.columns@, consts::NAME@) == Some(ArrayData::Utf8(*name))
                &&& spec_column(s.columns@, consts::VERSION@) == Some(ArrayData::Utf8(*version))
                &&& spec_column(s.columns@, consts::DROPPED_ATTRIBUTES_COUNT@) == Some(
                    ArrayData::UInt32(*dropped),
                )
                &&& spec_column(s.columns@, consts::ID@) == Some(ArrayData::UInt16(*id))
            }
        },
        Some(d) => r matches Err(e) && e.is_type_mismatch(consts::SCOPE@, DataType::Struct, d.spec_data_type()),
    }
}

/// Reads the `scope` struct column of the main table: its name, version,
/// dropped attributes count and id columns.
pub fn scope_arrays_from_record_batch(rb: &RecordBatch) -> (r: Result<
    (&StringArray, &StringArray, &PrimitiveArray<u32>, &PrimitiveArray<u16>),
    Error,
>)
    ensures
        scope_read_ok(rb.columns@, r),
{
    let scope_array = match get_struct_array(&rb.columns, consts::SCOPE) {
        Ok(s) => s,
        Err(e) => return Err(e),
    };
    let sc = &scope_array.columns;
    let required = [consts::NAME, consts::VERSION, consts::DROPPED_ATTRIBUTES_COUNT, consts::ID];
    let types = [DataType::Utf8, DataType::Utf8, DataType::UInt32, DataType::UInt16];
    assert(required@ == scope_required());
    assert(types@ == scope_types());
    if let Err(e) = check_columns(sc, &required, &required, &types) {
        return Err(e);
    }
    proof {
        lemma_none_missing(sc@, scope_required(), 0);
        lemma_first_mistyped(sc@, scope_required(), scope_types(), 0);
        assert(spec_column(sc@, scope_required()[0]@) is Some);
        assert(spec_column(sc@, scope_required()[1]@) is Some);
        assert(spec_column(sc@, scope_required()[2]@) is Some);
        assert(spec_column(sc@, scope_required()[3]@) is Some);
    }
    let name_array = match get_string_array(sc, consts::NAME) {
        Ok(a) => a,
        Err(e) => return Err(e),
    };
    let version_array = match get_string_array(sc, consts::VERSION) {
        Ok(a) => a,
        Err(e) => return Err(e),
    };
    let dropped_attributes_count_array = match get_u32_array(sc, consts::DROPPED_ATTRIBUTES_COUNT) {
        Ok(a) => a,
        Err(e) => return Err(e),
    };
    let id_array = match get_u16_array(sc, consts::ID) {
        Ok(a) => a,
        Err(e) => return Err(e),
    };
    Ok((name_array, version_array, dropped_attributes_count_array, id_array))
}

impl<'a> ScopeArrays<'a> {
    pub open spec fn matches_columns(&self, sc: Seq<Column>) -> bool {
        &&& spec_column(sc, consts::NAME@) == Some(ArrayData::Utf8(*self.name))
        &&& spec_column(sc, consts::VERSION@) == Some(ArrayData::Utf8(*self.version))
        &&& spec_column(sc, consts::DROPPED_ATTRIBUTES_COUNT@) == Some(
            ArrayData::UInt32(*self.dropped_attributes_count),
        )
        &&& spec_column(sc, consts::ID@) == Some(ArrayData::UInt16(*self.id))
    }

    /// Reads the `scope` struct column of the main table.
    pub fn try_from(rb: &'a RecordBatch) -> (r: Result<ScopeArrays<'a>, Error>)
        ensures
            r is Ok <==> (spec_column(rb.columns@, consts::SCOPE@) matches Some(d) && d is Struct
                && scope_columns_ok(struct_cols(rb.columns@, consts::SCOPE@))),
            r matches Ok(a) ==> a.matches_columns(struct_cols(rb.columns@, consts::SCOPE@)),
            r matches Err(e) ==> scope_read_ok(rb.columns@, Err(e)),
    {
        match scope_arrays_from_record_batch(rb) {
            Ok((name, version, dropped_attributes_count, id)) => Ok(
                ScopeArrays { name, version, dropped_attributes_count, id },
            ),
            Err(e) => Err(e),
        }
    }
}

/// The top-level columns of the main metrics table.
pub struct MetricsArrays<'a> {
    pub id: &'a PrimitiveArray<u16>,
    pub metric_type: &'a PrimitiveArray<u8>,
    pub schema_url: &'a StringArray,
    pub name: &'a StringArray,
    pub description: &'a StringArray,
    pub unit: &'a StringArray,
    pub aggregation_temporality: &'a PrimitiveArray<i32>,
    pub is_monotonic: &'a PrimitiveArray<bool>,
}

impl<'a> MetricsArrays<'a> {
    pub open spec fn matches_columns(&self, cols: Seq<Column>) -> bool {
        &&& spec_column(cols, consts::ID@) == Some(ArrayData::UInt16(*self.id))
        &&& spec_column(cols, consts::METRIC_TYPE@) == Some(ArrayData::UInt8(*self.metric_type))
        &&& spec_column(cols, consts::SCHEMA_URL@) == Some(ArrayData::Utf8(*self.schema_url))
        &&& spec_column(cols, consts::NAME@) == Some(ArrayData::Utf8(*self.name))
        &&& spec_column(cols, consts::DESCRIPTION@) == Some(ArrayData::Utf8(*self.description))
        &&& spec_column(cols, consts::UNIT@) == Some(ArrayData::Utf8(*self.unit))
        &&& spec_column(cols, consts::AGGREGATION_TEMPORALITY@) == Some(
            ArrayData::Int32(*self.aggregation_temporality),
        )
        &&& spec_column(cols, consts::IS_MONOTONIC@) == Some(ArrayData::Boolean(*self.is_monotonic))
    }

    /// Reads the top-level columns of the main table other than the two
    /// structs: presence is checked first, then types.
    pub fn try_from(rb: &'a RecordBatch) -> (r: Result<MetricsArrays<'a>, Error>)
        ensures
            r is Ok <==> columns_ok(rb.columns@, metrics_required(), metrics_required(), metrics_types()),
            r matches Ok(a) ==> a.matches_columns(rb.columns@),
            r matches Err(e) ==> is_columns_error(
                e,
                rb.columns@,
                metrics_required(),
                metrics_required(),
                metrics_types(),
            ),
    {
        let cols = &rb.columns;
        let required = [
            consts::ID,
            consts::METRIC_TYPE,
            consts::NAME,
            consts::DESCRIPTION,
            consts::SCHEMA_URL,
            consts::UNIT,
            consts::AGGREGATION_TEMPORALITY,
            consts::IS_MONOTONIC,
        ];
        let types = [
            DataType::UInt16,
            DataType::UInt8,
            DataType::Utf8,
            DataType::Utf8,
            DataType::Utf8,
            DataType::Utf8,
            DataType::Int32,
            DataType::Boolean,
        ];
        assert(required@ == metrics_required());
        assert(types@ == metrics_types());
        if let Err(e) = check_columns(cols, &required, &required, &types) {
            return Err(e);
        }
        proof {
            lemma_none_missing(cols@, metrics_required(), 0);
            lemma_first_mistyped(cols@, metrics_required(), metrics_types(), 0);
            assert(spec_column(cols@, metrics_required()[0]@) is Some);
            assert(spec_column(cols@, metrics_required()[1]@) is Some);
            assert(spec_column(cols@, metrics_required()[2]@) is Some);
            assert(spec_column(cols@, metrics_required()[3]@) is Some);
            assert(spec_column(cols@, metrics_required()[4]@) is Some);
            assert(spec_column(cols@, metrics_required()[5]@) is Some);
            assert(spec_column(cols@, metrics_required()[6]@) is Some);
            assert(spec_column(cols@, metrics_required()[7]@) is Some);
        }
        let id = match get_u16_array(cols, consts::ID) {
            Ok(a) => a,
            Err(e) => return Err(e),
        };
        let metric_type = match get_u8_array(cols, consts::METRIC_TYPE) {
            Ok(a) => a,
            Err(e) => return Err(e),
        };
        let name = match get_string_array(cols, consts::NAME) {
            Ok(a) => a,
            Err(e) => return Err(e),
        };
        let description = match get_string_array(cols, consts::DESCRIPTION) {
            Ok(a) => a,
            Err(e) => return Err(e),
        };
        let schema_url = match get_string_array(cols, consts::SCHEMA_URL) {
            Ok(a) => a,
            Err(e) => return Err(e),
        };
        let unit = match get_string_array(cols, consts::UNIT) {
            Ok(a) => a,
            Err(e) => return Err(e),
        };
        let aggregation_temporality = match get_i32_array(cols, consts::AGGREGATION_TEMPORALITY) {
            Ok(a) => a,
            Err(e) => return Err(e),
        };
        let is_monotonic = match get_bool_array(cols, consts::IS_MONOTONIC) {
            Ok(a) => a,
            Err(e) => return Err(e),
        };
        Ok(
            MetricsArrays {
                id,
                metric_type,
                schema_url,
                name,
                description,
                unit,
                aggregation_temporality,
                is_monotonic,
            },
        )
    }
}

/// A list that can take one more element and hand it back in place.
pub trait AppendAndGet<T>: Sized {
    /// The elements of the list, in order.
    spec fn items(&self) -> Seq<T>;

    fn append_and_get(&mut self, value: T) -> (r: &mut T)
        ensures
            *r == value,
            final(self).items() == old(self).items().push(*final(r)),
    ;
}

impl<T> AppendAndGet<T> for Vec<T> {
    open spec fn items(&self) -> Seq<T> {
        self@
    }

    fn append_and_get(&mut self, value: T) -> (r: &mut T) {
        self.push(value);
        let last = self.len() - 1;
        &mut self[last]
    }
}

/// `out` with `s` appended to the scopes of its last resource.
pub open spec fn push_scope_view(out: Seq<ResourceMetricsView>, s: ScopeMetricsView) -> Seq<ResourceMetricsView> {
    let last = out.last();
    out.drop_last().push(ResourceMetricsView { scope_metrics: last.scope_metrics.push(s), ..last })
}

/// `out` with `m` appended to the metrics of the last scope of its last resource.
pub open spec fn push_metric_view(out: Seq<ResourceMetricsView>, m: MetricView) -> Seq<ResourceMetricsView> {
    let last = out.last();
    let scope = last.scope_metrics.last();
    out.drop_last().push(
        ResourceMetricsView {
            scope_metrics: last.scope_metrics.drop_last().push(
                ScopeMetricsView { metrics: scope.metrics.push(m), ..scope },
            ),
            ..last
        },
    )
}

/// The state of reducing the main table row by row.
pub struct ReduceState {
    pub res_id: u16,
    pub scope_id: u16,
    pub prev_res_id: Option<u16>,
    pub prev_scope_id: Option<u16>,
    pub metric_id: u16,
    pub out: Seq<ResourceMetricsView>,
    pub number: Map<u16, Seq<NumberDataPointView>>,
    pub summary: Map<u16, Seq<SummaryDataPointView>>,
    pub histogram: Map<u16, Seq<HistogramDataPointView>>,
    pub exp_histogram: Map<u16, Seq<ExponentialHistogramDataPointView>>,
}

/// The state before the first row, over the stores of `rd`.
pub open spec fn reduce_init(rd: RelatedData) -> ReduceState {
    ReduceState {
        res_id: 0,
        scope_id: 0,
        prev_res_id: None,
        prev_scope_id: None,
        metric_id: rd.metric_id,
        out: Seq::empty(),
        number: number_points_view(rd.number_data_points_store),
        summary: summary_points_view(rd.summary_data_points_store),
        histogram: histogram_points_view(rd.histogram_data_points_store),
        exp_histogram: exp_histogram_points_view(rd.e_histogram_data_points_store),
    }
}

/// The data of a metric of type `mt` (`1..=5`) with id `id`, moved out of
/// the stores of `s`, with the temporality and monotonicity of its row.
pub open spec fn metric_data(s: ReduceState, mt: u8, id: u16, temporality: i32, monotonic: bool) -> MetricDataView {
    if mt == 1 {
        MetricDataView::Gauge(list_or_empty(s.number, id))
    } else if mt == 2 {
        MetricDataView::Sum(list_or_empty(s.number, id), temporality, monotonic)
    } else if mt == 3 {
        MetricDataView::Histogram(list_or_empty(s.histogram, id), temporality)
    } else if mt == 4 {
        MetricDataView::ExponentialHistogram(list_or_empty(s.exp_histogram, id), temporality)
    } else {
        MetricDataView::Summary(list_or_empty(s.summary, id))
    }
}

/// The resource metrics that row `i` opens for resource `res_id`.
pub open spec fn resource_view_at(
    rc: Seq<Column>,
    res_attrs: Map<u16, Seq<KeyValueView>>,
    res_id: u16,
    i: int,
) -> ResourceMetricsView {
    ResourceMetricsView {
        resource: Some(
            ResourceView {
                attributes: list_or_empty(res_attrs, res_id),
                dropped_attributes_count: or_zero32(cell_u32(rc, consts::DROPPED_ATTRIBUTES_COUNT@, i)),
            },
        ),
        scope_metrics: Seq::empty(),
        schema_url: cell_str_or_empty(rc, consts::SCHEMA_URL@, i),
    }
}

/// The scope metrics that row `i` opens for scope `scope_id`; its schema
/// url is the row's top-level one.
pub open spec fn scope_view_at(
    cols: Seq<Column>,
    sc: Seq<Column>,
    scope_attrs: Map<u16, Seq<KeyValueView>>,
    scope_id: u16,
    i: int,
) -> ScopeMetricsView {
    ScopeMetricsView {
        scope: Some(
            ScopeView {
                name: cell_str_or_empty(sc, consts::NAME@, i),
                version: cell_str_or_empty(sc, consts::VERSION@, i),
                attributes: list_or_empty(scope_attrs, scope_id),
                dropped_attributes_count: or_zero32(cell_u32(sc, consts::DROPPED_ATTRIBUTES_COUNT@, i)),
            },
        ),
        metrics: Seq::empty(),
        schema_url: cell_str_or_empty(cols, consts::SCHEMA_URL@, i),
    }
}

/// The metric of row `i`, with data `data`.
pub open spec fn metric_view_at(cols: Seq<Column>, i: int, data: MetricDataView) -> MetricView {
    MetricView {
        name: cell_str_or_empty(cols, consts::NAME@, i),
        description: cell_str_or_empty(cols, consts::DESCRIPTION@, i),
        unit: cell_str_or_empty(cols, consts::UNIT@, i),
        data: Some(data),
    }
}

pub open spec fn temporality_at(cols: Seq<Column>, i: int) -> i32 {
    match cell_i32(cols, consts::AGGREGATION_TEMPORALITY@, i) {
        Some(v) => v,
        None => 0,
    }
}

pub open spec fn monotonic_at(cols: Seq<Column>, i: int) -> bool {
    match cell_bool(cols, consts::IS_MONOTONIC@, i) {
        Some(v) => v,
        None => false,
    }
}

/// `s` with the data of a metric of type `mt` and id `id` moved out.
pub open spec fn take_data(s: ReduceState, mt: u8, id: u16) -> ReduceState {
    ReduceState {
        number: if mt == 1 || mt == 2 {
            s.number.insert(id, Seq::empty())
        } else {
            s.number
        },
        histogram: if mt == 3 {
            s.histogram.insert(id, Seq::empty())
        } else {
            s.histogram
        },
        exp_histogram: if mt == 4 {
            s.exp_histogram.insert(id, Seq::empty())
        } else {
            s.exp_histogram
        },
        summary: if mt == 5 {
            s.summary.insert(id, Seq::empty())
        } else {
            s.summary
        },
        ..s
    }
}

/// Row `i` of the main table. The running resource id advances by the
/// row's `resource.id`; when it differs from the previous row's, a new
/// resource starts, with the attributes of that id. The running scope id
/// advances likewise; a new scope starts when it differs or a new resource
/// started. Every row appends a metric to the current scope, whose data is
/// moved out of the store of its type at the running metric id.
pub open spec fn reduce_step(
    s: ReduceState,
    cols: Seq<Column>,
    res_attrs: Map<u16, Seq<KeyValueView>>,
    scope_attrs: Map<u16, Seq<KeyValueView>>,
    i: int,
) -> ReduceState {
    let rc = struct_cols(cols, consts::RESOURCE@);
    let sc = struct_cols(cols, consts::SCOPE@);
    let res_id = wrap16(s.res_id + or_zero16(cell_u16(rc, consts::ID@, i)));
    let new_res = s.prev_res_id != Some(res_id);
    let out1 = if new_res {
        s.out.push(resource_view_at(rc, res_attrs, res_id, i))
    } else {
        s.out
    };
    let prev_scope_id = if new_res {
        None
    } else {
        s.prev_scope_id
    };
    let scope_id = wrap16(s.scope_id + or_zero16(cell_u16(sc, consts::ID@, i)));
    let out2 = if prev_scope_id != Some(scope_id) {
        push_scope_view(out1, scope_view_at(cols, sc, scope_attrs, scope_id, i))
    } else {
        out1
    };
    let metric_id = wrap16(s.metric_id + or_zero16(cell_u16(cols, consts::ID@, i)));
    let mt = metric_type_at(cols, i);
    let data = metric_data(s, mt, metric_id, temporality_at(cols, i), monotonic_at(cols, i));
    let moved = take_data(s, mt, metric_id);
    ReduceState {
        res_id,
        scope_id,
        prev_res_id: Some(res_id),
        prev_scope_id: Some(scope_id),
        metric_id,
        out: push_metric_view(out2, metric_view_at(cols, i, data)),
        ..moved
    }
}

/// The first `n` rows of the main table, from state `init`.
pub open spec fn reduce_rows(
    init: ReduceState,
    cols: Seq<Column>,
    res_attrs: Map<u16, Seq<KeyValueView>>,
    scope_attrs: Map<u16, Seq<KeyValueView>>,
    n: int,
) -> ReduceState
    decreases n,
{
    if n <= 0 {
        init
    } else {
        reduce_step(reduce_rows(init, cols, res_attrs, scope_attrs, n - 1), cols, res_attrs, scope_attrs, n - 1)
    }
}

/// The first row among the first `n` whose metric type is not of data.
pub open spec fn first_bad_type(cols: Seq<Column>, n: int) -> Option<int>
    decreases n,
{
    if n <= 0 {
        None
    } else {
        match first_bad_type(cols, n - 1) {
            Some(k) => Some(k),
            None => if valid_metric_type(cols, n - 1) {
                None
            } else {
                Some(n - 1)
            },
        }
    }
}

fn push_scope(rms: &mut Vec<ResourceMetrics>, sm: ScopeMetrics)
    requires
        old(rms)@.map_values(|r: ResourceMetrics| r@).len() > 0,
    ensures
        final(rms)@.map_values(|r: ResourceMetrics| r@) == push_scope_view(
            old(rms)@.map_values(|r: ResourceMetrics| r@),
            sm@,
        ),
{
    let mut last = rms.pop().unwrap();
    let ghost old_last = last;
    last.scope_metrics.append_and_get(sm);
    rms.push(last);
    proof {
        assert(last@.scope_metrics =~= old_last@.scope_metrics.push(sm@));
        assert(final(rms)@.map_values(|r: ResourceMetrics| r@) =~= push_scope_view(
            old(rms)@.map_values(|r: ResourceMetrics| r@),
            sm@,
        ));
    }
}

fn push_metric(rms: &mut Vec<ResourceMetrics>, m: Metric)
    requires
        old(rms)@.map_values(|r: ResourceMetrics| r@).len() > 0,
        old(rms)@.map_values(|r: ResourceMetrics| r@).last().scope_metrics.len() > 0,
    ensures
        final(rms)@.map_values(|r: ResourceMetrics| r@) == push_metric_view(
            old(rms)@.map_values(|r: ResourceMetrics| r@),
            m@,
        ),
{
    let mut last = rms.pop().unwrap();
    let ghost old_last = last;
    let mut scope = last.scope_metrics.pop().unwrap();
    let ghost old_scope = scope;
    scope.metrics.push(m);
    last.scope_metrics.push(scope);
    rms.push(last);
    proof {
        assert(scope@.metrics =~= old_scope@.metrics.push(m@));
        assert(last@.scope_metrics =~= old_last@.scope_metrics.drop_last().push(
            ScopeMetricsView { metrics: old_scope@.metrics.push(m@), ..old_scope@ },
        ));
        assert(final(rms)@.map_values(|r: ResourceMetrics| r@) =~= push_metric_view(
            old(rms)@.map_values(|r: ResourceMetrics| r@),
            m@,
        ));
    }
}

fn new_resource_metrics(
    arrays: &ResourceArrays,
    store: &AttributeStore<u16>,
    res_id: u16,
    idx: usize,
    Ghost(rc): Ghost<Seq<Column>>,
) -> (r: ResourceMetrics)
    requires
        arrays.matches_columns(rc),
    ensures
        r@ == resource_view_at(rc, store.view(), res_id, idx as int),
{
    let attributes = match store.attribute_by_id(res_id) {
        Some(attrs) => copy_key_values(attrs),
        None => Vec::new(),
    };
    let resource = Resource {
        attributes,
        dropped_attributes_count: arrays.dropped_attributes_count.value_at_or_default(idx),
    };
    let r = ResourceMetrics {
        resource: Some(resource),
        scope_metrics: Vec::new(),
        schema_url: arrays.schema_url.value_at_or_default(idx),
    };
    proof {
        assert(kvs_view(Seq::<KeyValue>::empty()) =~= Seq::<KeyValueView>::empty());
        assert(r@.scope_metrics =~= Seq::<ScopeMetricsView>::empty());
    }
    r
}

fn new_scope_metrics(
    scope_arrays: &ScopeArrays,
    metrics_arrays: &MetricsArrays,
    store: &AttributeStore<u16>,
    scope_id: u16,
    idx: usize,
    Ghost(cols): Ghost<Seq<Column>>,
    Ghost(sc): Ghost<Seq<Column>>,
) -> (r: ScopeMetrics)
    requires
        scope_arrays.matches_columns(sc),
        metrics_arrays.matches_columns(cols),
    ensures
        r@ == scope_view_at(cols, sc, store.view(), scope_id, idx as int),
{
    let attributes = match store.attribute_by_id(scope_id) {
        Some(attrs) => copy_key_values(attrs),
        None => Vec::new(),
    };
    let scope = InstrumentationScope {
        name: scope_arrays.name.value_at_or_default(idx),
        version: scope_arrays.version.value_at_or_default(idx),
        attributes,
        dropped_attributes_count: scope_arrays.dropped_attributes_count.value_at_or_default(idx),
    };
    let r = ScopeMetrics {
        scope: Some(scope),
        metrics: Vec::new(),
        schema_url: metrics_arrays.schema_url.value_at_or_default(idx),
    };
    proof {
        assert(kvs_view(Seq::<KeyValue>::empty()) =~= Seq::<KeyValueView>::empty());
        assert(r@.metrics =~= Seq::<MetricView>::empty());
    }
    r
}

/// Whether the data point stores of `rd` are those of `s`.
pub open spec fn stores_match(s: ReduceState, rd: RelatedData) -> bool {
    &&& s.number == number_points_view(rd.number_data_points_store)
    &&& s.summary == summary_points_view(rd.summary_data_points_store)
    &&& s.histogram == histogram_points_view(rd.histogram_data_points_store)
    &&& s.exp_histogram == exp_histogram_points_view(rd.e_histogram_data_points_store)
}

fn take_metric_data(
    related_data: &mut RelatedData,
    metric_type: MetricType,
    mt: u8,
    metric_id: u16,
    aggregation_temporality: i32,
    is_monotonic: bool,
    Ghost(s): Ghost<ReduceState>,
) -> (r: MetricData)
    requires
        MetricType::spec_from_u8(mt) == Some(metric_type),
        metric_type != MetricType::Empty,
        stores_match(s, *old(related_data)),
    ensures
        r@ == metric_data(s, mt, metric_id, aggregation_temporality, is_monotonic),
        stores_match(take_data(s, mt, metric_id), *final(related_data)),
        *final(related_data) == with_reduced_stores(*old(related_data), *final(related_data)),
        final(related_data).metric_id == old(related_data).metric_id,
{
    let ghost before = *related_data;
    let r = match metric_type {
        MetricType::Gauge | MetricType::Sum => {
            let data_points = related_data.number_data_points_store.take(metric_id);
            proof {
                assert(data_points@.map_values(|p: NumberDataPoint| p@) =~= list_or_empty(s.number, metric_id));
                assert(Seq::<NumberDataPoint>::empty().map_values(|p: NumberDataPoint| p@)
                    =~= Seq::<NumberDataPointView>::empty());
                assert(number_points_view(related_data.number_data_points_store) =~= s.number.insert(
                    metric_id,
                    Seq::empty(),
                ));
            }
            if metric_type == MetricType::Gauge {
                MetricData::Gauge(Gauge { data_points })
            } else {
                MetricData::Sum(Sum { data_points, aggregation_temporality, is_monotonic })
            }
        },
        MetricType::Histogram => {
            let data_points = related_data.histogram_data_points_store.take(metric_id);
            proof {
                assert(data_points@.map_values(|p: HistogramDataPoint| p@) =~= list_or_empty(s.histogram, metric_id));
                assert(Seq::<HistogramDataPoint>::empty().map_values(|p: HistogramDataPoint| p@)
                    =~= Seq::<HistogramDataPointView>::empty());
                assert(histogram_points_view(related_data.histogram_data_points_store) =~= s.histogram.insert(
                    metric_id,
                    Seq::empty(),
                ));
            }
            MetricData::Histogram(Histogram { data_points, aggregation_temporality })
        },
        MetricType::ExponentialHistogram => {
            let data_points = related_data.e_histogram_data_points_store.take(metric_id);
            proof {
                assert(data_points@.map_values(|p: ExponentialHistogramDataPoint| p@) =~= list_or_empty(
                    s.exp_histogram,
                    metric_id,
                ));
                assert(Seq::<ExponentialHistogramDataPoint>::empty().map_values(
                    |p: ExponentialHistogramDataPoint| p@,
                ) =~= Seq::<ExponentialHistogramDataPointView>::empty());
                assert(exp_histogram_points_view(related_data.e_histogram_data_points_store)
                    =~= s.exp_histogram.insert(metric_id, Seq::empty()));
            }
            MetricData::ExponentialHistogram(ExponentialHistogram { data_points, aggregation_temporality })
        },
        _ => {
            let data_points = related_data.summary_data_points_store.take(metric_id);
            proof {
                assert(data_points@.map_values(|p: SummaryDataPoint| p@) =~= list_or_empty(s.summary, metric_id));
                assert(Seq::<SummaryDataPoint>::empty().map_values(|p: SummaryDataPoint| p@)
                    =~= Seq::<SummaryDataPointView>::empty());
                assert(summary_points_view(related_data.summary_data_points_store) =~= s.summary.insert(
                    metric_id,
                    Seq::empty(),
                ));
            }
            MetricData::Summary(Summary { data_points })
        },
    };
    r
}

fn new_metric(metrics_arrays: &MetricsArrays, idx: usize, data: MetricData, Ghost(cols): Ghost<Seq<Column>>) -> (r:
    Metric)
    requires
        metrics_arrays.matches_columns(cols),
    ensures
        r@ == metric_view_at(cols, idx as int, data@),
{
    Metric {
        name: metrics_arrays.name.value_at_or_default(idx),
        description: metrics_arrays.description.value_at_or_default(idx),
        unit: metrics_arrays.unit.value_at_or_default(idx),
        data: Some(data),
    }
}

proof fn lemma_first_bad_stable(cols: Seq<Column>, k: int, n: int)
    requires
        0 <= k,
        k + 1 <= n,
        first_bad_type(cols, k + 1) == Some(k),
    ensures
        first_bad_type(cols, n) == Some(k),
    decreases n,
{
    if n > k + 1 {
        lemma_first_bad_stable(cols, k, n - 1);
    }
}

/// The related data `rd` with its running metric id and data point stores
/// taken from `other`, and every other store kept.
pub open spec fn with_reduced_stores(rd: RelatedData, other: RelatedData) -> RelatedData {
    RelatedData {
        metric_id: other.metric_id,
        number_data_points_store: other.number_data_points_store,
        summary_data_points_store: other.summary_data_points_store,
        histogram_data_points_store: other.histogram_data_points_store,
        e_histogram_data_points_store: other.e_histogram_data_points_store,
        ..rd
    }
}

/// The position of the reduction in the resource and scope groups.
struct Cursor {
    res_id: u16,
    scope_id: u16,
    prev_res_id: Option<u16>,
    prev_scope_id: Option<u16>,
}

/// Whether the cursor, the tree built so far and the stores are those of `s`.
spec fn matches_state(s: ReduceState, c: Cursor, out: Seq<ResourceMetricsView>, rd: RelatedData) -> bool {
    &&& s.res_id == c.res_id
    &&& s.scope_id == c.scope_id
    &&& s.prev_res_id == c.prev_res_id
    &&& s.prev_scope_id == c.prev_scope_id
    &&& s.metric_id == rd.metric_id
    &&& s.out == out
    &&& stores_match(s, rd)
    &&& c.prev_res_id is Some ==> out.len() > 0
    &&& c.prev_scope_id is Some ==> out.len() > 0 && out.last().scope_metrics.len() > 0
}

/// Reduces row `idx` of the main table.
#[verifier::rlimit(40)]
fn reduce_row(
    cursor: &mut Cursor,
    metrics: &mut ExportMetricsServiceRequest,
    related_data: &mut RelatedData,
    resource_arrays: &ResourceArrays,
    scope_arrays: &ScopeArrays,
    metrics_arrays: &MetricsArrays,
    idx: usize,
    Ghost(cols): Ghost<Seq<Column>>,
    Ghost(s0): Ghost<ReduceState>,
) -> (r: Result<(), Error>)
    requires
        resource_arrays.matches_columns(struct_cols(cols, consts::RESOURCE@)),
        scope_arrays.matches_columns(struct_cols(cols, consts::SCOPE@)),
        metrics_arrays.matches_columns(cols),
        matches_state(s0, *old(cursor), old(metrics)@, *old(related_data)),
    ensures
        r is Ok <==> valid_metric_type(cols, idx as int),
        r is Err ==> if metric_type_at(cols, idx as int) == 0 {
            r matches Err(e) && e is EmptyMetricType
        } else {
            r matches Err(Error::UnrecognizedMetricType { metric_type }) && metric_type == metric_type_at(
                cols,
                idx as int,
            ) as i32
        },
        *final(related_data) == with_reduced_stores(*old(related_data), *final(related_data)),
        r is Ok ==> matches_state(
            reduce_step(
                s0,
                cols,
                old(related_data).res_attr_map_store.view(),
                old(related_data).scope_attr_map_store.view(),
                idx as int,
            ),
            *final(cursor),
            final(metrics)@,
            *final(related_data),
        ),
{
    let ghost rc = struct_cols(cols, consts::RESOURCE@);
    let ghost sc = struct_cols(cols, consts::SCOPE@);
    let ghost res_attrs = related_data.res_attr_map_store.view();
    let ghost scope_attrs = related_data.scope_attr_map_store.view();
    let res_delta_id = resource_arrays.id.value_at_or_default(idx);
    cursor.res_id = cursor.res_id.wrapping_add(res_delta_id);
    let new_res = match cursor.prev_res_id {
        Some(p) => p != cursor.res_id,
        None => true,
    };
    if new_res {
        cursor.prev_res_id = Some(cursor.res_id);
        cursor.prev_scope_id = None;
        let res_metrics = new_resource_metrics(
            resource_arrays,
            &related_data.res_attr_map_store,
            cursor.res_id,
            idx,
            Ghost(rc),
        );
        metrics.resource_metrics.push(res_metrics);
        proof {
            assert(metrics@ =~= s0.out.push(res_metrics@));
        }
    }
    let scope_delta_id = scope_arrays.id.value_at_or_default(idx);
    cursor.scope_id = cursor.scope_id.wrapping_add(scope_delta_id);
    let new_scope = match cursor.prev_scope_id {
        Some(p) => p != cursor.scope_id,
        None => true,
    };
    if new_scope {
        cursor.prev_scope_id = Some(cursor.scope_id);
        let scope_metrics = new_scope_metrics(
            scope_arrays,
            metrics_arrays,
            &related_data.scope_attr_map_store,
            cursor.scope_id,
            idx,
            Ghost(cols),
            Ghost(sc),
        );
        push_scope(&mut metrics.resource_metrics, scope_metrics);
    }
    let delta_id = metrics_arrays.id.value_at_or_default(idx);
    let metric_id = related_data.metric_id_from_delta(delta_id);
    let metric_type_val = metrics_arrays.metric_type.value_at_or_default(idx);
    let metric_type = match MetricType::from_u8(metric_type_val) {
        Some(MetricType::Empty) => {
            return Err(Error::EmptyMetricType);
        },
        Some(t) => t,
        None => {
            return Err(Error::UnrecognizedMetricType { metric_type: metric_type_val as i32 });
        },
    };
    let aggregation_temporality = metrics_arrays.aggregation_temporality.value_at_or_default(idx);
    let is_monotonic = metrics_arrays.is_monotonic.value_at_or_default(idx);
    let data = take_metric_data(
        related_data,
        metric_type,
        metric_type_val,
        metric_id,
        aggregation_temporality,
        is_monotonic,
        Ghost(s0),
    );
    let metric = new_metric(metrics_arrays, idx, data, Ghost(cols));
    push_metric(&mut metrics.resource_metrics, metric);
    Ok(())
}

/// The error of reducing the main table `cols` of `n` rows: a missing or
/// mistyped top-level column first, then a missing or mistyped field of the
/// `resource` struct, then of the `scope` struct, then the first row whose
/// metric type is not one of data.
pub open spec fn metrics_from_error(e: Error, cols: Seq<Column>, n: int) -> bool {
    if !columns_ok(cols, main_required(), main_required(), main_types()) {
        is_columns_error(e, cols, main_required(), main_required(), main_types())
    } else if !resource_columns_ok(struct_cols(cols, consts::RESOURCE@)) {
        is_columns_error(
            e,
            struct_cols(cols, consts::RESOURCE@),
            resource_required(),
            resource_required(),
            resource_types(),
        )
    } else if !scope_columns_ok(struct_cols(cols, consts::SCOPE@)) {
        is_columns_error(e, struct_cols(cols, consts::SCOPE@), scope_required(), scope_required(), scope_types())
    } else {
        match first_bad_type(cols, n) {
            Some(k) => if metric_type_at(cols, k) == 0 {
                e is EmptyMetricType
            } else {
                e matches Error::UnrecognizedMetricType { metric_type } && metric_type == metric_type_at(cols, k)
                    as i32
            },
            None => false,
        }
    }
}

/// Builds the metric tree of the main metrics table `rb`, moving the data
/// points of each metric out of the stores of `related_data`.
#[verifier::rlimit(60)]
pub fn metrics_from(rb: &RecordBatch, related_data: &mut RelatedData) -> (r: Result<
    ExportMetricsServiceRequest,
    Error,
>)
    ensures
        r is Ok <==> main_columns_ok(rb.columns@) && first_bad_type(rb.columns@, rb.num_rows as int) is None,
        r matches Err(e) ==> metrics_from_error(e, rb.columns@, rb.num_rows as int),
        r matches Ok(req) ==> {
            let s = reduce_rows(
                reduce_init(*old(related_data)),
                rb.columns@,
                old(related_data).res_attr_map_store.view(),
                old(related_data).scope_attr_map_store.view(),
                rb.num_rows as int,
            );
            &&& req@ == s.out
            &&& *final(related_data) == with_reduced_stores(*old(related_data), *final(related_data))
            &&& final(related_data).metric_id == s.metric_id
            &&& stores_match(s, *final(related_data))
        },
{
    let cols = &rb.columns;
    let required = [
        consts::RESOURCE,
        consts::SCOPE,
        consts::ID,
        consts::METRIC_TYPE,
        consts::NAME,
        consts::DESCRIPTION,
        consts::SCHEMA_URL,
        consts::UNIT,
        consts::AGGREGATION_TEMPORALITY,
        consts::IS_MONOTONIC,
    ];
    let types = [
        DataType::Struct,
        DataType::Struct,
        DataType::UInt16,
        DataType::UInt8,
        DataType::Utf8,
        DataType::Utf8,
        DataType::Utf8,
        DataType::Utf8,
        DataType::Int32,
        DataType::Boolean,
    ];
    assert(required@ == main_required());
    assert(types@ == main_types());
    if let Err(e) = check_columns(cols, &required, &required, &types) {
        return Err(e);
    }
    proof {
        lemma_none_missing(cols@, main_required(), 0);
        lemma_first_mistyped(cols@, main_required(), main_types(), 0);
        assert(spec_column(cols@, main_required()[0]@) is Some);
        assert(spec_column(cols@, main_required()[1]@) is Some);
        assert(spec_column(cols@, main_required()[2]@) is Some);
        assert(spec_column(cols@, main_required()[3]@) is Some);
        assert(spec_column(cols@, main_required()[4]@) is Some);
        assert(spec_column(cols@, main_required()[5]@) is Some);
        assert(spec_column(cols@, main_required()[6]@) is Some);
        assert(spec_column(cols@, main_required()[7]@) is Some);
        assert(spec_column(cols@, main_required()[8]@) is Some);
        assert(spec_column(cols@, main_required()[9]@) is Some);
    }
    let resource_arrays = match ResourceArrays::try_from(rb) {
        Ok(a) => a,
        Err(e) => return Err(e),
    };
    let scope_arrays = match ScopeArrays::try_from(rb) {
        Ok(a) => a,
        Err(e) => return Err(e),
    };
    proof {
        assert forall|j: int| 0 <= j < 8 implies spec_column(cols@, #[trigger] metrics_required()[j]@) is Some
            && (spec_column(cols@, metrics_required()[j]@) matches Some(d) ==> d.spec_data_type()
            == metrics_types()[j]) by {
                if j == 0 {
                    assert(main_required()[2] == metrics_required()[0]);
                } else if j == 1 {
                    assert(main_required()[3] == metrics_required()[1]);
                } else if j == 2 {
                    assert(main_required()[4] == metrics_required()[2]);
                } else if j == 3 {
                    assert(main_required()[5] == metrics_required()[3]);
                } else if j == 4 {
                    assert(main_required()[6] == metrics_required()[4]);
                } else if j == 5 {
                    assert(main_required()[7] == metrics_required()[5]);
                } else if j == 6 {
                    assert(main_required()[8] == metrics_required()[6]);
                } else if j == 7 {
                    assert(main_required()[9] == metrics_required()[7]);
                }
        }
        lemma_columns_ok_intro(cols@, metrics_required(), metrics_required(), metrics_types());
    }
    let metrics_arrays = match MetricsArrays::try_from(rb) {
        Ok(a) => a,
        Err(e) => return Err(e),
    };
    let ghost init = reduce_init(*related_data);
    let ghost res_attrs = related_data.res_attr_map_store.view();
    let ghost scope_attrs = related_data.scope_attr_map_store.view();
    let mut metrics = ExportMetricsServiceRequest { resource_metrics: Vec::new() };
    let mut cursor = Cursor { res_id: 0, scope_id: 0, prev_res_id: None, prev_scope_id: None };
    let n = rb.num_rows;
    let mut idx: usize = 0;
    proof {
        assert(metrics@ =~= Seq::<ResourceMetricsView>::empty());
    }
    while idx < n
        invariant
            0 <= idx <= n,
            n == rb.num_rows,
            cols == &rb.columns,
            main_columns_ok(cols@),
            first_missing_from(cols@, main_required(), 0) is None,
            resource_arrays.matches_columns(struct_cols(cols@, consts::RESOURCE@)),
            scope_arrays.matches_columns(struct_cols(cols@, consts::SCOPE@)),
            metrics_arrays.matches_columns(cols@),
            first_bad_type(cols@, idx as int) is None,
            init == reduce_init(*old(related_data)),
            res_attrs == old(related_data).res_attr_map_store.view(),
            scope_attrs == old(related_data).scope_attr_map_store.view(),
            *related_data == with_reduced_stores(*old(related_data), *related_data),
            matches_state(
                reduce_rows(init, cols@, res_attrs, scope_attrs, idx as int),
                cursor,
                metrics@,
                *related_data,
            ),
        decreases n - idx,
    {
        let ghost s0 = reduce_rows(init, cols@, res_attrs, scope_attrs, idx as int);
        let ghost i = idx as int;
        let step = reduce_row(
            &mut cursor,
            &mut metrics,
            related_data,
            &resource_arrays,
            &scope_arrays,
            &metrics_arrays,
            idx,
            Ghost(cols@),
            Ghost(s0),
        );
        if let Err(e) = step {
            proof {
                assert(first_bad_type(cols@, i + 1) == Some(i));
                lemma_first_bad_stable(cols@, i, n as int);
            }
            return Err(e);
        }
        proof {
            assert(first_bad_type(cols@, i + 1) is None);
        }
        idx += 1;
    }
    Ok(metrics)
}

/// The number of data points of a metric's data.
pub open spec fn points_len(d: MetricDataView) -> nat {
    match d {
        MetricDataView::Gauge(p) => p.len(),
        MetricDataView::Sum(p, _, _) => p.len(),
        MetricDataView::Histogram(p, _) => p.len(),
        MetricDataView::ExponentialHistogram(p, _) => p.len(),
        MetricDataView::Summary(p) => p.len(),
    }
}

/// The running metric id of row `i`.
pub open spec fn metric_id_of_row(
    init: ReduceState,
    cols: Seq<Column>,
    res_attrs: Map<u16, Seq<KeyValueView>>,
    scope_attrs: Map<u16, Seq<KeyValueView>>,
    i: int,
) -> u16 {
    reduce_rows(init, cols, res_attrs, scope_attrs, i + 1).metric_id
}

/// Once the main table has been reduced, the store that supplied each
/// metric holds nothing at that metric's id: reading the same metric from
/// the stores again yields no data points.
pub proof fn lemma_metrics_drained(
    init: ReduceState,
    cols: Seq<Column>,
    res_attrs: Map<u16, Seq<KeyValueView>>,
    scope_attrs: Map<u16, Seq<KeyValueView>>,
    n: int,
)
    requires
        first_bad_type(cols, n) is None,
    ensures
        forall|i: int|
            0 <= i < n ==> points_len(
                metric_data(
                    reduce_rows(init, cols, res_attrs, scope_attrs, n),
                    metric_type_at(cols, i),
                    #[trigger] metric_id_of_row(init, cols, res_attrs, scope_attrs, i),
                    0,
                    false,
                ),
            ) == 0,
    decreases n,
{
    if n > 0 {
        assert(first_bad_type(cols, n - 1) is None);
        assert(valid_metric_type(cols, n - 1));
        lemma_metrics_drained(init, cols, res_attrs, scope_attrs, n - 1);
        let prev = reduce_rows(init, cols, res_attrs, scope_attrs, n - 1);
        let t = reduce_rows(init, cols, res_attrs, scope_attrs, n);
        assert forall|i: int| 0 <= i < n implies points_len(
            metric_data(
                t,
                metric_type_at(cols, i),
                #[trigger] metric_id_of_row(init, cols, res_attrs, scope_attrs, i),
                0,
                false,
            ),
        ) == 0 by {
            if i < n - 1 {
                assert(points_len(
                    metric_data(prev, metric_type_at(cols, i), metric_id_of_row(init, cols, res_attrs, scope_attrs, i), 0, false),
                ) == 0);
                lemma_first_bad_none(cols, n - 1, i);
            }
        }
    }
}

proof fn lemma_first_bad_none(cols: Seq<Column>, n: int, i: int)
    requires
        0 <= i < n,
        first_bad_type(cols, n) is None,
    ensures
        valid_metric_type(cols, i),
    decreases n,
{
    if i < n - 1 {
        lemma_first_bad_none(cols, n - 1, i);
    }
}

/// The store that a metric of type `mt` takes its data from: 1 for number
/// data points (gauges and sums), 3 histograms, 4 exponential histograms,
/// 5 summaries, 0 for none.
pub open spec fn store_of_type(mt: u8) -> int {
    if mt == 1 || mt == 2 {
        1
    } else if 3 <= mt <= 5 {
        mt as int
    } else {
        0
    }
}

/// Whether some of the first `n` rows takes data from store `kind` at `id`.
pub open spec fn some_row_takes(
    init: ReduceState,
    cols: Seq<Column>,
    res_attrs: Map<u16, Seq<KeyValueView>>,
    scope_attrs: Map<u16, Seq<KeyValueView>>,
    n: int,
    kind: int,
    id: u16,
) -> bool {
    exists|i: int|
        0 <= i < n && #[trigger] metric_id_of_row(init, cols, res_attrs, scope_attrs, i) == id && store_of_type(
            metric_type_at(cols, i),
        ) == kind
}

/// Reducing the main table leaves untouched the store entries that no row
/// takes data from: at such an id, a store holds after the reduction what
/// it held before.
pub proof fn lemma_untouched_ids_kept(
    init: ReduceState,
    cols: Seq<Column>,
    res_attrs: Map<u16, Seq<KeyValueView>>,
    scope_attrs: Map<u16, Seq<KeyValueView>>,
    n: int,
    id: u16,
)
    ensures
        ({
            let t = reduce_rows(init, cols, res_attrs, scope_attrs, n);
            &&& !some_row_takes(init, cols, res_attrs, scope_attrs, n, 1, id) ==> t.number.get(id) == init.number.get(id)
            &&& !some_row_takes(init, cols, res_attrs, scope_attrs, n, 3, id) ==> t.histogram.get(id)
                == init.histogram.get(id)
            &&& !some_row_takes(init, cols, res_attrs, scope_attrs, n, 4, id) ==> t.exp_histogram.get(id)
                == init.exp_histogram.get(id)
            &&& !some_row_takes(init, cols, res_attrs, scope_attrs, n, 5, id) ==> t.summary.get(id)
                == init.summary.get(id)
        }),
    decreases n,
{
    if n > 0 {
        lemma_untouched_ids_kept(init, cols, res_attrs, scope_attrs, n - 1, id);
        let last = metric_id_of_row(init, cols, res_attrs, scope_attrs, n - 1);
        assert forall|kind: int|
            !some_row_takes(init, cols, res_attrs, scope_attrs, n, kind, id) implies !some_row_takes(
            init,
            cols,
            res_attrs,
            scope_attrs,
            n - 1,
            kind,
            id,
        ) && (last != id || store_of_type(metric_type_at(cols, n - 1)) != kind) by {
            if some_row_takes(init, cols, res_attrs, scope_attrs, n - 1, kind, id) {
                let i = choose|i: int|
                    0 <= i < n - 1 && #[trigger] metric_id_of_row(init, cols, res_attrs, scope_attrs, i) == id
                        && store_of_type(metric_type_at(cols, i)) == kind;
                assert(0 <= i < n && metric_id_of_row(init, cols, res_attrs, scope_attrs, i) == id);
            }
            if last == id && store_of_type(metric_type_at(cols, n - 1)) == kind {
                assert(metric_id_of_row(init, cols, res_attrs, scope_attrs, n - 1) == id);
            }
        }
    }
}

/// A store entry that holds no data points stays so through the reduction,
/// so a later reduction over the same stores emits no data point twice.
pub proof fn lemma_drained_stays_empty(
    init: ReduceState,
    cols: Seq<Column>,
    res_attrs: Map<u16, Seq<KeyValueView>>,
    scope_attrs: Map<u16, Seq<KeyValueView>>,
    n: int,
    id: u16,
)
    ensures
        ({
            let t = reduce_rows(init, cols, res_attrs, scope_attrs, n);
            &&& list_or_empty(init.number, id).len() == 0 ==> list_or_empty(t.number, id).len() == 0
            &&& list_or_empty(init.histogram, id).len() == 0 ==> list_or_empty(t.histogram, id).len() == 0
            &&& list_or_empty(init.exp_histogram, id).len() == 0 ==> list_or_empty(t.exp_histogram, id).len() == 0
            &&& list_or_empty(init.summary, id).len() == 0 ==> list_or_empty(t.summary, id).len() == 0
        }),
    decreases n,
{
    if n > 0 {
        lemma_drained_stays_empty(init, cols, res_attrs, scope_attrs, n - 1, id);
    }
}

} // verus!

use otel_arrow_rust::arrays::{
    ArrayData, Column, ListArray, PrimitiveArray, RecordBatch, StringArray, StructArray,
};
use otel_arrow_rust::decode::record_message::{ArrowPayloadType, RecordMessage};

pub fn col(name: &str, data: ArrayData) -> Column {
    Column { name: name.to_string(), data }
}

pub fn u8s(v: &[Option<u8>]) -> ArrayData {
    ArrayData::UInt8(PrimitiveArray { values: v.to_vec() })
}

pub fn u16s(v: &[Option<u16>]) -> ArrayData {
    ArrayData::UInt16(PrimitiveArray { values: v.to_vec() })
}

pub fn u32s(v: &[Option<u32>]) -> ArrayData {
    ArrayData::UInt32(PrimitiveArray { values: v.to_vec() })
}

pub fn u64s(v: &[Option<u64>]) -> ArrayData {
    ArrayData::UInt64(PrimitiveArray { values: v.to_vec() })
}

pub fn i32s(v: &[Option<i32>]) -> ArrayData {
    ArrayData::Int32(PrimitiveArray { values: v.to_vec() })
}

pub fn i64s(v: &[Option<i64>]) -> ArrayData {
    ArrayData::Int64(PrimitiveArray { values: v.to_vec() })
}

pub fn f64s(v: &[Option<f64>]) -> ArrayData {
    ArrayData::Float64(PrimitiveArray { values: v.iter().map(|x| x.map(f64::to_bits)).collect() })
}

pub fn bools(v: &[Option<bool>]) -> ArrayData {
    ArrayData::Boolean(PrimitiveArray { values: v.to_vec() })
}

pub fn timestamps(v: &[Option<i64>]) -> ArrayData {
    ArrayData::TimestampNanosecond(PrimitiveArray { values: v.to_vec() })
}

pub fn strs(v: &[Option<&str>]) -> ArrayData {
    ArrayData::Utf8(StringArray { values: v.iter().map(|s| s.map(|s| s.to_string())).collect() })
}

pub fn structs(columns: Vec<Column>) -> ArrayData {
    ArrayData::Struct(StructArray { columns })
}

pub fn batch(num_rows: usize, columns: Vec<Column>) -> RecordBatch {
    RecordBatch { num_rows, columns }
}

pub fn message(payload_type: ArrowPayloadType, record: RecordBatch) -> RecordMessage {
    RecordMessage { batch_id: 1, schema_id: format!("{:?}", payload_type), payload_type, record }
}

/// One main metrics row per entry of `rows`:
/// (resource.id, scope.id, id, metric_type, name, aggregation_temporality, is_monotonic).
pub fn main_table(rows: &[(u16, u16, u16, u8, &str, i32, bool)]) -> RecordBatch {
    let n = rows.len();
    let resource = structs(vec![
        col("id", u16s(&rows.iter().map(|r| Some(r.0)).collect::<Vec<_>>())),
        col("dropped_attributes_count", u32s(&vec![Some(0); n])),
        col("schema_url", strs(&vec![Some("urn:r"); n])),
    ]);
    let scope = structs(vec![
        col("id", u16s(&rows.iter().map(|r| Some(r.1)).collect::<Vec<_>>())),
        col("name", strs(&vec![Some("s"); n])),
        col("version", strs(&vec![Some("v1"); n])),
        col("dropped_attributes_count", u32s(&vec![Some(0); n])),
    ]);
    batch(
        n,
        vec![
            col("resource", resource),
            col("scope", scope),
            col("id", u16s(&rows.iter().map(|r| Some(r.2)).collect::<Vec<_>>())),
            col("metric_type", u8s(&rows.iter().map(|r| Some(r.3)).collect::<Vec<_>>())),
            col("schema_url", strs(&vec![Some("urn:m"); n])),
            col("name", strs(&rows.iter().map(|r| Some(r.4)).collect::<Vec<_>>())),
            col("description", strs(&vec![Some(""); n])),
            col("unit", strs(&vec![Some("1"); n])),
            col("aggregation_temporality", i32s(&rows.iter().map(|r| Some(r.5)).collect::<Vec<_>>())),
            col("is_monotonic", bools(&rows.iter().map(|r| Some(r.6)).collect::<Vec<_>>())),
        ],
    )
}

/// A number data points table: (id, parent_id delta, time_unix_nano, int_value, double_value).
pub fn number_table(rows: &[(Option<u32>, u16, i64, Option<i64>, Option<f64>)]) -> RecordBatch {
    batch(
        rows.len(),
        vec![
            col("id", u32s(&rows.iter().map(|r| r.0).collect::<Vec<_>>())),
            col("parent_id", u16s(&rows.iter().map(|r| Some(r.1)).collect::<Vec<_>>())),
            col("start_time_unix_nano", timestamps(&vec![None; rows.len()])),
            col("time_unix_nano", timestamps(&rows.iter().map(|r| Some(r.2)).collect::<Vec<_>>())),
            col("int_value", i64s(&rows.iter().map(|r| r.3).collect::<Vec<_>>())),
            col("double_value", f64s(&rows.iter().map(|r| r.4).collect::<Vec<_>>())),
            col("flags", u32s(&vec![None; rows.len()])),
        ],
    )
}

/// An attributes table of string attributes: (parent_id cell, key, value).
pub fn string_attrs_table(rows: &[(u16, &str, &str)]) -> RecordBatch {
    batch(
        rows.len(),
        vec![
            col("parent_id", u16s(&rows.iter().map(|r| Some(r.0)).collect::<Vec<_>>())),
            col("key", strs(&rows.iter().map(|r| Some(r.1)).collect::<Vec<_>>())),
            col("type", u8s(&vec![Some(1); rows.len()])),
            col("str", strs(&rows.iter().map(|r| Some(r.2)).collect::<Vec<_>>())),
        ],
    )
}

/// A summary table with one row per entry of quantile lists, all under parent 1.
pub fn summary_table(lists: &[Vec<(f64, f64)>]) -> RecordBatch {
    let mut offsets = vec![0usize];
    let mut qs = Vec::new();
    let mut vs = Vec::new();
    for l in lists {
        for (q, v) in l {
            qs.push(Some(*q));
            vs.push(Some(*v));
        }
        offsets.push(qs.len());
    }
    let n = lists.len();
    let quantile = ArrayData::List(ListArray {
        offsets,
        validity: vec![true; n],
        values: Box::new(structs(vec![col("quantile", f64s(&qs)), col("value", f64s(&vs))])),
    });
    let mut parents = vec![Some(0u16); n];
    if n > 0 {
        parents[0] = Some(1);
    }
    batch(
        n,
        vec![
            col("parent_id", u16s(&parents)),
            col("start_time_unix_nano", timestamps(&vec![Some(5); n])),
            col("time_unix_nano", timestamps(&vec![Some(10); n])),
            col("count", u64s(&vec![Some(2); n])),
            col("sum", f64s(&vec![Some(4.0); n])),
            col("quantile", quantile),
            col("flags", u32s(&vec![Some(0); n])),
        ],
    )
}

use otel_arrow_rust::arrays::{
    get_u16_array, get_u16_array_opt, BinaryArray, DictionaryArray, NullableArrayAccessor,
};
use otel_arrow_rust::decode::decoder::{
    decode_metrics, main_payload_type, ArrowPayload, BatchArrowRecords, Consumer, StreamRoute,
};
use otel_arrow_rust::error::{DataType, Error};
use otel_arrow_rust::otlp::attribute_decoder::{AttrsParentIdDecoder, ParentIdEncoding};
use otel_arrow_rust::otlp::attribute_store::AttributeStore;
use otel_arrow_rust::otlp::exemplar::ExemplarsStore;
use otel_arrow_rust::otlp::metric::{metrics_from, AppendAndGet, MetricType, MetricsArrays, ResourceArrays};
use otel_arrow_rust::otlp::num_data_points::from_record_batch;
use otel_arrow_rust::otlp::proto::{
    AnyValue, ExportMetricsServiceRequest, MetricData, NumberValue,
};
use otel_arrow_rust::otlp::related_data::{from_record_messages, RelatedData};
use otel_arrow_rust::otlp::summary_data_points::QuantileArrays;
use otel_arrow_rust::otlp::data_point_store::SummaryDataPointsStore;

fn decode(msgs: Vec<RecordMessage>) -> Result<ExportMetricsServiceRequest, Error> {
    decode_metrics(&msgs)
}

fn payload(schema_id: &str, payload_type: i32) -> ArrowPayload {
    ArrowPayload { schema_id: schema_id.to_string(), payload_type, record: vec![1, 2, 3] }
}

fn route(consumer: &mut Consumer, schema_id: &str, payload_type: i32) -> Vec<String> {
    let (t, r) = consumer.route_payload(&payload(schema_id, payload_type)).unwrap();
    match r {
        StreamRoute::Feed => Vec::new(),
        StreamRoute::Create { evicted } => {
            consumer.install(schema_id.to_string(), t);
            evicted
        }
    }
}

#[test]
fn single_gauge_one_point() {
    let main = main_table(&[(1, 1, 1, 1, "m0", 0, false)]);
    let points = number_table(&[(None, 1, 100, Some(7), None)]);
    let req = decode(vec![
        message(ArrowPayloadType::UnivariateMetrics, main),
        message(ArrowPayloadType::NumberDataPoints, points),
    ])
    .unwrap();
    assert_eq!(req.resource_metrics.len(), 1);
    let rm = &req.resource_metrics[0];
    assert_eq!(rm.schema_url, "urn:r");
    assert_eq!(rm.resource.as_ref().unwrap().dropped_attributes_count, 0);
    assert_eq!(rm.scope_metrics.len(), 1);
    let sm = &rm.scope_metrics[0];
    assert_eq!(sm.scope.as_ref().unwrap().name, "s");
    assert_eq!(sm.scope.as_ref().unwrap().version, "v1");
    assert_eq!(sm.schema_url, "urn:m");
    assert_eq!(sm.metrics.len(), 1);
    let m = &sm.metrics[0];
    assert_eq!(m.name, "m0");
    assert_eq!(m.description, "");
    assert_eq!(m.unit, "1");
    match m.data.as_ref().unwrap() {
        MetricData::Gauge(g) => {
            assert_eq!(g.data_points.len(), 1);
            assert_eq!(g.data_points[0].time_unix_nano, 100);
            assert!(matches!(g.data_points[0].value, Some(NumberValue::AsInt(7))));
        }
        _ => panic!("expected a gauge"),
    }
}

#[test]
fn two_metrics_under_same_scope() {
    let main = main_table(&[(1, 1, 1, 2, "sum", 1, true), (0, 0, 1, 1, "gauge", 0, false)]);
    let points = number_table(&[(None, 1, 10, Some(1), None), (None, 1, 20, Some(2), None)]);
    let req = decode(vec![
        message(ArrowPayloadType::UnivariateMetrics, main),
        message(ArrowPayloadType::NumberDataPoints, points),
    ])
    .unwrap();
    assert_eq!(req.resource_metrics.len(), 1);
    assert_eq!(req.resource_metrics[0].scope_metrics.len(), 1);
    let metrics = &req.resource_metrics[0].scope_metrics[0].metrics;
    assert_eq!(metrics.len(), 2);
    match metrics[0].data.as_ref().unwrap() {
        MetricData::Sum(s) => {
            assert!(s.is_monotonic);
            assert_eq!(s.aggregation_temporality, 1);
            assert_eq!(s.data_points.len(), 1);
            assert_eq!(s.data_points[0].time_unix_nano, 10);
        }
        _ => panic!("expected a sum"),
    }
    match metrics[1].data.as_ref().unwrap() {
        MetricData::Gauge(g) => {
            assert_eq!(g.data_points.len(), 1);
            assert_eq!(g.data_points[0].time_unix_nano, 20);
        }
        _ => panic!("expected a gauge"),
    }
}

#[test]
fn resource_attributes_joined() {
    let main = main_table(&[(1, 1, 1, 1, "m0", 0, false)]);
    let attrs = string_attrs_table(&[(1, "k", "v")]);
    let req = decode(vec![
        message(ArrowPayloadType::UnivariateMetrics, main),
        message(ArrowPayloadType::ResourceAttrs, attrs),
    ])
    .unwrap();
    let resource = req.resource_metrics[0].resource.as_ref().unwrap();
    assert_eq!(resource.attributes.len(), 1);
    assert_eq!(resource.attributes[0].key, "k");
    assert!(matches!(&resource.attributes[0].value, Some(AnyValue::StringValue(s)) if s == "v"));
}

#[test]
fn schema_change_evicts_same_type_reader() {
    let mut consumer = Consumer::new();
    let number = ArrowPayloadType::NumberDataPoints.to_i32();
    assert!(route(&mut consumer, "A", number).is_empty());
    assert_eq!(consumer.schema_ids(), vec!["A".to_string()]);
    let evicted = route(&mut consumer, "B", number);
    assert_eq!(evicted, vec!["A".to_string()]);
    assert_eq!(consumer.schema_ids(), vec!["B".to_string()]);
    let points = number_table(&[(None, 1, 1, Some(1), None)]);
    let main = main_table(&[(1, 1, 1, 1, "m0", 0, false)]);
    assert!(decode(vec![
        message(ArrowPayloadType::UnivariateMetrics, main),
        message(ArrowPayloadType::NumberDataPoints, points),
    ])
    .is_ok());
}

#[test]
fn eviction_keeps_other_payload_types() {
    let mut consumer = Consumer::new();
    let number = ArrowPayloadType::NumberDataPoints.to_i32();
    let main = ArrowPayloadType::UnivariateMetrics.to_i32();
    route(&mut consumer, "M", main);
    route(&mut consumer, "A", number);
    let evicted = route(&mut consumer, "B", number);
    assert_eq!(evicted, vec!["A".to_string()]);
    assert_eq!(consumer.schema_ids(), vec!["M".to_string(), "B".to_string()]);
    assert!(route(&mut consumer, "B", number).is_empty());
    assert_eq!(consumer.schema_ids(), vec!["M".to_string(), "B".to_string()]);
}

#[test]
fn bad_metric_type_fails() {
    let main = main_table(&[(1, 1, 1, 9, "m0", 0, false)]);
    let r = decode(vec![message(ArrowPayloadType::UnivariateMetrics, main)]);
    assert!(matches!(r, Err(Error::UnrecognizedMetricType { metric_type: 9 })));
}

#[test]
fn empty_metric_type_fails() {
    let main = main_table(&[(1, 1, 1, 1, "ok", 0, false), (0, 0, 1, 0, "empty", 0, false)]);
    let r = decode(vec![message(ArrowPayloadType::UnivariateMetrics, main)]);
    assert!(matches!(r, Err(Error::EmptyMetricType)));
}

#[test]
fn summary_with_quantiles() {
    let table = summary_table(&[vec![(0.5, 1.0), (0.99, 3.0)]]);
    let store = SummaryDataPointsStore::from_record_batch(&table, &AttributeStore::new());
    let mut store = store.unwrap();
    let points = store.take(1);
    assert_eq!(points.len(), 1);
    let q = &points[0].quantile_values;
    assert_eq!(q.len(), 2);
    assert_eq!((f64::from_bits(q[0].quantile), f64::from_bits(q[0].value)), (0.5, 1.0));
    assert_eq!((f64::from_bits(q[1].quantile), f64::from_bits(q[1].value)), (0.99, 3.0));
    assert_eq!(points[0].count, 2);
    assert_eq!(f64::from_bits(points[0].sum), 4.0);
    assert_eq!(points[0].time_unix_nano, 10);
}

#[test]
fn summary_metric_end_to_end() {
    let main = main_table(&[(1, 1, 1, 5, "latency", 0, false)]);
    let table = summary_table(&[vec![(0.5, 1.0)], vec![]]);
    let req = decode(vec![
        message(ArrowPayloadType::UnivariateMetrics, main),
        message(ArrowPayloadType::SummaryDataPoints, table),
    ])
    .unwrap();
    match req.resource_metrics[0].scope_metrics[0].metrics[0].data.as_ref().unwrap() {
        MetricData::Summary(s) => {
            assert_eq!(s.data_points.len(), 2);
            assert_eq!(s.data_points[0].quantile_values.len(), 1);
            assert_eq!(s.data_points[1].quantile_values.len(), 0);
        }
        _ => panic!("expected a summary"),
    }
}

#[test]
fn delta_round_trip_concrete() {
    let ids: [u32; 5] = [1, 3, 3, 7, 10];
    let mut decoder = AttrsParentIdDecoder::<u32>::new(ParentIdEncoding::ParentIdDeltaEncoding);
    let mut prev = 0;
    let value = Some(AnyValue::IntValue(1));
    for (i, id) in ids.iter().enumerate() {
        let delta = if i == 0 { *id } else { id - prev };
        prev = *id;
        assert_eq!(decoder.decode(delta, "k", &value), *id);
    }
}

#[test]
fn group_delta_round_trip_concrete() {
    // rows: (absolute id, key, value)
    let rows = [(1u32, "a", 1i64), (4, "a", 1), (2, "b", 1), (6, "b", 1), (6, "b", 2), (9, "b", 2)];
    let mut decoder = AttrsParentIdDecoder::<u32>::default();
    for i in 0..rows.len() {
        let (id, key, v) = rows[i];
        let same = i > 0 && rows[i - 1].1 == key && rows[i - 1].2 == v;
        let delta = if same { id - rows[i - 1].0 } else { id };
        assert_eq!(decoder.decode(delta, key, &Some(AnyValue::IntValue(v))), id);
    }
}

#[test]
fn no_encoding_keeps_ids() {
    let mut decoder = AttrsParentIdDecoder::<u16>::new(ParentIdEncoding::ParentIdNoEncoding);
    assert_eq!(decoder.decode(5, "k", &None), 5);
    assert_eq!(decoder.decode(2, "k", &None), 2);
}

#[test]
fn delta_sum_wraps() {
    let mut decoder = AttrsParentIdDecoder::<u16>::new(ParentIdEncoding::ParentIdDeltaEncoding);
    assert_eq!(decoder.decode(65535, "k", &None), 65535);
    assert_eq!(decoder.decode(2, "k", &None), 1);
}

#[test]
fn encoding_from_byte() {
    assert_eq!(ParentIdEncoding::from_u8(0), Some(ParentIdEncoding::ParentIdNoEncoding));
    assert_eq!(ParentIdEncoding::from_u8(1), Some(ParentIdEncoding::ParentIdDeltaEncoding));
    assert_eq!(ParentIdEncoding::from_u8(2), Some(ParentIdEncoding::ParentIdDeltaGroupEncoding));
    assert_eq!(ParentIdEncoding::from_u8(3), None);
}

#[test]
fn parent_id_reconstruction() {
    let table = number_table(&[
        (None, 2, 1, Some(1), None),
        (None, 0, 2, Some(2), None),
        (None, 3, 3, None, Some(1.5)),
    ]);
    let mut exemplars = ExemplarsStore::new();
    let mut store = from_record_batch(&table, &mut exemplars, &AttributeStore::new()).unwrap();
    assert_eq!(store.get_or_default(2).len(), 2);
    assert_eq!(store.get_or_default(5).len(), 1);
    assert_eq!(store.get_or_default(3).len(), 0);
    let five = store.take(5);
    assert!(matches!(five[0].value, Some(NumberValue::AsDouble(b)) if f64::from_bits(b) == 1.5));
}

#[test]
fn data_point_attributes_follow_running_id() {
    let table = number_table(&[(Some(3), 1, 1, Some(1), None), (Some(2), 0, 2, Some(2), None)]);
    let attrs = batch(
        2,
        vec![
            col("parent_id", u32s(&[Some(3), Some(5)])),
            col("key", strs(&[Some("a"), Some("b")])),
            col("type", u8s(&[Some(2), Some(4)])),
            col("int", i64s(&[Some(42), None])),
            col("bool", bools(&[None, Some(true)])),
        ],
    );
    let store = AttributeStore::<u32>::from_record_batch(&attrs, ParentIdEncoding::ParentIdDeltaGroupEncoding)
        .unwrap();
    let mut exemplars = ExemplarsStore::new();
    let mut points = from_record_batch(&table, &mut exemplars, &store).unwrap();
    let list = points.take(1);
    assert_eq!(list.len(), 2);
    assert_eq!(list[0].attributes.len(), 1);
    assert!(matches!(list[0].attributes[0].value, Some(AnyValue::IntValue(42))));
    assert_eq!(list[1].attributes.len(), 1);
    assert!(matches!(list[1].attributes[0].value, Some(AnyValue::BoolValue(true))));
}

#[test]
fn store_drained_after_reduce() {
    let main = main_table(&[(1, 1, 1, 1, "m0", 0, false)]);
    let points = number_table(&[(None, 1, 100, Some(7), None)]);
    let msgs = vec![
        message(ArrowPayloadType::UnivariateMetrics, main),
        message(ArrowPayloadType::NumberDataPoints, points),
    ];
    let (mut rd, idx) = from_record_messages(&msgs).unwrap();
    assert_eq!(idx, Some(0));
    let first = metrics_from(&msgs[0].record, &mut rd).unwrap();
    match first.resource_metrics[0].scope_metrics[0].metrics[0].data.as_ref().unwrap() {
        MetricData::Gauge(g) => assert_eq!(g.data_points.len(), 1),
        _ => panic!("expected a gauge"),
    }
    assert_eq!(rd.number_data_points_store.get_or_default(1).len(), 0);
    rd.metric_id = 0;
    let again = metrics_from(&msgs[0].record, &mut rd).unwrap();
    match again.resource_metrics[0].scope_metrics[0].metrics[0].data.as_ref().unwrap() {
        MetricData::Gauge(g) => assert_eq!(g.data_points.len(), 0),
        _ => panic!("expected a gauge"),
    }
}

#[test]
fn missing_column_reported_before_type_mismatch() {
    let mut main = main_table(&[(1, 1, 1, 1, "m0", 0, false)]);
    // `name` gets the wrong type, `unit` goes missing.
    for c in main.columns.iter_mut() {
        if c.name == "name" {
            c.data = u8s(&[Some(1)]);
        }
    }
    main.columns.retain(|c| c.name != "unit");
    let mut rd = RelatedData::new();
    let r = metrics_from(&main, &mut rd);
    assert!(matches!(r, Err(Error::ColumnNotFound { name }) if name == "unit"));
}

#[test]
fn type_mismatch_reported() {
    let mut main = main_table(&[(1, 1, 1, 1, "m0", 0, false)]);
    for c in main.columns.iter_mut() {
        if c.name == "name" {
            c.data = u8s(&[Some(1)]);
        }
    }
    let mut rd = RelatedData::new();
    let r = metrics_from(&main, &mut rd);
    assert!(matches!(
        r,
        Err(Error::ColumnDataTypeMismatch { name, expect: DataType::Utf8, actual: DataType::UInt8 }) if name == "name"
    ));
}

#[test]
fn column_accessors() {
    let cols = vec![col("a", u16s(&[Some(1), None])), col("a", u8s(&[Some(2)]))];
    let a = get_u16_array(&cols, "a").unwrap();
    assert_eq!(a.value_at(0), Some(1));
    assert_eq!(a.value_at(1), None);
    assert_eq!(a.value_at(7), None);
    assert_eq!(a.value_at_or_default(1), 0);
    assert!(matches!(get_u16_array(&cols, "b"), Err(Error::ColumnNotFound { .. })));
    assert!(matches!(get_u16_array_opt(&cols, "b"), Ok(None)));
    let cols2 = vec![col("a", u8s(&[Some(2)]))];
    assert!(matches!(get_u16_array_opt(&cols2, "a"), Err(Error::ColumnDataTypeMismatch { .. })));
}

#[test]
fn dictionary_encoded_attribute_values() {
    let attrs = batch(
        3,
        vec![
            col("parent_id", u16s(&[Some(1), Some(2), Some(3)])),
            col("key", strs(&[Some("k"), Some("k"), Some("k")])),
            col("type", u8s(&[Some(2), Some(2), Some(5)])),
            col(
                "int",
                ArrayData::Dictionary(DictionaryArray {
                    keys: vec![Some(1), None, None],
                    values: Box::new(i64s(&[Some(10), Some(20)])),
                }),
            ),
            col(
                "bytes",
                ArrayData::Binary(BinaryArray { values: vec![None, None, Some(vec![9, 8])] }),
            ),
        ],
    );
    let store = AttributeStore::<u16>::from_record_batch(&attrs, ParentIdEncoding::ParentIdNoEncoding).unwrap();
    let one = store.attribute_by_id(1).unwrap();
    assert!(matches!(one[0].value, Some(AnyValue::IntValue(20))));
    let two = store.attribute_by_id(2).unwrap();
    assert!(matches!(two[0].value, Some(AnyValue::IntValue(0))));
    let three = store.attribute_by_id(3).unwrap();
    assert!(matches!(&three[0].value, Some(AnyValue::BytesValue(b)) if b == &vec![9, 8]));
    assert!(store.attribute_by_id(4).is_none());
}

#[test]
fn grouped_attributes_share_parents() {
    // Two attributes per parent: grouped deltas restart on each new key/value.
    let attrs = string_attrs_table(&[(1, "a", "x"), (1, "a", "x"), (2, "b", "y"), (3, "b", "y")]);
    let store = AttributeStore::<u16>::from_record_batch(&attrs, ParentIdEncoding::ParentIdDeltaGroupEncoding).unwrap();
    assert_eq!(store.attribute_by_id(1).unwrap().len(), 1);
    assert_eq!(store.attribute_by_id(2).unwrap().len(), 2);
    assert_eq!(store.attribute_by_id(5).unwrap().len(), 1);
}

#[test]
fn empty_batch_rejected() {
    let b = BatchArrowRecords { batch_id: 1, arrow_payloads: Vec::new() };
    assert!(matches!(main_payload_type(&b), Err(Error::EmptyBatch)));
}

#[test]
fn non_metric_main_type_rejected() {
    let logs = ArrowPayloadType::Logs.to_i32();
    let b = BatchArrowRecords { batch_id: 1, arrow_payloads: vec![payload("x", logs)] };
    assert!(matches!(main_payload_type(&b), Err(Error::UnsupportedPayloadType { actual: 30 })));
    let b = BatchArrowRecords { batch_id: 1, arrow_payloads: vec![payload("x", 10)] };
    assert_eq!(main_payload_type(&b).unwrap(), ArrowPayloadType::UnivariateMetrics);
}

#[test]
fn unknown_payload_type_rejected() {
    let mut consumer = Consumer::new();
    let r = consumer.route_payload(&payload("x", 99));
    assert!(matches!(r, Err(Error::UnsupportedPayloadType { actual: 99 })));
    assert!(consumer.schema_ids().is_empty());
}

#[test]
fn missing_main_record() {
    let points = number_table(&[(None, 1, 100, Some(7), None)]);
    let r = decode(vec![message(ArrowPayloadType::NumberDataPoints, points)]);
    assert!(matches!(r, Err(Error::MetricRecordNotFound)));
}

#[test]
fn int_and_double_both_set_rejected() {
    let main = main_table(&[(1, 1, 1, 1, "m0", 0, false)]);
    let points = number_table(&[(None, 1, 100, Some(7), Some(1.0))]);
    let r = decode(vec![
        message(ArrowPayloadType::UnivariateMetrics, main),
        message(ArrowPayloadType::NumberDataPoints, points),
    ]);
    assert!(matches!(r, Err(Error::ConflictingNumberValue)));
}

#[test]
fn invalid_quantile_column() {
    let not_a_list = u8s(&[Some(1)]);
    assert!(matches!(QuantileArrays::try_new(&not_a_list), Err(Error::InvalidQuantileType { .. })));
    let wrong_field = ArrayData::List(ListArray {
        offsets: vec![0, 1],
        validity: vec![true],
        values: Box::new(structs(vec![col("quantile", u8s(&[Some(1)])), col("value", f64s(&[Some(1.0)]))])),
    });
    assert!(matches!(QuantileArrays::try_new(&wrong_field), Err(Error::InvalidQuantileType { .. })));
    let missing_field = ArrayData::List(ListArray {
        offsets: vec![0, 1],
        validity: vec![true],
        values: Box::new(structs(vec![col("quantile", f64s(&[Some(1.0)]))])),
    });
    assert!(matches!(QuantileArrays::try_new(&missing_field), Err(Error::ColumnNotFound { name }) if name == "value"));
}

#[test]
fn unsupported_table_in_metrics_batch() {
    let main = main_table(&[(1, 1, 1, 1, "m0", 0, false)]);
    let r = decode(vec![
        message(ArrowPayloadType::UnivariateMetrics, main),
        message(ArrowPayloadType::Logs, batch(0, Vec::new())),
    ]);
    assert!(matches!(r, Err(Error::UnsupportedPayloadType { actual: 30 })));
}

#[test]
fn new_resource_and_scope_groups() {
    // Resource ids 1, 1, 2; scope ids 1, 2, 2: the third row opens a new
    // resource and, with it, a new scope even though the scope id repeats.
    let main = main_table(&[
        (1, 1, 1, 1, "a", 0, false),
        (0, 1, 1, 1, "b", 0, false),
        (1, 0, 1, 1, "c", 0, false),
    ]);
    let req = decode(vec![message(ArrowPayloadType::UnivariateMetrics, main)]).unwrap();
    assert_eq!(req.resource_metrics.len(), 2);
    assert_eq!(req.resource_metrics[0].scope_metrics.len(), 2);
    assert_eq!(req.resource_metrics[1].scope_metrics.len(), 1);
    assert_eq!(req.resource_metrics[1].scope_metrics[0].metrics[0].name, "c");
}

#[test]
fn metric_type_from_byte() {
    assert_eq!(MetricType::from_u8(0), Some(MetricType::Empty));
    assert_eq!(MetricType::from_u8(5), Some(MetricType::Summary));
    assert_eq!(MetricType::from_u8(6), None);
}

#[test]
fn payload_type_round_trip() {
    for v in [0, 1, 2, 10, 11, 12, 13, 14, 15, 19, 22, 25, 30, 31, 40, 45] {
        assert_eq!(ArrowPayloadType::from_i32(v).unwrap().to_i32(), v);
    }
    assert_eq!(ArrowPayloadType::from_i32(3), None);
}

fn list_of(rows: &[Vec<Option<u64>>], child: fn(&[Option<u64>]) -> ArrayData) -> ArrayData {
    let mut offsets = vec![0usize];
    let mut values = Vec::new();
    for r in rows {
        values.extend_from_slice(r);
        offsets.push(values.len());
    }
    ArrayData::List(ListArray { offsets, validity: vec![true; rows.len()], values: Box::new(child(&values)) })
}

fn f64_bits(v: &[Option<u64>]) -> ArrayData {
    ArrayData::Float64(PrimitiveArray { values: v.to_vec() })
}

#[test]
fn histogram_metric_end_to_end() {
    let main = main_table(&[(1, 1, 1, 3, "h", 2, false)]);
    let table = batch(
        1,
        vec![
            col("parent_id", u16s(&[Some(1)])),
            col("start_time_unix_nano", timestamps(&[Some(1)])),
            col("time_unix_nano", timestamps(&[Some(2)])),
            col("count", u64s(&[Some(3)])),
            col("sum", f64s(&[Some(6.0)])),
            col("bucket_counts", list_of(&[vec![Some(1), Some(2)]], u64s)),
            col("explicit_bounds", list_of(&[vec![Some(1.5f64.to_bits())]], f64_bits)),
            col("flags", u32s(&[Some(0)])),
            col("max", f64s(&[Some(4.0)])),
        ],
    );
    let req = decode(vec![
        message(ArrowPayloadType::UnivariateMetrics, main),
        message(ArrowPayloadType::HistogramDataPoints, table),
    ])
    .unwrap();
    match req.resource_metrics[0].scope_metrics[0].metrics[0].data.as_ref().unwrap() {
        MetricData::Histogram(h) => {
            assert_eq!(h.aggregation_temporality, 2);
            assert_eq!(h.data_points.len(), 1);
            let p = &h.data_points[0];
            assert_eq!(p.count, 3);
            assert_eq!(p.sum.map(f64::from_bits), Some(6.0));
            assert_eq!(p.bucket_counts, vec![1, 2]);
            assert_eq!(p.explicit_bounds.iter().map(|b| f64::from_bits(*b)).collect::<Vec<_>>(), vec![1.5]);
            assert_eq!(p.min, None);
            assert_eq!(p.max.map(f64::from_bits), Some(4.0));
        }
        _ => panic!("expected a histogram"),
    }
}

#[test]
fn exponential_histogram_metric_end_to_end() {
    let main = main_table(&[(1, 1, 1, 4, "e", 1, false)]);
    let positive = structs(vec![
        col("offset", i32s(&[Some(-1)])),
        col("bucket_counts", list_of(&[vec![Some(3), Some(4)]], u64s)),
    ]);
    let table = batch(
        1,
        vec![
            col("parent_id", u16s(&[Some(1)])),
            col("start_time_unix_nano", timestamps(&[Some(1)])),
            col("time_unix_nano", timestamps(&[Some(2)])),
            col("count", u64s(&[Some(8)])),
            col("scale", i32s(&[Some(2)])),
            col("zero_count", u64s(&[Some(1)])),
            col("positive", positive),
            col("flags", u32s(&[Some(1)])),
        ],
    );
    let req = decode(vec![
        message(ArrowPayloadType::UnivariateMetrics, main),
        message(ArrowPayloadType::ExpHistogramDataPoints, table),
    ])
    .unwrap();
    match req.resource_metrics[0].scope_metrics[0].metrics[0].data.as_ref().unwrap() {
        MetricData::ExponentialHistogram(h) => {
            assert_eq!(h.aggregation_temporality, 1);
            let p = &h.data_points[0];
            assert_eq!((p.count, p.scale, p.zero_count, p.flags), (8, 2, 1, 1));
            let pos = p.positive.as_ref().unwrap();
            assert_eq!(pos.offset, -1);
            assert_eq!(pos.bucket_counts, vec![3, 4]);
            assert!(p.negative.is_none());
        }
        _ => panic!("expected an exponential histogram"),
    }
}

#[test]
fn exemplars_attached_to_number_points() {
    let main = main_table(&[(1, 1, 1, 1, "m0", 0, false)]);
    let points = number_table(&[(Some(7), 1, 100, Some(7), None), (Some(1), 0, 101, Some(8), None)]);
    let exemplars = batch(
        3,
        vec![
            col("id", u32s(&[Some(1), None, None])),
            col("parent_id", u32s(&[Some(7), Some(0), Some(1)])),
            col("time_unix_nano", timestamps(&[Some(5), Some(6), Some(7)])),
            col("double_value", f64s(&[Some(0.25), None, None])),
            col("int_value", i64s(&[None, Some(3), Some(4)])),
            col("span_id", ArrayData::Binary(BinaryArray { values: vec![Some(vec![1; 8]), None, None] })),
        ],
    );
    let exemplar_attrs = batch(
        1,
        vec![
            col("parent_id", u32s(&[Some(1)])),
            col("key", strs(&[Some("x")])),
            col("type", u8s(&[Some(4)])),
            col("bool", bools(&[Some(true)])),
        ],
    );
    let req = decode(vec![
        message(ArrowPayloadType::UnivariateMetrics, main),
        message(ArrowPayloadType::NumberDataPoints, points),
        message(ArrowPayloadType::NumberDpExemplars, exemplars),
        message(ArrowPayloadType::NumberDpExemplarAttrs, exemplar_attrs),
    ])
    .unwrap();
    match req.resource_metrics[0].scope_metrics[0].metrics[0].data.as_ref().unwrap() {
        MetricData::Gauge(g) => {
            assert_eq!(g.data_points.len(), 2);
            let first = &g.data_points[0].exemplars;
            assert_eq!(first.len(), 2);
            assert!(matches!(first[0].value, Some(NumberValue::AsDouble(b)) if f64::from_bits(b) == 0.25));
            assert_eq!(first[0].span_id, vec![1; 8]);
            assert_eq!(first[0].filtered_attributes.len(), 1);
            assert!(matches!(first[1].value, Some(NumberValue::AsInt(3))));
            assert_eq!(first[1].time_unix_nano, 6);
            let second = &g.data_points[1].exemplars;
            assert_eq!(second.len(), 1);
            assert!(matches!(second[0].value, Some(NumberValue::AsInt(4))));
        }
        _ => panic!("expected a gauge"),
    }
}

#[test]
fn exemplars_leave_their_store() {
    let exemplars = batch(
        1,
        vec![col("parent_id", u32s(&[Some(2)])), col("time_unix_nano", timestamps(&[Some(1)]))],
    );
    let mut store = ExemplarsStore::from_record_batch(&exemplars, &AttributeStore::new()).unwrap();
    let points = number_table(&[(Some(2), 1, 1, Some(1), None)]);
    let mut dps = from_record_batch(&points, &mut store, &AttributeStore::new()).unwrap();
    assert_eq!(dps.take(1)[0].exemplars.len(), 1);
    assert_eq!(store.take(2).len(), 0);
}

#[test]
fn metric_ids_advance_by_row() {
    let main = main_table(&[(1, 1, 1, 2, "sum", 1, true), (0, 0, 1, 1, "gauge", 0, false)]);
    let mut rd = RelatedData::new();
    let req = metrics_from(&main, &mut rd).unwrap();
    assert_eq!(rd.metric_id, 2);
    assert_eq!(req.resource_metrics[0].scope_metrics[0].metrics.len(), 2);
    assert_eq!(rd.metric_id_from_delta(3), 5);
}

#[test]
fn empty_main_table_gives_empty_request() {
    let main = main_table(&[]);
    let req = decode(vec![message(ArrowPayloadType::UnivariateMetrics, main)]).unwrap();
    assert!(req.resource_metrics.is_empty());
}

#[test]
fn resource_field_type_mismatch_named() {
    let mut main = main_table(&[(1, 1, 1, 1, "m0", 0, false)]);
    for c in main.columns.iter_mut() {
        if c.name == "resource" {
            if let ArrayData::Struct(st) = &mut c.data {
                st.columns[0].data = u8s(&[Some(1)]);
            }
        }
    }
    assert!(matches!(
        ResourceArrays::try_from(&main),
        Err(Error::ColumnDataTypeMismatch { name, expect: DataType::UInt16, actual: DataType::UInt8 }) if name == "id"
    ));
    let mut rd = RelatedData::new();
    assert!(matches!(
        metrics_from(&main, &mut rd),
        Err(Error::ColumnDataTypeMismatch { name, expect: DataType::UInt16, actual: DataType::UInt8 }) if name == "id"
    ));
}

#[test]
fn metrics_arrays_report_missing_before_mistyped() {
    let mut main = main_table(&[(1, 1, 1, 1, "m0", 0, false)]);
    for c in main.columns.iter_mut() {
        if c.name == "id" {
            c.data = u8s(&[Some(1)]);
        }
    }
    main.columns.retain(|c| c.name != "is_monotonic");
    assert!(matches!(MetricsArrays::try_from(&main), Err(Error::ColumnNotFound { name }) if name == "is_monotonic"));
}

#[test]
fn summary_quantile_errors_passed_up() {
    let mut table = summary_table(&[vec![(0.5, 1.0)]]);
    for c in table.columns.iter_mut() {
        if c.name == "quantile" {
            c.data = u8s(&[Some(1)]);
        }
    }
    let r = SummaryDataPointsStore::from_record_batch(&table, &AttributeStore::new());
    assert!(matches!(r, Err(Error::InvalidQuantileType { .. })));
    let mut table = summary_table(&[vec![(0.5, 1.0)]]);
    for c in table.columns.iter_mut() {
        if c.name == "quantile" {
            if let ArrayData::List(l) = &mut c.data {
                if let ArrayData::Struct(st) = l.values.as_mut() {
                    st.columns.retain(|f| f.name != "value");
                }
            }
        }
    }
    let r = SummaryDataPointsStore::from_record_batch(&table, &AttributeStore::new());
    assert!(matches!(r, Err(Error::ColumnNotFound { name }) if name == "value"));
}

#[test]
fn unread_column_of_other_type_is_harmless() {
    let mut main = main_table(&[(1, 1, 1, 1, "m0", 0, false)]);
    main.columns.push(col("extra", ArrayData::Other));
    assert!(decode(vec![message(ArrowPayloadType::UnivariateMetrics, main)]).is_ok());
}

#[test]
fn append_and_get_returns_new_element() {
    let mut v: Vec<u32> = vec![1, 2];
    let last = v.append_and_get(3);
    *last += 1;
    assert_eq!(v, vec![1, 2, 4]);
}

#[test]
fn reader_pool_install_keeps_existing_schema() {
    let mut consumer = Consumer::new();
    consumer.install("A".to_string(), ArrowPayloadType::NumberDataPoints);
    consumer.install("A".to_string(), ArrowPayloadType::SummaryDataPoints);
    assert_eq!(consumer.schema_ids(), vec!["A".to_string()]);
}

//! The OTLP metric tree that decoding produces.
//!
//! Floating-point fields hold the IEEE-754 bit pattern of their value.
use vstd::prelude::*;

verus! {

/// An attribute value: one variant per attribute primitive type.
#[derive(Debug)]
pub enum AnyValue {
    StringValue(String),
    IntValue(i64),
    DoubleValue(u64),
    BoolValue(bool),
    BytesValue(Vec<u8>),
    /// An array or key-value list, kept in its serialized form.
    SerializedValue(Vec<u8>),
}

/// The mathematical value of an [`AnyValue`].
pub enum AnyValueView {
    Str(Seq<char>),
    Int(i64),
    Double(u64),
    Bool(bool),
    Bytes(Seq<u8>),
    Serialized(Seq<u8>),
}

impl View for AnyValue {
    type V = AnyValueView;

    open spec fn view(&self) -> AnyValueView {
        match self {
            AnyValue::StringValue(s) => AnyValueView::Str(s@),
            AnyValue::IntValue(i) => AnyValueView::Int(*i),
            AnyValue::DoubleValue(d) => AnyValueView::Double(*d),
            AnyValue::BoolValue(b) => AnyValueView::Bool(*b),
            AnyValue::BytesValue(b) => AnyValueView::Bytes(b@),
            AnyValue::SerializedValue(b) => AnyValueView::Serialized(b@),
        }
    }
}

/// A named attribute; an attribute of the empty type has no value.
#[derive(Debug)]
pub struct KeyValue {
    pub key: String,
    pub value: Option<AnyValue>,
}

pub struct KeyValueView {
    pub key: Seq<char>,
    pub value: Option<AnyValueView>,
}

impl View for KeyValue {
    type V = KeyValueView;

    open spec fn view(&self) -> KeyValueView {
        KeyValueView {
            key: self.key@,
            value: match self.value {
                Some(v) => Some(v@),
                None => None,
            },
        }
    }
}

pub open spec fn opt_any_view(v: Option<AnyValue>) -> Option<AnyValueView> {
    match v {
        Some(v) => Some(v@),
        None => None,
    }
}

/// The views of a list of attributes.
pub open spec fn kvs_view(s: Seq<KeyValue>) -> Seq<KeyValueView> {
    s.map_values(|kv: KeyValue| kv@)
}

fn copy_bytes(b: &Vec<u8>) -> (r: Vec<u8>)
    ensures
        r@ == b@,
{
    let c = b.clone();
    assert(c@ =~= b@);
    c
}

fn bytes_eq(a: &Vec<u8>, b: &Vec<u8>) -> (r: bool)
    ensures
        r == (a@ == b@),
{
    if a.len() != b.len() {
        return false;
    }
    let mut i: usize = 0;
    while i < a.len()
        invariant
            0 <= i <= a.len(),
            a.len() == b.len(),
            forall|j: int| 0 <= j < i ==> a@[j] == b@[j],
        decreases a.len() - i,
    {
        if a[i] != b[i] {
            return false;
        }
        i += 1;
    }
    assert(a@ =~= b@);
    true
}

impl AnyValue {
    /// A copy with the same value.
    pub fn duplicate(&self) -> (r: AnyValue)
        ensures
            r@ == self@,
    {
        match self {
            AnyValue::StringValue(s) => AnyValue::StringValue(s.clone()),
            AnyValue::IntValue(i) => AnyValue::IntValue(*i),
            AnyValue::DoubleValue(d) => AnyValue::DoubleValue(*d),
            AnyValue::BoolValue(b) => AnyValue::BoolValue(*b),
            AnyValue::BytesValue(b) => AnyValue::BytesValue(copy_bytes(b)),
            AnyValue::SerializedValue(b) => AnyValue::SerializedValue(copy_bytes(b)),
        }
    }

    /// Whether two values are the same value of the same type.
    pub fn same_as(&self, other: &AnyValue) -> (r: bool)
        ensures
            r == (self@ == other@),
    {
        match self {
            AnyValue::StringValue(a) => match other {
                AnyValue::StringValue(b) => *a == *b,
                _ => false,
            },
            AnyValue::IntValue(a) => match other {
                AnyValue::IntValue(b) => *a == *b,
                _ => false,
            },
            AnyValue::DoubleValue(a) => match other {
                AnyValue::DoubleValue(b) => *a == *b,
                _ => false,
            },
            AnyValue::BoolValue(a) => match other {
                AnyValue::BoolValue(b) => *a == *b,
                _ => false,
            },
            AnyValue::BytesValue(a) => match other {
                AnyValue::BytesValue(b) => bytes_eq(a, b),
                _ => false,
            },
            AnyValue::SerializedValue(a) => match other {
                AnyValue::SerializedValue(b) => bytes_eq(a, b),
                _ => false,
            },
        }
    }
}

/// Whether two optional values are equal as values.
pub fn same_opt_value(a: &Option<AnyValue>, b: &Option<AnyValue>) -> (r: bool)
    ensures
        r == (opt_any_view(*a) == opt_any_view(*b)),
{
    match (a, b) {
        (Some(x), Some(y)) => x.same_as(y),
        (None, None) => true,
        _ => false,
    }
}

impl KeyValue {
    /// A copy with the same key and value.
    pub fn duplicate(&self) -> (r: KeyValue)
        ensures
            r@ == self@,
    {
        KeyValue {
            key: self.key.clone(),
            value: match &self.value {
                Some(v) => Some(v.duplicate()),
                None => None,
            },
        }
    }
}

/// A copy of a list of attributes.
pub fn copy_key_values(s: &[KeyValue]) -> (r: Vec<KeyValue>)
    ensures
        kvs_view(r@) == kvs_view(s@),
{
    let mut r: Vec<KeyValue> = Vec::new();
    let mut i: usize = 0;
    while i < s.len()
        invariant
            0 <= i <= s.len(),
            r@.len() == i,
            forall|j: int| 0 <= j < i ==> #[trigger] r@[j]@ == s@[j]@,
        decreases s.len() - i,
    {
        let kv = s[i].duplicate();
        r.push(kv);
        i += 1;
    }
    assert(kvs_view(r@) =~= kvs_view(s@));
    r
}

/// The resource that produced a set of metrics.
pub struct Resource {
    pub attributes: Vec<KeyValue>,
    pub dropped_attributes_count: u32,
}

/// The instrumentation scope that produced a set of metrics.
pub struct InstrumentationScope {
    pub name: String,
    pub version: String,
    pub attributes: Vec<KeyValue>,
    pub dropped_attributes_count: u32,
}

/// The value of a number data point or an exemplar.
pub enum NumberValue {
    AsDouble(u64),
    AsInt(i64),
}

/// A sample recorded alongside a data point.
pub struct Exemplar {
    pub filtered_attributes: Vec<KeyValue>,
    pub time_unix_nano: u64,
    pub value: Option<NumberValue>,
    pub span_id: Vec<u8>,
    pub trace_id: Vec<u8>,
}

pub struct ExemplarView {
    pub filtered_attributes: Seq<KeyValueView>,
    pub time_unix_nano: u64,
    pub value: Option<NumberValue>,
    pub span_id: Seq<u8>,
    pub trace_id: Seq<u8>,
}

impl View for Exemplar {
    type V = ExemplarView;

    open spec fn view(&self) -> ExemplarView {
        ExemplarView {
            filtered_attributes: kvs_view(self.filtered_attributes@),
            time_unix_nano: self.time_unix_nano,
            value: self.value,
            span_id: self.span_id@,
            trace_id: self.trace_id@,
        }
    }
}

pub struct NumberDataPoint {
    pub attributes: Vec<KeyValue>,
    pub start_time_unix_nano: u64,
    pub time_unix_nano: u64,
    pub exemplars: Vec<Exemplar>,
    pub flags: u32,
    pub value: Option<NumberValue>,
}

pub struct NumberDataPointView {
    pub attributes: Seq<KeyValueView>,
    pub start_time_unix_nano: u64,
    pub time_unix_nano: u64,
    pub exemplars: Seq<ExemplarView>,
    pub flags: u32,
    pub value: Option<NumberValue>,
}

impl View for NumberDataPoint {
    type V = NumberDataPointView;

    open spec fn view(&self) -> NumberDataPointView {
        NumberDataPointView {
            attributes: kvs_view(self.attributes@),
            start_time_unix_nano: self.start_time_unix_nano,
            time_unix_nano: self.time_unix_nano,
            exemplars: self.exemplars@.map_values(|e: Exemplar| e@),
            flags: self.flags,
            value: self.value,
        }
    }
}

/// One quantile of a summary: both fields are `f64` bit patterns.
pub struct ValueAtQuantile {
    pub quantile: u64,
    pub value: u64,
}

pub struct SummaryDataPoint {
    pub attributes: Vec<KeyValue>,
    pub start_time_unix_nano: u64,
    pub time_unix_nano: u64,
    pub count: u64,
    pub sum: u64,
    pub quantile_values: Vec<ValueAtQuantile>,
    pub flags: u32,
}

pub struct SummaryDataPointView {
    pub attributes: Seq<KeyValueView>,
    pub start_time_unix_nano: u64,
    pub time_unix_nano: u64,
    pub count: u64,
    pub sum: u64,
    pub quantile_values: Seq<ValueAtQuantile>,
    pub flags: u32,
}

impl View for SummaryDataPoint {
    type V = SummaryDataPointView;

    open spec fn view(&self) -> SummaryDataPointView {
        SummaryDataPointView {
            attributes: kvs_view(self.attributes@),
            start_time_unix_nano: self.start_time_unix_nano,
            time_unix_nano: self.time_unix_nano,
            count: self.count,
            sum: self.sum,
            quantile_values: self.quantile_values@,
            flags: self.flags,
        }
    }
}

pub struct HistogramDataPoint {
    pub attributes: Vec<KeyValue>,
    pub start_time_unix_nano: u64,
    pub time_unix_nano: u64,
    pub count: u64,
    pub sum: Option<u64>,
    pub bucket_counts: Vec<u64>,
    pub explicit_bounds: Vec<u64>,
    pub exemplars: Vec<Exemplar>,
    pub flags: u32,
    pub min: Option<u64>,
    pub max: Option<u64>,
}

pub struct HistogramDataPointView {
    pub attributes: Seq<KeyValueView>,
    pub start_time_unix_nano: u64,
    pub time_unix_nano: u64,
    pub count: u64,
    pub sum: Option<u64>,
    pub bucket_counts: Seq<u64>,
    pub explicit_bounds: Seq<u64>,
    pub exemplars: Seq<ExemplarView>,
    pub flags: u32,
    pub min: Option<u64>,
    pub max: Option<u64>,
}

impl View for HistogramDataPoint {
    type V = HistogramDataPointView;

    open spec fn view(&self) -> HistogramDataPointView {
        HistogramDataPointView {
            attributes: kvs_view(self.attributes@),
            start_time_unix_nano: self.start_time_unix_nano,
            time_unix_nano: self.time_unix_nano,
            count: self.count,
            sum: self.sum,
            bucket_counts: self.bucket_counts@,
            explicit_bounds: self.explicit_bounds@,
            exemplars: self.exemplars@.map_values(|e: Exemplar| e@),
            flags: self.flags,
            min: self.min,
            max: self.max,
        }
    }
}

/// The buckets of one side of an exponential histogram.
pub struct Buckets {
    pub offset: i32,
    pub bucket_counts: Vec<u64>,
}

pub struct ExponentialHistogramDataPoint {
    pub attributes: Vec<KeyValue>,
    pub start_time_unix_nano: u64,
    pub time_unix_nano: u64,
    pub count: u64,
    pub sum: Option<u64>,
    pub scale: i32,
    pub zero_count: u64,
    pub positive: Option<Buckets>,
    pub negative: Option<Buckets>,
    pub flags: u32,
    pub exemplars: Vec<Exemplar>,
    pub min: Option<u64>,
    pub max: Option<u64>,
}

pub struct BucketsView {
    pub offset: i32,
    pub bucket_counts: Seq<u64>,
}

impl View for Buckets {
    type V = BucketsView;

    open spec fn view(&self) -> BucketsView {
        BucketsView { offset: self.offset, bucket_counts: self.bucket_counts@ }
    }
}

pub open spec fn opt_buckets_view(b: Option<Buckets>) -> Option<BucketsView> {
    match b {
        Some(b) => Some(b@),
        None => None,
    }
}

pub struct ExponentialHistogramDataPointView {
    pub attributes: Seq<KeyValueView>,
    pub start_time_unix_nano: u64,
    pub time_unix_nano: u64,
    pub count: u64,
    pub sum: Option<u64>,
    pub scale: i32,
    pub zero_count: u64,
    pub positive: Option<BucketsView>,
    pub negative: Option<BucketsView>,
    pub flags: u32,
    pub exemplars: Seq<ExemplarView>,
    pub min: Option<u64>,
    pub max: Option<u64>,
}

impl View for ExponentialHistogramDataPoint {
    type V = ExponentialHistogramDataPointView;

    open spec fn view(&self) -> ExponentialHistogramDataPointView {
        ExponentialHistogramDataPointView {
            attributes: kvs_view(self.attributes@),
            start_time_unix_nano: self.start_time_unix_nano,
            time_unix_nano: self.time_unix_nano,
            count: self.count,
            sum: self.sum,
            scale: self.scale,
            zero_count: self.zero_count,
            positive: opt_buckets_view(self.positive),
            negative: opt_buckets_view(self.negative),
            flags: self.flags,
            exemplars: self.exemplars@.map_values(|e: Exemplar| e@),
            min: self.min,
            max: self.max,
        }
    }
}

pub struct Gauge {
    pub data_points: Vec<NumberDataPoint>,
}

pub struct Sum {
    pub data_points: Vec<NumberDataPoint>,
    pub aggregation_temporality: i32,
    pub is_monotonic: bool,
}

pub struct Histogram {
    pub data_points: Vec<HistogramDataPoint>,
    pub aggregation_temporality: i32,
}

pub struct ExponentialHistogram {
    pub data_points: Vec<ExponentialHistogramDataPoint>,
    pub aggregation_temporality: i32,
}

pub struct Summary {
    pub data_points: Vec<SummaryDataPoint>,
}

/// The data of a metric, one variant per metric type.
pub enum MetricData {
    Gauge(Gauge),
    Sum(Sum),
    Histogram(Histogram),
    ExponentialHistogram(ExponentialHistogram),
    Summary(Summary),
}

pub struct Metric {
    pub name: String,
    pub description: String,
    pub unit: String,
    pub data: Option<MetricData>,
}

pub struct ScopeMetrics {
    pub scope: Option<InstrumentationScope>,
    pub metrics: Vec<Metric>,
    pub schema_url: String,
}

pub struct ResourceMetrics {
    pub resource: Option<Resource>,
    pub scope_metrics: Vec<ScopeMetrics>,
    pub schema_url: String,
}

/// The decoded request: metrics grouped by resource, then by scope.
pub struct ExportMetricsServiceRequest {
    pub resource_metrics: Vec<ResourceMetrics>,
}

pub struct ResourceView {
    pub attributes: Seq<KeyValueView>,
    pub dropped_attributes_count: u32,
}

impl View for Resource {
    type V = ResourceView;

    open spec fn view(&self) -> ResourceView {
        ResourceView {
            attributes: kvs_view(self.attributes@),
            dropped_attributes_count: self.dropped_attributes_count,
        }
    }
}

pub struct ScopeView {
    pub name: Seq<char>,
    pub version: Seq<char>,
    pub attributes: Seq<KeyValueView>,
    pub dropped_attributes_count: u32,
}

impl View for InstrumentationScope {
    type V = ScopeView;

    open spec fn view(&self) -> ScopeView {
        ScopeView {
            name: self.name@,
            version: self.version@,
            attributes: kvs_view(self.attributes@),
            dropped_attributes_count: self.dropped_attributes_count,
        }
    }
}

/// The data of a metric: its data points and the fields of its type.
pub enum MetricDataView {
    Gauge(Seq<NumberDataPointView>),
    Sum(Seq<NumberDataPointView>, i32, bool),
    Histogram(Seq<HistogramDataPointView>, i32),
    ExponentialHistogram(Seq<ExponentialHistogramDataPointView>, i32),
    Summary(Seq<SummaryDataPointView>),
}

impl View for MetricData {
    type V = MetricDataView;

    open spec fn view(&self) -> MetricDataView {
        match self {
            MetricData::Gauge(g) => MetricDataView::Gauge(g.data_points@.map_values(|p: NumberDataPoint| p@)),
            MetricData::Sum(s) => MetricDataView::Sum(
                s.data_points@.map_values(|p: NumberDataPoint| p@),
                s.aggregation_temporality,
                s.is_monotonic,
            ),
            MetricData::Histogram(h) => MetricDataView::Histogram(
                h.data_points@.map_values(|p: HistogramDataPoint| p@),
                h.aggregation_temporality,
            ),
            MetricData::ExponentialHistogram(h) => MetricDataView::ExponentialHistogram(
                h.data_points@.map_values(|p: ExponentialHistogramDataPoint| p@),
                h.aggregation_temporality,
            ),
            MetricData::Summary(s) => MetricDataView::Summary(
                s.data_points@.map_values(|p: SummaryDataPoint| p@),
            ),
        }
    }
}

pub struct MetricView {
    pub name: Seq<char>,
    pub description: Seq<char>,
    pub unit: Seq<char>,
    pub data: Option<MetricDataView>,
}

impl View for Metric {
    type V = MetricView;

    open spec fn view(&self) -> MetricView {
        MetricView {
            name: self.name@,
            description: self.description@,
            unit: self.unit@,
            data: match self.data {
                Some(d) => Some(d@),
                None => None,
            },
        }
    }
}

pub struct ScopeMetricsView {
    pub scope: Option<ScopeView>,
    pub metrics: Seq<MetricView>,
    pub schema_url: Seq<char>,
}

impl View for ScopeMetrics {
    type V = ScopeMetricsView;

    open spec fn view(&self) -> ScopeMetricsView {
        ScopeMetricsView {
            scope: match self.scope {
                Some(s) => Some(s@),
                None => None,
            },
            metrics: self.metrics@.map_values(|m: Metric| m@),
            schema_url: self.schema_url@,
        }
    }
}

pub struct ResourceMetricsView {
    pub resource: Option<ResourceView>,
    pub scope_metrics: Seq<ScopeMetricsView>,
    pub schema_url: Seq<char>,
}

impl View for ResourceMetrics {
    type V = ResourceMetricsView;

    open spec fn view(&self) -> ResourceMetricsView {
        ResourceMetricsView {
            resource: match self.resource {
                Some(r) => Some(r@),
                None => None,
            },
            scope_metrics: self.scope_metrics@.map_values(|s: ScopeMetrics| s@),
            schema_url: self.schema_url@,
        }
    }
}

impl View for ExportMetricsServiceRequest {
    type V = Seq<ResourceMetricsView>;

    open spec fn view(&self) -> Seq<ResourceMetricsView> {
        self.resource_metrics@.map_values(|r: ResourceMetrics| r@)
    }
}

} // verus!

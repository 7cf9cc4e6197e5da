use vstd::prelude::*;

verus! {

// Column names shared by producers and consumers of the record batches.
pub const ID: &'static str = "id";
pub const PARENT_ID: &'static str = "parent_id";
pub const METRIC_TYPE: &'static str = "metric_type";
pub const RESOURCE_METRICS: &'static str = "resource_metrics";
pub const TIME_UNIX_NANO: &'static str = "time_unix_nano";
pub const START_TIME_UNIX_NANO: &'static str = "start_time_unix_nano";
pub const DURATION_TIME_UNIX_NANO: &'static str = "duration_time_unix_nano";
pub const OBSERVED_TIME_UNIX_NANO: &'static str = "observed_time_unix_nano";
pub const SEVERITY_NUMBER: &'static str = "severity_number";
pub const SEVERITY_TEXT: &'static str = "severity_text";
pub const DROPPED_ATTRIBUTES_COUNT: &'static str = "dropped_attributes_count";
pub const DROPPED_EVENTS_COUNT: &'static str = "dropped_events_count";
pub const DROPPED_LINKS_COUNT: &'static str = "dropped_links_count";
pub const FLAGS: &'static str = "flags";
pub const TRACE_ID: &'static str = "trace_id";
pub const TRACE_STATE: &'static str = "trace_state";
pub const SPAN_ID: &'static str = "span_id";
pub const PARENT_SPAN_ID: &'static str = "parent_span_id";
pub const ATTRIBUTES: &'static str = "attributes";
pub const RESOURCE: &'static str = "resource";
pub const SCOPE_METRICS: &'static str = "scope_metrics";
pub const SCOPE: &'static str = "scope";
pub const NAME: &'static str = "name";
pub const KIND: &'static str = "kind";
pub const VERSION: &'static str = "version";
pub const BODY: &'static str = "body";
pub const STATUS: &'static str = "status";
pub const DESCRIPTION: &'static str = "description";
pub const UNIT: &'static str = "unit";
pub const DATA: &'static str = "data";
pub const STATUS_MESSAGE: &'static str = "status_message";
pub const STATUS_CODE: &'static str = "code";
pub const SUMMARY_COUNT: &'static str = "count";
pub const SUMMARY_SUM: &'static str = "sum";
pub const SUMMARY_QUANTILE_VALUES: &'static str = "quantile";
pub const SUMMARY_QUANTILE: &'static str = "quantile";
pub const SUMMARY_VALUE: &'static str = "value";
pub const METRIC_VALUE: &'static str = "value";
pub const INT_VALUE: &'static str = "int_value";
pub const DOUBLE_VALUE: &'static str = "double_value";
pub const HISTOGRAM_COUNT: &'static str = "count";
pub const HISTOGRAM_SUM: &'static str = "sum";
pub const HISTOGRAM_MIN: &'static str = "min";
pub const HISTOGRAM_MAX: &'static str = "max";
pub const HISTOGRAM_BUCKET_COUNTS: &'static str = "bucket_counts";
pub const HISTOGRAM_EXPLICIT_BOUNDS: &'static str = "explicit_bounds";
pub const EXP_HISTOGRAM_SCALE: &'static str = "scale";
pub const EXP_HISTOGRAM_ZERO_COUNT: &'static str = "zero_count";
pub const EXP_HISTOGRAM_POSITIVE: &'static str = "positive";
pub const EXP_HISTOGRAM_NEGATIVE: &'static str = "negative";
pub const EXP_HISTOGRAM_OFFSET: &'static str = "offset";
pub const EXP_HISTOGRAM_BUCKET_COUNTS: &'static str = "bucket_counts";
pub const SCHEMA_URL: &'static str = "schema_url";
pub const I64_METRIC_VALUE: &'static str = "i64";
pub const F64_METRIC_VALUE: &'static str = "f64";
pub const EXEMPLARS: &'static str = "exemplars";
pub const IS_MONOTONIC: &'static str = "is_monotonic";
pub const AGGREGATION_TEMPORALITY: &'static str = "aggregation_temporality";
pub const ATTRIBUTE_KEY: &'static str = "key";
pub const ATTRIBUTE_TYPE: &'static str = "type";
pub const ATTRIBUTE_STR: &'static str = "str";
pub const ATTRIBUTE_INT: &'static str = "int";
pub const ATTRIBUTE_DOUBLE: &'static str = "double";
pub const ATTRIBUTE_BOOL: &'static str = "bool";
pub const ATTRIBUTE_BYTES: &'static str = "bytes";
pub const ATTRIBUTE_SER: &'static str = "ser";

} // verus!

//! Payload types and the decoded record batches of a batch.
use vstd::prelude::*;

use crate::arrays::RecordBatch;

verus! {

/// The role of a table in a batch.
#[derive(Clone, Copy, Debug, PartialEq, Eq, Structural)]
pub enum ArrowPayloadType {
    Unknown,
    ResourceAttrs,
    ScopeAttrs,
    UnivariateMetrics,
    NumberDataPoints,
    SummaryDataPoints,
    HistogramDataPoints,
    ExpHistogramDataPoints,
    NumberDpAttrs,
    SummaryDpAttrs,
    HistogramDpAttrs,
    ExpHistogramDpAttrs,
    NumberDpExemplars,
    HistogramDpExemplars,
    ExpHistogramDpExemplars,
    NumberDpExemplarAttrs,
    HistogramDpExemplarAttrs,
    ExpHistogramDpExemplarAttrs,
    MultivariateMetrics,
    Logs,
    LogAttrs,
    Spans,
    SpanAttrs,
    SpanEvents,
    SpanLinks,
    SpanEventAttrs,
    SpanLinkAttrs,
}

impl ArrowPayloadType {
    /// The payload type that the wire value `v` stands for.
    pub open spec fn spec_from_i32(v: i32) -> Option<ArrowPayloadType> {
        if v == 0 {
            Some(ArrowPayloadType::Unknown)
        } else if v == 1 {
            Some(ArrowPayloadType::ResourceAttrs)
        } else if v == 2 {
            Some(ArrowPayloadType::ScopeAttrs)
        } else if v == 10 {
            Some(ArrowPayloadType::UnivariateMetrics)
        } else if v == 11 {
            Some(ArrowPayloadType::NumberDataPoints)
        } else if v == 12 {
            Some(ArrowPayloadType::SummaryDataPoints)
        } else if v == 13 {
            Some(ArrowPayloadType::HistogramDataPoints)
        } else if v == 14 {
            Some(ArrowPayloadType::ExpHistogramDataPoints)
        } else if v == 15 {
            Some(ArrowPayloadType::NumberDpAttrs)
        } else if v == 16 {
            Some(ArrowPayloadType::SummaryDpAttrs)
        } else if v == 17 {
            Some(ArrowPayloadType::HistogramDpAttrs)
        } else if v == 18 {
            Some(ArrowPayloadType::ExpHistogramDpAttrs)
        } else if v == 19 {
            Some(ArrowPayloadType::NumberDpExemplars)
        } else if v == 20 {
            Some(ArrowPayloadType::HistogramDpExemplars)
        } else if v == 21 {
            Some(ArrowPayloadType::ExpHistogramDpExemplars)
        } else if v == 22 {
            Some(ArrowPayloadType::NumberDpExemplarAttrs)
        } else if v == 23 {
            Some(ArrowPayloadType::HistogramDpExemplarAttrs)
        } else if v == 24 {
            Some(ArrowPayloadType::ExpHistogramDpExemplarAttrs)
        } else if v == 25 {
            Some(ArrowPayloadType::MultivariateMetrics)
        } else if v == 30 {
            Some(ArrowPayloadType::Logs)
        } else if v == 31 {
            Some(ArrowPayloadType::LogAttrs)
        } else if v == 40 {
            Some(ArrowPayloadType::Spans)
        } else if v == 41 {
            Some(ArrowPayloadType::SpanAttrs)
        } else if v == 42 {
            Some(ArrowPayloadType::SpanEvents)
        } else if v == 43 {
            Some(ArrowPayloadType::SpanLinks)
        } else if v == 44 {
            Some(ArrowPayloadType::SpanEventAttrs)
        } else if v == 45 {
            Some(ArrowPayloadType::SpanLinkAttrs)
        } else {
            None
        }
    }

    /// The wire value of the payload type.
    pub open spec fn spec_to_i32(self) -> i32 {
        match self {
            ArrowPayloadType::Unknown => 0,
            ArrowPayloadType::ResourceAttrs => 1,
            ArrowPayloadType::ScopeAttrs => 2,
            ArrowPayloadType::UnivariateMetrics => 10,
            ArrowPayloadType::NumberDataPoints => 11,
            ArrowPayloadType::SummaryDataPoints => 12,
            ArrowPayloadType::HistogramDataPoints => 13,
            ArrowPayloadType::ExpHistogramDataPoints => 14,
            ArrowPayloadType::NumberDpAttrs => 15,
            ArrowPayloadType::SummaryDpAttrs => 16,
            ArrowPayloadType::HistogramDpAttrs => 17,
            ArrowPayloadType::ExpHistogramDpAttrs => 18,
            ArrowPayloadType::NumberDpExemplars => 19,
            ArrowPayloadType::HistogramDpExemplars => 20,
            ArrowPayloadType::ExpHistogramDpExemplars => 21,
            ArrowPayloadType::NumberDpExemplarAttrs => 22,
            ArrowPayloadType::HistogramDpExemplarAttrs => 23,
            ArrowPayloadType::ExpHistogramDpExemplarAttrs => 24,
            ArrowPayloadType::MultivariateMetrics => 25,
            ArrowPayloadType::Logs => 30,
            ArrowPayloadType::LogAttrs => 31,
            ArrowPayloadType::Spans => 40,
            ArrowPayloadType::SpanAttrs => 41,
            ArrowPayloadType::SpanEvents => 42,
            ArrowPayloadType::SpanLinks => 43,
            ArrowPayloadType::SpanEventAttrs => 44,
            ArrowPayloadType::SpanLinkAttrs => 45,
        }
    }

    pub fn from_i32(v: i32) -> (r: Option<ArrowPayloadType>)
        ensures
            r == Self::spec_from_i32(v),
    {
        if v == 0 {
            Some(ArrowPayloadType::Unknown)
        } else if v == 1 {
            Some(ArrowPayloadType::ResourceAttrs)
        } else if v == 2 {
            Some(ArrowPayloadType::ScopeAttrs)
        } else if v == 10 {
            Some(ArrowPayloadType::UnivariateMetrics)
        } else if v == 11 {
            Some(ArrowPayloadType::NumberDataPoints)
        } else if v == 12 {
            Some(ArrowPayloadType::SummaryDataPoints)
        } else if v == 13 {
            Some(ArrowPayloadType::HistogramDataPoints)
        } else if v == 14 {
            Some(ArrowPayloadType::ExpHistogramDataPoints)
        } else if v == 15 {
            Some(ArrowPayloadType::NumberDpAttrs)
        } else if v == 16 {
            Some(ArrowPayloadType::SummaryDpAttrs)
        } else if v == 17 {
            Some(ArrowPayloadType::HistogramDpAttrs)
        } else if v == 18 {
            Some(ArrowPayloadType::ExpHistogramDpAttrs)
        } else if v == 19 {
            Some(ArrowPayloadType::NumberDpExemplars)
        } else if v == 20 {
            Some(ArrowPayloadType::HistogramDpExemplars)
        } else if v == 21 {
            Some(ArrowPayloadType::ExpHistogramDpExemplars)
        } else if v == 22 {
            Some(ArrowPayloadType::NumberDpExemplarAttrs)
        } else if v == 23 {
            Some(ArrowPayloadType::HistogramDpExemplarAttrs)
        } else if v == 24 {
            Some(ArrowPayloadType::ExpHistogramDpExemplarAttrs)
        } else if v == 25 {
            Some(ArrowPayloadType::MultivariateMetrics)
        } else if v == 30 {
            Some(ArrowPayloadType::Logs)
        } else if v == 31 {
            Some(ArrowPayloadType::LogAttrs)
        } else if v == 40 {
            Some(ArrowPayloadType::Spans)
        } else if v == 41 {
            Some(ArrowPayloadType::SpanAttrs)
        } else if v == 42 {
            Some(ArrowPayloadType::SpanEvents)
        } else if v == 43 {
            Some(ArrowPayloadType::SpanLinks)
        } else if v == 44 {
            Some(ArrowPayloadType::SpanEventAttrs)
        } else if v == 45 {
            Some(ArrowPayloadType::SpanLinkAttrs)
        } else {
            None
        }
    }

    pub fn to_i32(self) -> (r: i32)
        ensures
            r == self.spec_to_i32(),
    {
        match self {
            ArrowPayloadType::Unknown => 0,
            ArrowPayloadType::ResourceAttrs => 1,
            ArrowPayloadType::ScopeAttrs => 2,
            ArrowPayloadType::UnivariateMetrics => 10,
            ArrowPayloadType::NumberDataPoints => 11,
            ArrowPayloadType::SummaryDataPoints => 12,
            ArrowPayloadType::HistogramDataPoints => 13,
            ArrowPayloadType::ExpHistogramDataPoints => 14,
            ArrowPayloadType::NumberDpAttrs => 15,
            ArrowPayloadType::SummaryDpAttrs => 16,
            ArrowPayloadType::HistogramDpAttrs => 17,
            ArrowPayloadType::ExpHistogramDpAttrs => 18,
            ArrowPayloadType::NumberDpExemplars => 19,
            ArrowPayloadType::HistogramDpExemplars => 20,
            ArrowPayloadType::ExpHistogramDpExemplars => 21,
            ArrowPayloadType::NumberDpExemplarAttrs => 22,
            ArrowPayloadType::HistogramDpExemplarAttrs => 23,
            ArrowPayloadType::ExpHistogramDpExemplarAttrs => 24,
            ArrowPayloadType::MultivariateMetrics => 25,
            ArrowPayloadType::Logs => 30,
            ArrowPayloadType::LogAttrs => 31,
            ArrowPayloadType::Spans => 40,
            ArrowPayloadType::SpanAttrs => 41,
            ArrowPayloadType::SpanEvents => 42,
            ArrowPayloadType::SpanLinks => 43,
            ArrowPayloadType::SpanEventAttrs => 44,
            ArrowPayloadType::SpanLinkAttrs => 45,
        }
    }
}

/// A decoded record batch, tagged with the batch and stream it came from.
pub struct RecordMessage {
    pub batch_id: i64,
    pub schema_id: String,
    pub payload_type: ArrowPayloadType,
    pub record: RecordBatch,
}

} // verus!

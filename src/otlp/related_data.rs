//! The auxiliary stores of a batch, built from its record messages.
use vstd::prelude::*;

use crate::decode::record_message::{ArrowPayloadType, RecordMessage};
use crate::error::Error;
use crate::otlp::attribute_decoder::ParentIdEncoding;
use crate::otlp::attribute_store::{attr_columns_ok, attrs_by_parent, AttributeStore};
use crate::otlp::data_point_store::{
    EHistogramDataPointsStore, HistogramDataPointsStore, NumberDataPointsStore,
    SummaryDataPointsStore,
};
use crate::otlp::exemplar::{
    exemplar_columns_ok, exemplar_has_both_values, exemplar_rows, exemplars_view, ExemplarsStore,
};
use crate::otlp::num_data_points::{
    from_record_batch, has_both_values, number_columns_ok, number_points_view, number_rows,
    NumberRows,
};
use crate::otlp::num_data_points::wrap16;
use crate::otlp::proto::{Exemplar, ExemplarView, KeyValueView, NumberDataPointView, SummaryDataPointView};
use crate::otlp::summary_data_points::{summary_columns_ok, summary_points_view, summary_rows};
use crate::otlp::histogram_data_points::{
    histogram_columns_ok, histogram_points_view, histogram_rows, HistogramRows,
};
use crate::otlp::proto::{ExponentialHistogramDataPointView, HistogramDataPointView};
use crate::otlp::exp_histogram_data_points::{
    exp_histogram_columns_ok, exp_histogram_points_view, exp_histogram_rows, ExpHistogramRows,
};

verus! {

/// The attribute, exemplar and data point stores of a batch, and the running
/// metric id of its main table.
pub struct RelatedData {
    pub metric_id: u16,
    pub res_attr_map_store: AttributeStore<u16>,
    pub scope_attr_map_store: AttributeStore<u16>,
    pub number_d_p_attrs_store: AttributeStore<u32>,
    pub summary_attrs_store: AttributeStore<u32>,
    pub histogram_attrs_store: AttributeStore<u32>,
    pub exp_histogram_attrs_store: AttributeStore<u32>,
    pub number_d_p_exemplar_attrs_store: AttributeStore<u32>,
    pub histogram_exemplar_attrs_store: AttributeStore<u32>,
    pub exp_histogram_exemplar_attrs_store: AttributeStore<u32>,
    pub number_data_points_store: NumberDataPointsStore,
    pub summary_data_points_store: SummaryDataPointsStore,
    pub histogram_data_points_store: HistogramDataPointsStore,
    pub e_histogram_data_points_store: EHistogramDataPointsStore,
    pub number_data_point_exemplars_store: ExemplarsStore,
    pub histogram_data_point_exemplars_store: ExemplarsStore,
    pub e_histogram_data_point_exemplars_store: ExemplarsStore,
}

impl RelatedData {
    /// Related data with every store empty and the metric id at zero.
    pub fn new() -> (r: RelatedData)
        ensures
            r.metric_id == 0,
            r.res_attr_map_store.view() == Map::<u16, Seq<KeyValueView>>::empty(),
            r.scope_attr_map_store.view() == Map::<u16, Seq<KeyValueView>>::empty(),
            r.number_d_p_attrs_store.view() == Map::<u32, Seq<KeyValueView>>::empty(),
            r.summary_attrs_store.view() == Map::<u32, Seq<KeyValueView>>::empty(),
            r.histogram_attrs_store.view() == Map::<u32, Seq<KeyValueView>>::empty(),
            r.exp_histogram_attrs_store.view() == Map::<u32, Seq<KeyValueView>>::empty(),
            r.number_d_p_exemplar_attrs_store.view() == Map::<u32, Seq<KeyValueView>>::empty(),
            r.histogram_exemplar_attrs_store.view() == Map::<u32, Seq<KeyValueView>>::empty(),
            r.exp_histogram_exemplar_attrs_store.view() == Map::<u32, Seq<KeyValueView>>::empty(),
            r.number_data_points_store.view().is_empty(),
            r.summary_data_points_store.view().is_empty(),
            r.histogram_data_points_store.view().is_empty(),
            r.e_histogram_data_points_store.view().is_empty(),
            r.number_data_point_exemplars_store.view() == Map::<u32, Seq<Exemplar>>::empty(),
            r.histogram_data_point_exemplars_store.view() == Map::<u32, Seq<Exemplar>>::empty(),
            r.e_histogram_data_point_exemplars_store.view() == Map::<u32, Seq<Exemplar>>::empty(),
    {
        RelatedData {
            metric_id: 0,
            res_attr_map_store: AttributeStore::new(),
            scope_attr_map_store: AttributeStore::new(),
            number_d_p_attrs_store: AttributeStore::new(),
            summary_attrs_store: AttributeStore::new(),
            histogram_attrs_store: AttributeStore::new(),
            exp_histogram_attrs_store: AttributeStore::new(),
            number_d_p_exemplar_attrs_store: AttributeStore::new(),
            histogram_exemplar_attrs_store: AttributeStore::new(),
            exp_histogram_exemplar_attrs_store: AttributeStore::new(),
            number_data_points_store: NumberDataPointsStore::new(),
            summary_data_points_store: SummaryDataPointsStore::new(),
            histogram_data_points_store: HistogramDataPointsStore::new(),
            e_histogram_data_points_store: EHistogramDataPointsStore::new(),
            number_data_point_exemplars_store: ExemplarsStore::new(),
            histogram_data_point_exemplars_store: ExemplarsStore::new(),
            e_histogram_data_point_exemplars_store: ExemplarsStore::new(),
        }
    }

    /// Advances the running metric id by `delta` and returns it.
    pub fn metric_id_from_delta(&mut self, delta: u16) -> (r: u16)
        ensures
            r == wrap16(old(self).metric_id + delta),
            *final(self) == (RelatedData { metric_id: r, ..*old(self) }),
    {
        self.metric_id = self.metric_id.wrapping_add(delta);
        self.metric_id
    }
}

/// The payload types of attribute tables keyed by `u16` ids.
pub open spec fn is_u16_attrs(t: ArrowPayloadType) -> bool {
    t is ResourceAttrs || t is ScopeAttrs
}

/// The payload types of attribute tables keyed by `u32` ids.
pub open spec fn is_u32_attrs(t: ArrowPayloadType) -> bool {
    ||| t is NumberDpAttrs
    ||| t is SummaryDpAttrs
    ||| t is HistogramDpAttrs
    ||| t is ExpHistogramDpAttrs
    ||| t is NumberDpExemplarAttrs
    ||| t is HistogramDpExemplarAttrs
    ||| t is ExpHistogramDpExemplarAttrs
}

/// The payload types that may appear in a metrics batch.
pub open spec fn is_metrics_payload(t: ArrowPayloadType) -> bool {
    ||| is_u16_attrs(t)
    ||| is_u32_attrs(t)
    ||| t is UnivariateMetrics
    ||| t is NumberDataPoints
    ||| t is SummaryDataPoints
    ||| t is HistogramDataPoints
    ||| t is ExpHistogramDataPoints
    ||| t is NumberDpExemplars
    ||| t is HistogramDpExemplars
    ||| t is ExpHistogramDpExemplars
}

/// The index of the last of the first `n` messages with payload type `t`.
pub open spec fn last_of(msgs: Seq<RecordMessage>, t: ArrowPayloadType, n: int) -> Option<int>
    decreases n,
{
    if n <= 0 {
        None
    } else if msgs[n - 1].payload_type == t {
        Some(n - 1)
    } else {
        last_of(msgs, t, n - 1)
    }
}

pub proof fn lemma_last_of_bounds(msgs: Seq<RecordMessage>, t: ArrowPayloadType, n: int)
    ensures
        last_of(msgs, t, n) matches Some(k) ==> 0 <= k < n && msgs[k].payload_type == t,
    decreases n,
{
    if n > 0 && msgs[n - 1].payload_type != t {
        lemma_last_of_bounds(msgs, t, n - 1);
    }
}

/// The attributes of the last of the first `n` messages of type `t`, by
/// parent id; empty when there is none.
pub open spec fn attrs_of<T: crate::otlp::attribute_decoder::ParentId>(
    msgs: Seq<RecordMessage>,
    t: ArrowPayloadType,
    n: int,
) -> Map<T, Seq<KeyValueView>> {
    match last_of(msgs, t, n) {
        Some(k) => attrs_by_parent::<T>(
            msgs[k].record.columns@,
            msgs[k].record.num_rows as int,
            ParentIdEncoding::ParentIdDeltaGroupEncoding,
        ),
        None => Map::empty(),
    }
}

/// Whether every table of the batch can be read: every payload type belongs
/// to metrics, every attributes table and the data point tables have their
/// columns, and no number data point has both an integer and a double value.
pub open spec fn messages_ok(msgs: Seq<RecordMessage>) -> bool {
    &&& forall|k: int| 0 <= k < msgs.len() ==> is_metrics_payload(#[trigger] msgs[k].payload_type)
    &&& forall|k: int|
        0 <= k < msgs.len() && is_u16_attrs(#[trigger] msgs[k].payload_type) ==> attr_columns_ok::<u16>(
            msgs[k].record.columns@,
        )
    &&& forall|k: int|
        0 <= k < msgs.len() && is_u32_attrs(#[trigger] msgs[k].payload_type) ==> attr_columns_ok::<u32>(
            msgs[k].record.columns@,
        )
    &&& last_of(msgs, ArrowPayloadType::NumberDataPoints, msgs.len() as int) matches Some(k) ==> {
        &&& number_columns_ok(msgs[k].record.columns@)
        &&& forall|i: int|
            0 <= i < msgs[k].record.num_rows ==> !#[trigger] has_both_values(msgs[k].record.columns@, i)
    }
    &&& last_of(msgs, ArrowPayloadType::SummaryDataPoints, msgs.len() as int) matches Some(k)
        ==> summary_columns_ok(msgs[k].record.columns@)
    &&& last_of(msgs, ArrowPayloadType::HistogramDataPoints, msgs.len() as int) matches Some(k)
        ==> histogram_columns_ok(msgs[k].record.columns@)
    &&& last_of(msgs, ArrowPayloadType::HistogramDpExemplars, msgs.len() as int) matches Some(k) ==> {
        &&& exemplar_columns_ok(msgs[k].record.columns@)
        &&& forall|i: int|
            0 <= i < msgs[k].record.num_rows ==> !#[trigger] exemplar_has_both_values(
                msgs[k].record.columns@,
                i,
            )
    }
    &&& last_of(msgs, ArrowPayloadType::ExpHistogramDataPoints, msgs.len() as int) matches Some(k)
        ==> exp_histogram_columns_ok(msgs[k].record.columns@)
    &&& last_of(msgs, ArrowPayloadType::ExpHistogramDpExemplars, msgs.len() as int) matches Some(k) ==> {
        &&& exemplar_columns_ok(msgs[k].record.columns@)
        &&& forall|i: int|
            0 <= i < msgs[k].record.num_rows ==> !#[trigger] exemplar_has_both_values(
                msgs[k].record.columns@,
                i,
            )
    }
    &&& last_of(msgs, ArrowPayloadType::NumberDpExemplars, msgs.len() as int) matches Some(k) ==> {
        &&& exemplar_columns_ok(msgs[k].record.columns@)
        &&& forall|i: int|
            0 <= i < msgs[k].record.num_rows ==> !#[trigger] exemplar_has_both_values(
                msgs[k].record.columns@,
                i,
            )
    }
}

/// The exemplars of the number data points of the batch, by data point id:
/// those of its last number exemplars table, with their attributes.
pub open spec fn number_exemplars_of(msgs: Seq<RecordMessage>) -> Map<u32, Seq<ExemplarView>> {
    let n = msgs.len() as int;
    match last_of(msgs, ArrowPayloadType::NumberDpExemplars, n) {
        Some(k) => exemplar_rows(
            msgs[k].record.columns@,
            attrs_of::<u32>(msgs, ArrowPayloadType::NumberDpExemplarAttrs, n),
            msgs[k].record.num_rows as int,
        ).exemplars,
        None => Map::empty(),
    }
}

/// The exemplars of the histogram data points of the batch, by data point id.
pub open spec fn histogram_exemplars_of(msgs: Seq<RecordMessage>) -> Map<u32, Seq<ExemplarView>> {
    let n = msgs.len() as int;
    match last_of(msgs, ArrowPayloadType::HistogramDpExemplars, n) {
        Some(k) => exemplar_rows(
            msgs[k].record.columns@,
            attrs_of::<u32>(msgs, ArrowPayloadType::HistogramDpExemplarAttrs, n),
            msgs[k].record.num_rows as int,
        ).exemplars,
        None => Map::empty(),
    }
}

/// The histogram data points of the batch: those of its last histogram
/// table, with their attributes and exemplars.
pub open spec fn histogram_points_of(msgs: Seq<RecordMessage>) -> Map<u16, Seq<HistogramDataPointView>> {
    let n = msgs.len() as int;
    match last_of(msgs, ArrowPayloadType::HistogramDataPoints, n) {
        Some(k) => histogram_rows(
            HistogramRows {
                parent_id: 0,
                last_id: 0,
                exemplars: histogram_exemplars_of(msgs),
                points: Map::empty(),
            },
            msgs[k].record.columns@,
            attrs_of::<u32>(msgs, ArrowPayloadType::HistogramDpAttrs, n),
            msgs[k].record.num_rows as int,
        ).points,
        None => Map::empty(),
    }
}

/// The exemplars of the exponential histogram data points of the batch.
pub open spec fn exp_histogram_exemplars_of(msgs: Seq<RecordMessage>) -> Map<u32, Seq<ExemplarView>> {
    let n = msgs.len() as int;
    match last_of(msgs, ArrowPayloadType::ExpHistogramDpExemplars, n) {
        Some(k) => exemplar_rows(
            msgs[k].record.columns@,
            attrs_of::<u32>(msgs, ArrowPayloadType::ExpHistogramDpExemplarAttrs, n),
            msgs[k].record.num_rows as int,
        ).exemplars,
        None => Map::empty(),
    }
}

/// The exponential histogram data points of the batch.
pub open spec fn exp_histogram_points_of(msgs: Seq<RecordMessage>) -> Map<
    u16,
    Seq<ExponentialHistogramDataPointView>,
> {
    let n = msgs.len() as int;
    match last_of(msgs, ArrowPayloadType::ExpHistogramDataPoints, n) {
        Some(k) => exp_histogram_rows(
            ExpHistogramRows {
                parent_id: 0,
                last_id: 0,
                exemplars: exp_histogram_exemplars_of(msgs),
                points: Map::empty(),
            },
            msgs[k].record.columns@,
            attrs_of::<u32>(msgs, ArrowPayloadType::ExpHistogramDpAttrs, n),
            msgs[k].record.num_rows as int,
        ).points,
        None => Map::empty(),
    }
}

/// Whether message `k` is the first whose payload type is not one of metrics.
pub open spec fn first_unsupported(msgs: Seq<RecordMessage>, k: int) -> bool {
    &&& 0 <= k < msgs.len()
    &&& !is_metrics_payload(msgs[k].payload_type)
    &&& forall|j: int| 0 <= j < k ==> is_metrics_payload(#[trigger] msgs[j].payload_type)
}

/// Whether every attributes table of the batch can be read.
pub open spec fn attr_tables_ok(msgs: Seq<RecordMessage>) -> bool {
    &&& forall|k: int|
        0 <= k < msgs.len() && is_u16_attrs(#[trigger] msgs[k].payload_type) ==> attr_columns_ok::<u16>(
            msgs[k].record.columns@,
        )
    &&& forall|k: int|
        0 <= k < msgs.len() && is_u32_attrs(#[trigger] msgs[k].payload_type) ==> attr_columns_ok::<u32>(
            msgs[k].record.columns@,
        )
}

/// The error of building the stores of a batch: an error of reading one of
/// its tables, or the type of the first payload that does not belong to
/// metrics; when every attributes table can be read and such a payload
/// exists, it is that payload's type.
pub open spec fn messages_error(e: Error, msgs: Seq<RecordMessage>) -> bool {
    &&& e.is_table_error() || (e matches Error::UnsupportedPayloadType { actual } && exists|k: int|
        first_unsupported(msgs, k) && actual == msgs[k].payload_type.spec_to_i32())
    &&& (attr_tables_ok(msgs) && exists|k: int| 0 <= k < msgs.len() && !is_metrics_payload(
        #[trigger] msgs[k].payload_type,
    )) ==> (e matches Error::UnsupportedPayloadType { actual } && exists|k: int|
        first_unsupported(msgs, k) && actual == msgs[k].payload_type.spec_to_i32())
}

/// The number data points of the batch: those of its last number data
/// points table, with the attributes of its number data point attributes
/// and the exemplars of its number exemplars.
pub open spec fn number_points_of(msgs: Seq<RecordMessage>) -> Map<u16, Seq<NumberDataPointView>> {
    let n = msgs.len() as int;
    match last_of(msgs, ArrowPayloadType::NumberDataPoints, n) {
        Some(k) => number_rows(
            NumberRows { parent_id: 0, last_id: 0, exemplars: number_exemplars_of(msgs), points: Map::empty() },
            msgs[k].record.columns@,
            attrs_of::<u32>(msgs, ArrowPayloadType::NumberDpAttrs, n),
            msgs[k].record.num_rows as int,
        ).points,
        None => Map::empty(),
    }
}

/// The summary data points of the batch.
pub open spec fn summary_points_of(msgs: Seq<RecordMessage>) -> Map<u16, Seq<SummaryDataPointView>> {
    let n = msgs.len() as int;
    match last_of(msgs, ArrowPayloadType::SummaryDataPoints, n) {
        Some(k) => summary_rows(
            msgs[k].record.columns@,
            attrs_of::<u32>(msgs, ArrowPayloadType::SummaryDpAttrs, n),
            msgs[k].record.num_rows as int,
        ).points,
        None => Map::empty(),
    }
}

/// Whether the attribute stores of `rd` are those of the first `n` messages.
pub open spec fn attr_stores_of(rd: RelatedData, msgs: Seq<RecordMessage>, n: int) -> bool {
    &&& rd.res_attr_map_store.view() == attrs_of::<u16>(msgs, ArrowPayloadType::ResourceAttrs, n)
    &&& rd.scope_attr_map_store.view() == attrs_of::<u16>(msgs, ArrowPayloadType::ScopeAttrs, n)
    &&& rd.number_d_p_attrs_store.view() == attrs_of::<u32>(msgs, ArrowPayloadType::NumberDpAttrs, n)
    &&& rd.summary_attrs_store.view() == attrs_of::<u32>(msgs, ArrowPayloadType::SummaryDpAttrs, n)
    &&& rd.histogram_attrs_store.view() == attrs_of::<u32>(msgs, ArrowPayloadType::HistogramDpAttrs, n)
    &&& rd.exp_histogram_attrs_store.view() == attrs_of::<u32>(msgs, ArrowPayloadType::ExpHistogramDpAttrs, n)
    &&& rd.number_d_p_exemplar_attrs_store.view() == attrs_of::<u32>(
        msgs,
        ArrowPayloadType::NumberDpExemplarAttrs,
        n,
    )
    &&& rd.histogram_exemplar_attrs_store.view() == attrs_of::<u32>(
        msgs,
        ArrowPayloadType::HistogramDpExemplarAttrs,
        n,
    )
    &&& rd.exp_histogram_exemplar_attrs_store.view() == attrs_of::<u32>(
        msgs,
        ArrowPayloadType::ExpHistogramDpExemplarAttrs,
        n,
    )
}

/// Builds the stores of a batch from its record messages, attribute tables
/// first and data point tables last, and finds its main metrics table.
pub fn from_record_messages(rbs: &[RecordMessage]) -> (r: Result<(RelatedData, Option<usize>), Error>)
    ensures
        r is Ok <==> messages_ok(rbs@),
        r matches Err(e) ==> messages_error(e, rbs@),
        r matches Ok((rd, main)) ==> {
            &&& main == (match last_of(rbs@, ArrowPayloadType::UnivariateMetrics, rbs@.len() as int) {
                Some(k) => Some(k as usize),
                None => None::<usize>,
            })
            &&& rd.metric_id == 0
            &&& attr_stores_of(rd, rbs@, rbs@.len() as int)
            &&& number_points_view(rd.number_data_points_store) == number_points_of(rbs@)
            &&& summary_points_view(rd.summary_data_points_store) == summary_points_of(rbs@)
            &&& histogram_points_view(rd.histogram_data_points_store) == histogram_points_of(rbs@)
            &&& exp_histogram_points_view(rd.e_histogram_data_points_store) == exp_histogram_points_of(rbs@)
        },
{
    let mut related_data = RelatedData::new();
    let mut metrics_record_idx: Option<usize> = None;
    let mut number_dp_idx: Option<usize> = None;
    let mut summary_dp_idx: Option<usize> = None;
    let mut number_dp_ex_idx: Option<usize> = None;
    let mut histogram_dp_idx: Option<usize> = None;
    let mut histogram_dp_ex_idx: Option<usize> = None;
    let mut exp_histogram_dp_idx: Option<usize> = None;
    let mut exp_histogram_dp_ex_idx: Option<usize> = None;
    let ghost msgs = rbs@;
    let mut i: usize = 0;
    proof {
        assert(number_points_view(related_data.number_data_points_store) =~= Map::empty());
        assert(summary_points_view(related_data.summary_data_points_store) =~= Map::empty());
    }
    while i < rbs.len()
        invariant
            0 <= i <= rbs.len(),
            msgs == rbs@,
            related_data.metric_id == 0,
            attr_stores_of(related_data, msgs, i as int),
            related_data.number_data_points_store.view().is_empty(),
            related_data.summary_data_points_store.view().is_empty(),
            related_data.histogram_data_points_store.view().is_empty(),
            related_data.e_histogram_data_points_store.view().is_empty(),
            related_data.number_data_point_exemplars_store.view() == Map::<u32, Seq<Exemplar>>::empty(),
            metrics_record_idx == (match last_of(msgs, ArrowPayloadType::UnivariateMetrics, i as int) {
                Some(k) => Some(k as usize),
                None => None::<usize>,
            }),
            number_dp_idx == (match last_of(msgs, ArrowPayloadType::NumberDataPoints, i as int) {
                Some(k) => Some(k as usize),
                None => None::<usize>,
            }),
            summary_dp_idx == (match last_of(msgs, ArrowPayloadType::SummaryDataPoints, i as int) {
                Some(k) => Some(k as usize),
                None => None::<usize>,
            }),
            number_dp_ex_idx == (match last_of(msgs, ArrowPayloadType::NumberDpExemplars, i as int) {
                Some(k) => Some(k as usize),
                None => None::<usize>,
            }),
            histogram_dp_idx == (match last_of(msgs, ArrowPayloadType::HistogramDataPoints, i as int) {
                Some(k) => Some(k as usize),
                None => None::<usize>,
            }),
            histogram_dp_ex_idx == (match last_of(msgs, ArrowPayloadType::HistogramDpExemplars, i as int) {
                Some(k) => Some(k as usize),
                None => None::<usize>,
            }),
            related_data.histogram_data_point_exemplars_store.view() == Map::<u32, Seq<Exemplar>>::empty(),
            exp_histogram_dp_idx == (match last_of(msgs, ArrowPayloadType::ExpHistogramDataPoints, i as int) {
                Some(k) => Some(k as usize),
                None => None::<usize>,
            }),
            exp_histogram_dp_ex_idx == (match last_of(msgs, ArrowPayloadType::ExpHistogramDpExemplars, i as int) {
                Some(k) => Some(k as usize),
                None => None::<usize>,
            }),
            related_data.e_histogram_data_point_exemplars_store.view() == Map::<u32, Seq<Exemplar>>::empty(),
            forall|k: int| 0 <= k < i ==> is_metrics_payload(#[trigger] msgs[k].payload_type),
            forall|k: int|
                0 <= k < i && is_u16_attrs(#[trigger] msgs[k].payload_type) ==> attr_columns_ok::<u16>(
                    msgs[k].record.columns@,
                ),
            forall|k: int|
                0 <= k < i && is_u32_attrs(#[trigger] msgs[k].payload_type) ==> attr_columns_ok::<u32>(
                    msgs[k].record.columns@,
                ),
        decreases rbs.len() - i,
    {
        let rm = &rbs[i];
        let encoding = ParentIdEncoding::ParentIdDeltaGroupEncoding;
        match rm.payload_type {
            ArrowPayloadType::ResourceAttrs => {
                match AttributeStore::from_record_batch(&rm.record, encoding) {
                    Ok(s) => related_data.res_attr_map_store = s,
                    Err(e) => return Err(e),
                }
            },
            ArrowPayloadType::ScopeAttrs => {
                match AttributeStore::from_record_batch(&rm.record, encoding) {
                    Ok(s) => related_data.scope_attr_map_store = s,
                    Err(e) => return Err(e),
                }
            },
            ArrowPayloadType::NumberDpAttrs => {
                match AttributeStore::from_record_batch(&rm.record, encoding) {
                    Ok(s) => related_data.number_d_p_attrs_store = s,
                    Err(e) => return Err(e),
                }
            },
            ArrowPayloadType::SummaryDpAttrs => {
                match AttributeStore::from_record_batch(&rm.record, encoding) {
                    Ok(s) => related_data.summary_attrs_store = s,
                    Err(e) => return Err(e),
                }
            },
            ArrowPayloadType::HistogramDpAttrs => {
                match AttributeStore::from_record_batch(&rm.record, encoding) {
                    Ok(s) => related_data.histogram_attrs_store = s,
                    Err(e) => return Err(e),
                }
            },
            ArrowPayloadType::ExpHistogramDpAttrs => {
                match AttributeStore::from_record_batch(&rm.record, encoding) {
                    Ok(s) => related_data.exp_histogram_attrs_store = s,
                    Err(e) => return Err(e),
                }
            },
            ArrowPayloadType::NumberDpExemplarAttrs => {
                match AttributeStore::from_record_batch(&rm.record, encoding) {
                    Ok(s) => related_data.number_d_p_exemplar_attrs_store = s,
                    Err(e) => return Err(e),
                }
            },
            ArrowPayloadType::HistogramDpExemplarAttrs => {
                match AttributeStore::from_record_batch(&rm.record, encoding) {
                    Ok(s) => related_data.histogram_exemplar_attrs_store = s,
                    Err(e) => return Err(e),
                }
            },
            ArrowPayloadType::ExpHistogramDpExemplarAttrs => {
                match AttributeStore::from_record_batch(&rm.record, encoding) {
                    Ok(s) => related_data.exp_histogram_exemplar_attrs_store = s,
                    Err(e) => return Err(e),
                }
            },
            ArrowPayloadType::UnivariateMetrics => {
                metrics_record_idx = Some(i);
            },
            ArrowPayloadType::NumberDataPoints => {
                number_dp_idx = Some(i);
            },
            ArrowPayloadType::SummaryDataPoints => {
                summary_dp_idx = Some(i);
            },
            ArrowPayloadType::HistogramDataPoints => {
                histogram_dp_idx = Some(i);
            },
            ArrowPayloadType::ExpHistogramDataPoints => {
                exp_histogram_dp_idx = Some(i);
            },
            ArrowPayloadType::NumberDpExemplars => {
                number_dp_ex_idx = Some(i);
            },
            ArrowPayloadType::HistogramDpExemplars => {
                histogram_dp_ex_idx = Some(i);
            },
            ArrowPayloadType::ExpHistogramDpExemplars => {
                exp_histogram_dp_ex_idx = Some(i);
            },
            other => {
                let actual = other.to_i32();
                proof {
                    assert(first_unsupported(msgs, i as int));
                    assert(actual == msgs[i as int].payload_type.spec_to_i32());
                }
                return Err(Error::UnsupportedPayloadType { actual });
            },
        }
        i += 1;
    }
    proof {
        lemma_last_of_bounds(msgs, ArrowPayloadType::NumberDataPoints, msgs.len() as int);
        lemma_last_of_bounds(msgs, ArrowPayloadType::SummaryDataPoints, msgs.len() as int);
        lemma_last_of_bounds(msgs, ArrowPayloadType::NumberDpExemplars, msgs.len() as int);
        lemma_last_of_bounds(msgs, ArrowPayloadType::HistogramDataPoints, msgs.len() as int);
        lemma_last_of_bounds(msgs, ArrowPayloadType::HistogramDpExemplars, msgs.len() as int);
        lemma_last_of_bounds(msgs, ArrowPayloadType::ExpHistogramDataPoints, msgs.len() as int);
        lemma_last_of_bounds(msgs, ArrowPayloadType::ExpHistogramDpExemplars, msgs.len() as int);
    }
    match exp_histogram_dp_ex_idx {
        Some(k) => {
            match ExemplarsStore::from_record_batch(&rbs[k].record, &related_data.exp_histogram_exemplar_attrs_store) {
                Ok(s) => related_data.e_histogram_data_point_exemplars_store = s,
                Err(e) => return Err(e),
            }
        },
        None => {
            assert(exemplars_view(related_data.e_histogram_data_point_exemplars_store) =~= Map::empty());
        },
    }
    match histogram_dp_ex_idx {
        Some(k) => {
            match ExemplarsStore::from_record_batch(&rbs[k].record, &related_data.histogram_exemplar_attrs_store) {
                Ok(s) => related_data.histogram_data_point_exemplars_store = s,
                Err(e) => return Err(e),
            }
        },
        None => {
            assert(exemplars_view(related_data.histogram_data_point_exemplars_store) =~= Map::empty());
        },
    }
    match number_dp_ex_idx {
        Some(k) => {
            match ExemplarsStore::from_record_batch(&rbs[k].record, &related_data.number_d_p_exemplar_attrs_store) {
                Ok(s) => related_data.number_data_point_exemplars_store = s,
                Err(e) => return Err(e),
            }
        },
        None => {
            assert(exemplars_view(related_data.number_data_point_exemplars_store) =~= Map::empty());
        },
    }
    match number_dp_idx {
        Some(k) => {
            match from_record_batch(
                &rbs[k].record,
                &mut related_data.number_data_point_exemplars_store,
                &related_data.number_d_p_attrs_store,
            ) {
                Ok(s) => related_data.number_data_points_store = s,
                Err(e) => return Err(e),
            }
        },
        None => {
            assert(number_points_view(related_data.number_data_points_store) =~= Map::empty());
        },
    }
    match histogram_dp_idx {
        Some(k) => {
            match HistogramDataPointsStore::from_record_batch(
                &rbs[k].record,
                &mut related_data.histogram_data_point_exemplars_store,
                &related_data.histogram_attrs_store,
            ) {
                Ok(s) => related_data.histogram_data_points_store = s,
                Err(e) => return Err(e),
            }
        },
        None => {
            assert(histogram_points_view(related_data.histogram_data_points_store) =~= Map::empty());
        },
    }
    match exp_histogram_dp_idx {
        Some(k) => {
            match EHistogramDataPointsStore::from_record_batch(
                &rbs[k].record,
                &mut related_data.e_histogram_data_point_exemplars_store,
                &related_data.exp_histogram_attrs_store,
            ) {
                Ok(s) => related_data.e_histogram_data_points_store = s,
                Err(e) => return Err(e),
            }
        },
        None => {
            assert(exp_histogram_points_view(related_data.e_histogram_data_points_store) =~= Map::empty());
        },
    }
    match summary_dp_idx {
        Some(k) => {
            match SummaryDataPointsStore::from_record_batch(&rbs[k].record, &related_data.summary_attrs_store) {
                Ok(s) => related_data.summary_data_points_store = s,
                Err(e) => return Err(e),
            }
        },
        None => {
            assert(summary_points_view(related_data.summary_data_points_store) =~= Map::empty());
        },
    }
    Ok((related_data, metrics_record_idx))
}

} // verus!

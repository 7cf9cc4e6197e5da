//! The schema-keyed pool of stream readers, and the decoding of a batch.
//!
//! Each schema id has its own IPC stream reader, which keeps the schema it
//! learned from the first payload of that id. The pool decides, payload by
//! payload, whether the payload feeds an existing reader or needs a new one,
//! and which readers a new one replaces; whoever holds the readers carries
//! that decision out.
use vstd::prelude::*;

use crate::decode::record_message::{ArrowPayloadType, RecordMessage};
use crate::error::Error;
use crate::otlp::metric::{
    first_bad_type, main_columns_ok, metrics_from, metrics_from_error, reduce_init, reduce_rows,
    ReduceState,
};
use crate::otlp::proto::ExportMetricsServiceRequest;
use crate::otlp::related_data::{
    attrs_of, exp_histogram_points_of, from_record_messages, histogram_points_of, last_of,
    messages_error, messages_ok, number_points_of, summary_points_of,
};

verus! {

/// One table of a batch, serialized as an Arrow IPC stream fragment.
pub struct ArrowPayload {
    pub schema_id: String,
    pub payload_type: i32,
    pub record: Vec<u8>,
}

/// The unit of input: the tables of one batch, the main table first.
pub struct BatchArrowRecords {
    pub batch_id: i64,
    pub arrow_payloads: Vec<ArrowPayload>,
}

/// The reader of one schema id: the payload type of its tables.
pub struct StreamConsumer {
    pub payload_type: ArrowPayloadType,
}

/// What to do with the bytes of a payload.
pub enum StreamRoute {
    /// Replace the bytes of the reader of the payload's schema id, and read.
    Feed,
    /// Drop the readers of `evicted`, build a reader for the payload's
    /// schema id from its bytes, install it, and read.
    Create { evicted: Vec<String> },
}

/// A reader in the pool: its schema id and payload type.
pub type PoolEntry = (Seq<char>, ArrowPayloadType);

/// Whether the pool has a reader for schema `s`.
pub open spec fn has_schema(es: Seq<PoolEntry>, s: Seq<char>) -> bool {
    exists|i: int| 0 <= i < es.len() && #[trigger] es[i].0 == s
}

pub open spec fn of_other_type(t: ArrowPayloadType) -> spec_fn(PoolEntry) -> bool {
    |e: PoolEntry| e.1 != t
}

pub open spec fn of_type(t: ArrowPayloadType) -> spec_fn(PoolEntry) -> bool {
    |e: PoolEntry| e.1 == t
}

/// The pool after a payload of schema `s` and type `t`: unchanged when `s`
/// has a reader; otherwise without the readers of type `t`, and with a new
/// reader for `s` last.
pub open spec fn routed(es: Seq<PoolEntry>, s: Seq<char>, t: ArrowPayloadType) -> Seq<PoolEntry> {
    if has_schema(es, s) {
        es
    } else {
        es.filter(of_other_type(t)).push((s, t))
    }
}

/// A schema change replaces the readers of the same payload type: after a
/// payload of a new schema id `b` and type `t`, the reader of schema `a` and
/// type `t` is gone, `b` has the only reader of type `t`, and the readers of
/// the other payload types are kept, in their order.
pub proof fn lemma_schema_eviction(es: Seq<PoolEntry>, a: Seq<char>, b: Seq<char>, t: ArrowPayloadType)
    requires
        exists|i: int| 0 <= i < es.len() && es[i] == (a, t),
        !has_schema(es, b),
    ensures
        has_schema(routed(es, b, t), b),
        !routed(es, b, t).contains((a, t)),
        forall|i: int|
            0 <= i < routed(es, b, t).len() && (#[trigger] routed(es, b, t)[i]).1 == t ==> routed(
                es,
                b,
                t,
            )[i].0 == b,
        routed(es, b, t).drop_last() == es.filter(of_other_type(t)),
{
    broadcast use vstd::seq_lib::group_filter_ensures;

    let r = routed(es, b, t);
    let kept = es.filter(of_other_type(t));
    assert(r[r.len() - 1].0 == b);
    assert(r.drop_last() =~= kept);
    assert forall|i: int| 0 <= i < r.len() && (#[trigger] r[i]).1 == t implies r[i].0 == b by {
        if i < r.len() - 1 {
            assert(r[i] == kept[i]);
            assert(of_other_type(t)(kept[i]));
        }
    }
    if r.contains((a, t)) {
        let i = choose|i: int| 0 <= i < r.len() && r[i] == (a, t);
        if i < r.len() - 1 {
            assert(of_other_type(t)(kept[i]));
        } else {
            assert(has_schema(es, b));
        }
    }
}

/// Whether no two readers of the pool share a schema id.
pub open spec fn unique_schemas(es: Seq<PoolEntry>) -> bool {
    forall|i: int, j: int| 0 <= i < j < es.len() ==> es[i].0 != es[j].0
}

/// The pool of stream readers, keyed by schema id.
pub struct Consumer {
    stream_consumers: Vec<(String, StreamConsumer)>,
}

pub open spec fn entry_of(e: (String, StreamConsumer)) -> PoolEntry {
    (e.0@, e.1.payload_type)
}

impl Default for Consumer {
    /// A pool without readers.
    fn default() -> (r: Consumer)
        ensures
            r.entries() == Seq::<PoolEntry>::empty(),
            unique_schemas(r.entries()),
    {
        Consumer::new()
    }
}

impl Consumer {
    /// The readers of the pool, in the order they were installed.
    pub closed spec fn entries(&self) -> Seq<PoolEntry> {
        self.stream_consumers@.map_values(|e: (String, StreamConsumer)| entry_of(e))
    }

    /// A pool without readers.
    pub fn new() -> (r: Consumer)
        ensures
            r.entries() == Seq::<PoolEntry>::empty(),
            unique_schemas(r.entries()),
    {
        let r = Consumer { stream_consumers: Vec::new() };
        assert(r.entries() =~= Seq::<PoolEntry>::empty());
        r
    }

    /// The schema ids of the readers of the pool, in order.
    pub fn schema_ids(&self) -> (r: Vec<String>)
        ensures
            r@.len() == self.entries().len(),
            forall|i: int| 0 <= i < r@.len() ==> #[trigger] r@[i]@ == self.entries()[i].0,
    {
        let mut r: Vec<String> = Vec::new();
        let mut i: usize = 0;
        while i < self.stream_consumers.len()
            invariant
                0 <= i <= self.stream_consumers.len(),
                r@.len() == i,
                forall|j: int| 0 <= j < i ==> #[trigger] r@[j]@ == self.entries()[j].0,
            decreases self.stream_consumers.len() - i,
        {
            r.push(self.stream_consumers[i].0.clone());
            i += 1;
        }
        r
    }

    /// The payload type of the reader of `schema_id`, if it has one.
    pub fn payload_type_of(&self, schema_id: &String) -> (r: Option<ArrowPayloadType>)
        ensures
            match r {
                Some(t) => self.entries().contains((schema_id@, t)),
                None => !has_schema(self.entries(), schema_id@),
            },
    {
        let mut i: usize = 0;
        while i < self.stream_consumers.len()
            invariant
                0 <= i <= self.stream_consumers.len(),
                forall|j: int| 0 <= j < i ==> (#[trigger] self.entries()[j]).0 != schema_id@,
            decreases self.stream_consumers.len() - i,
        {
            if self.stream_consumers[i].0 == *schema_id {
                let t = self.stream_consumers[i].1.payload_type;
                assert(self.entries()[i as int] == (schema_id@, t));
                return Some(t);
            }
            i += 1;
        }
        None
    }

    /// Decides what a payload of schema `schema_id` and type `payload_type`
    /// needs: an existing reader is fed; otherwise the readers of the same
    /// payload type leave the pool and a reader is to be built, which joins
    /// the pool through `install`.
    pub fn prepare_stream(&mut self, schema_id: &String, payload_type: ArrowPayloadType) -> (r: StreamRoute)
        ensures
            unique_schemas(old(self).entries()) ==> unique_schemas(final(self).entries()),
            has_schema(old(self).entries(), schema_id@) ==> r is Feed && final(self).entries() == old(
                self,
            ).entries() && final(self).entries() == routed(old(self).entries(), schema_id@, payload_type),
            !has_schema(old(self).entries(), schema_id@) ==> {
                &&& final(self).entries() == old(self).entries().filter(of_other_type(payload_type))
                &&& final(self).entries().push((schema_id@, payload_type)) == routed(
                    old(self).entries(),
                    schema_id@,
                    payload_type,
                )
                &&& r matches StreamRoute::Create { evicted } && evicted@.map_values(|s: String| s@)
                    == old(self).entries().filter(of_type(payload_type)).map_values(|e: PoolEntry| e.0)
            },
    {
        if let Some(t) = self.payload_type_of(schema_id) {
            proof {
                let es = self.entries();
                let i = choose|i: int| 0 <= i < es.len() && es[i] == (schema_id@, t);
                assert(es[i].0 == schema_id@);
            }
            return StreamRoute::Feed;
        }
        let ghost es = self.entries();
        let mut kept: Vec<(String, StreamConsumer)> = Vec::new();
        let mut evicted: Vec<String> = Vec::new();
        let mut i: usize = 0;
        while i < self.stream_consumers.len()
            invariant
                0 <= i <= self.stream_consumers.len(),
                es == self.entries(),
                kept@.map_values(|e: (String, StreamConsumer)| entry_of(e)) == es.take(i as int).filter(
                    of_other_type(payload_type),
                ),
                evicted@.map_values(|s: String| s@) == es.take(i as int).filter(of_type(payload_type)).map_values(
                    |e: PoolEntry| e.0,
                ),
                forall|a: int|
                    0 <= a < kept@.len() ==> exists|j: int| 0 <= j < i && es[j].0 == (#[trigger] kept@[a]).0@,
                unique_schemas(es) ==> unique_schemas(kept@.map_values(|e: (String, StreamConsumer)| entry_of(e))),
            decreases self.stream_consumers.len() - i,
        {
            let id = self.stream_consumers[i].0.clone();
            let t = self.stream_consumers[i].1.payload_type;
            proof {
                es.take(i as int).lemma_filter_push(es[i as int], of_other_type(payload_type));
                es.take(i as int).lemma_filter_push(es[i as int], of_type(payload_type));
                assert(es.take(i as int + 1) =~= es.take(i as int).push(es[i as int]));
                assert(es[i as int] == (id@, t));
            }
            if t == payload_type {
                let ghost before = evicted@;
                evicted.push(id);
                proof {
                    assert(evicted@.map_values(|s: String| s@) =~= before.map_values(|s: String| s@).push(
                        es[i as int].0,
                    ));
                    assert(es.take(i as int + 1).filter(of_type(payload_type)).map_values(|e: PoolEntry| e.0)
                        =~= es.take(i as int).filter(of_type(payload_type)).map_values(|e: PoolEntry| e.0).push(
                        es[i as int].0,
                    ));
                }
            } else {
                let ghost before = kept@;
                kept.push((id, StreamConsumer { payload_type: t }));
                proof {
                    assert(kept@[kept@.len() - 1].0@ == es[i as int].0);
                    assert forall|a: int| 0 <= a < kept@.len() implies exists|j: int|
                        0 <= j < i + 1 && es[j].0 == (#[trigger] kept@[a]).0@ by {
                        if a < kept@.len() - 1 {
                            assert(kept@[a] == before[a]);
                        } else {
                            assert(es[i as int].0 == kept@[a].0@);
                        }
                    }
                    if unique_schemas(es) {
                        let kv = kept@.map_values(|e: (String, StreamConsumer)| entry_of(e));
                        let bv = before.map_values(|e: (String, StreamConsumer)| entry_of(e));
                        assert forall|x: int, y: int| 0 <= x < y < kv.len() implies kv[x].0 != kv[y].0 by {
                            if y == kv.len() - 1 {
                                let j = choose|j: int| 0 <= j < i && es[j].0 == before[x].0@;
                                assert(kv[x] == bv[x]);
                            } else {
                                assert(kv[x] == bv[x] && kv[y] == bv[y]);
                            }
                        }
                    }
                    assert(kept@.map_values(|e: (String, StreamConsumer)| entry_of(e)) =~= before.map_values(
                        |e: (String, StreamConsumer)| entry_of(e),
                    ).push(es[i as int]));
                }
            }
            i += 1;
        }
        proof {
            assert(es.take(i as int) =~= es);
        }
        self.stream_consumers = kept;
        StreamRoute::Create { evicted }
    }

    /// Installs the reader built for schema `schema_id` and type
    /// `payload_type`; a schema id that already has a reader keeps it.
    pub fn install(&mut self, schema_id: String, payload_type: ArrowPayloadType)
        ensures
            unique_schemas(old(self).entries()) ==> unique_schemas(final(self).entries()),
            !has_schema(old(self).entries(), schema_id@) ==> final(self).entries() == old(self).entries().push(
                (schema_id@, payload_type),
            ),
            has_schema(old(self).entries(), schema_id@) ==> final(self).entries() == old(self).entries(),
    {
        if let Some(t) = self.payload_type_of(&schema_id) {
            proof {
                let es = self.entries();
                let i = choose|i: int| 0 <= i < es.len() && es[i] == (schema_id@, t);
                assert(es[i].0 == schema_id@);
            }
            return;
        }
        let ghost s = schema_id@;
        self.stream_consumers.push((schema_id, StreamConsumer { payload_type }));
        proof {
            let es = old(self).entries();
            assert(self.entries() =~= es.push((s, payload_type)));
            assert forall|i: int| 0 <= i < es.len() implies es[i].0 != s by {
                if es[i].0 == s {
                    assert(has_schema(es, s));
                }
            }
        }
    }

    /// Reads the payload type of `payload` and decides what its bytes need.
    pub fn route_payload(&mut self, payload: &ArrowPayload) -> (r: Result<(ArrowPayloadType, StreamRoute), Error>)
        ensures
            unique_schemas(old(self).entries()) ==> unique_schemas(final(self).entries()),
            match ArrowPayloadType::spec_from_i32(payload.payload_type) {
                None => r matches Err(Error::UnsupportedPayloadType { actual }) && actual == payload.payload_type
                    && final(self).entries() == old(self).entries(),
                Some(t) => r matches Ok((pt, route)) && pt == t && (has_schema(old(self).entries(), payload.schema_id@)
                    ==> route is Feed && final(self).entries() == old(self).entries()) && (!has_schema(
                    old(self).entries(),
                    payload.schema_id@,
                ) ==> route is Create && final(self).entries() == old(self).entries().filter(of_other_type(t))),
            },
    {
        let payload_type = match ArrowPayloadType::from_i32(payload.payload_type) {
            Some(t) => t,
            None => return Err(Error::UnsupportedPayloadType { actual: payload.payload_type }),
        };
        let route = self.prepare_stream(&payload.schema_id, payload_type);
        Ok((payload_type, route))
    }
}

/// Checks that a batch has payloads and that its main table is a metrics
/// table, which is the one main table this library reduces.
pub fn main_payload_type(batch: &BatchArrowRecords) -> (r: Result<ArrowPayloadType, Error>)
    ensures
        batch.arrow_payloads.len() == 0 ==> (r matches Err(e) && e is EmptyBatch),
        batch.arrow_payloads.len() > 0 ==> {
            let v = batch.arrow_payloads@[0].payload_type;
            if ArrowPayloadType::spec_from_i32(v) == Some(ArrowPayloadType::UnivariateMetrics) {
                r == Ok::<ArrowPayloadType, Error>(ArrowPayloadType::UnivariateMetrics)
            } else {
                r matches Err(Error::UnsupportedPayloadType { actual }) && actual == v
            }
        },
{
    if batch.arrow_payloads.len() == 0 {
        return Err(Error::EmptyBatch);
    }
    let main_record_type = batch.arrow_payloads[0].payload_type;
    match ArrowPayloadType::from_i32(main_record_type) {
        Some(ArrowPayloadType::UnivariateMetrics) => Ok(ArrowPayloadType::UnivariateMetrics),
        _ => Err(Error::UnsupportedPayloadType { actual: main_record_type }),
    }
}

/// The state before the first row of the main table of the batch `msgs`:
/// the data points of its data point tables, the metric id at zero.
pub open spec fn batch_init(msgs: Seq<RecordMessage>) -> ReduceState {
    ReduceState {
        res_id: 0,
        scope_id: 0,
        prev_res_id: None,
        prev_scope_id: None,
        metric_id: 0,
        out: Seq::empty(),
        number: number_points_of(msgs),
        summary: summary_points_of(msgs),
        histogram: histogram_points_of(msgs),
        exp_histogram: exp_histogram_points_of(msgs),
    }
}

/// Decodes the record messages of a metrics batch: builds its stores, then
/// reduces its main metrics table.
pub fn decode_metrics(records: &[RecordMessage]) -> (r: Result<ExportMetricsServiceRequest, Error>)
    ensures
        !messages_ok(records@) ==> (r matches Err(e) && messages_error(e, records@)),
        messages_ok(records@) ==> match last_of(
            records@,
            ArrowPayloadType::UnivariateMetrics,
            records@.len() as int,
        ) {
            None => (r matches Err(e) && e is MetricRecordNotFound),
            Some(k) => {
                let main = records@[k].record;
                &&& r is Ok <==> main_columns_ok(main.columns@) && first_bad_type(
                    main.columns@,
                    main.num_rows as int,
                ) is None
                &&& r matches Err(e) ==> metrics_from_error(e, main.columns@, main.num_rows as int)
                &&& r matches Ok(req) ==> req@ == reduce_rows(
                    batch_init(records@),
                    main.columns@,
                    attrs_of::<u16>(records@, ArrowPayloadType::ResourceAttrs, records@.len() as int),
                    attrs_of::<u16>(records@, ArrowPayloadType::ScopeAttrs, records@.len() as int),
                    main.num_rows as int,
                ).out
            },
        },
{
    let (mut related_data, metric_record) = match from_record_messages(records) {
        Ok(x) => x,
        Err(e) => return Err(e),
    };
    let ghost rd0 = related_data;
    let idx = match metric_record {
        Some(i) => i,
        None => return Err(Error::MetricRecordNotFound),
    };
    proof {
        crate::otlp::related_data::lemma_last_of_bounds(
            records@,
            ArrowPayloadType::UnivariateMetrics,
            records@.len() as int,
        );
    }
    let r = metrics_from(&records[idx].record, &mut related_data);
    proof {
        assert(reduce_init(rd0) == batch_init(records@));
    }
    r
}

} // verus!

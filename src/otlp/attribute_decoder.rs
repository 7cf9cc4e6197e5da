//! Reconstruction of the absolute parent ids of an attributes table.
use vstd::prelude::*;

use crate::arrays::{column_by_name, spec_column, ArrayData, Column, NativeValue, PrimitiveArray};
use crate::error::{DataType, Error};
use crate::otlp::proto::{opt_any_view, same_opt_value, AnyValue, AnyValueView};

verus! {

/// An identifier type of an attributes table; sums of ids wrap at `modulus`.
pub trait ParentId: NativeValue + std::hash::Hash + Eq {
    spec fn modulus() -> int;

    spec fn id_int(self) -> int;

    /// The id whose integer value is `i`.
    spec fn from_int(i: int) -> Self;

    /// The logical type of a column of such ids.
    spec fn id_data_type() -> DataType;

    /// The cells of `d`, when it is a column of such ids.
    spec fn pick(d: ArrayData) -> Option<PrimitiveArray<Self>>;

    proof fn lemma_from_int(x: Self)
        ensures
            Self::from_int(x.id_int()) == x,
    ;

    /// The column of ids named `name`: missing is an error.
    fn get_id_array<'a>(cols: &'a Vec<Column>, name: &str) -> (r: Result<&'a PrimitiveArray<Self>, Error>)
        ensures
            match spec_column(cols@, name@) {
                None => r matches Err(e) && e.is_column_not_found(name@),
                Some(d) => match Self::pick(d) {
                    Some(a) => r == Ok::<&PrimitiveArray<Self>, Error>(&a),
                    None => r matches Err(e) && e.is_type_mismatch(name@, Self::id_data_type(), d.spec_data_type()),
                },
            },
    ;

    proof fn lemma_id_range(x: Self)
        ensures
            Self::modulus() > 0,
            0 <= x.id_int() < Self::modulus(),
    ;

    proof fn lemma_id_injective(x: Self, y: Self)
        ensures
            x.id_int() == y.id_int() ==> x == y,
    ;

    proof fn lemma_key_model()
        ensures
            vstd::std_specs::hash::obeys_key_model::<Self>(),
    ;

    fn zero_id() -> (r: Self)
        ensures
            r.id_int() == 0,
    ;

    fn add(self, other: Self) -> (r: Self)
        ensures
            r.id_int() == (self.id_int() + other.id_int()) % Self::modulus(),
    ;

    fn eq_id(self, other: Self) -> (r: bool)
        ensures
            r == (self == other),
    ;
}

impl ParentId for u16 {
    open spec fn modulus() -> int {
        0x1_0000
    }

    open spec fn id_int(self) -> int {
        self as int
    }

    open spec fn from_int(i: int) -> u16 {
        i as u16
    }

    open spec fn id_data_type() -> DataType {
        DataType::UInt16
    }

    open spec fn pick(d: ArrayData) -> Option<PrimitiveArray<u16>> {
        match d {
            ArrayData::UInt16(a) => Some(a),
            _ => None,
        }
    }

    proof fn lemma_from_int(x: u16) {
    }

    fn get_id_array<'a>(cols: &'a Vec<Column>, name: &str) -> (r: Result<&'a PrimitiveArray<u16>, Error>) {
        match column_by_name(cols, name) {
            None => Err(Error::ColumnNotFound { name: name.to_string() }),
            Some(ArrayData::UInt16(a)) => Ok(a),
            Some(d) => Err(
                Error::ColumnDataTypeMismatch {
                    name: name.to_string(),
                    expect: DataType::UInt16,
                    actual: d.data_type(),
                },
            ),
        }
    }

    proof fn lemma_id_range(x: u16) {
    }

    proof fn lemma_id_injective(x: u16, y: u16) {
    }

    proof fn lemma_key_model() {
        broadcast use vstd::std_specs::hash::axiom_u16_obeys_hash_table_key_model;

    }

    fn zero_id() -> (r: u16) {
        0
    }

    fn add(self, other: u16) -> (r: u16) {
        self.wrapping_add(other)
    }

    fn eq_id(self, other: u16) -> (r: bool) {
        self == other
    }
}

impl ParentId for u32 {
    open spec fn modulus() -> int {
        0x1_0000_0000
    }

    open spec fn id_int(self) -> int {
        self as int
    }

    open spec fn from_int(i: int) -> u32 {
        i as u32
    }

    open spec fn id_data_type() -> DataType {
        DataType::UInt32
    }

    open spec fn pick(d: ArrayData) -> Option<PrimitiveArray<u32>> {
        match d {
            ArrayData::UInt32(a) => Some(a),
            _ => None,
        }
    }

    proof fn lemma_from_int(x: u32) {
    }

    fn get_id_array<'a>(cols: &'a Vec<Column>, name: &str) -> (r: Result<&'a PrimitiveArray<u32>, Error>) {
        match column_by_name(cols, name) {
            None => Err(Error::ColumnNotFound { name: name.to_string() }),
            Some(ArrayData::UInt32(a)) => Ok(a),
            Some(d) => Err(
                Error::ColumnDataTypeMismatch {
                    name: name.to_string(),
                    expect: DataType::UInt32,
                    actual: d.data_type(),
                },
            ),
        }
    }

    proof fn lemma_id_range(x: u32) {
    }

    proof fn lemma_id_injective(x: u32, y: u32) {
    }

    proof fn lemma_key_model() {
        broadcast use vstd::std_specs::hash::axiom_u32_obeys_hash_table_key_model;

    }

    fn zero_id() -> (r: u32) {
        0
    }

    fn add(self, other: u32) -> (r: u32) {
        self.wrapping_add(other)
    }

    fn eq_id(self, other: u32) -> (r: bool) {
        self == other
    }
}

/// How the `parent_id` column of an attributes table is encoded.
#[derive(Clone, Copy, Debug, PartialEq, Eq, Structural)]
pub enum ParentIdEncoding {
    /// The column holds the parent ids as they are.
    ParentIdNoEncoding,
    /// The column holds each parent id as a delta from the previous one.
    ParentIdDeltaEncoding,
    /// The column holds each parent id as a delta from the previous one in
    /// the same group; a group is a run of rows with the same key and value.
    ParentIdDeltaGroupEncoding,
}

impl ParentIdEncoding {
    pub open spec fn spec_from_u8(v: u8) -> Option<ParentIdEncoding> {
        if v == 0 {
            Some(ParentIdEncoding::ParentIdNoEncoding)
        } else if v == 1 {
            Some(ParentIdEncoding::ParentIdDeltaEncoding)
        } else if v == 2 {
            Some(ParentIdEncoding::ParentIdDeltaGroupEncoding)
        } else {
            None
        }
    }

    /// The encoding that the byte `v` stands for.
    pub fn from_u8(v: u8) -> (r: Option<ParentIdEncoding>)
        ensures
            r == Self::spec_from_u8(v),
    {
        if v == 0 {
            Some(ParentIdEncoding::ParentIdNoEncoding)
        } else if v == 1 {
            Some(ParentIdEncoding::ParentIdDeltaEncoding)
        } else if v == 2 {
            Some(ParentIdEncoding::ParentIdDeltaGroupEncoding)
        } else {
            None
        }
    }
}

/// The state of a parent-id decoder, over mathematical values.
pub struct DecoderView {
    pub encoding: ParentIdEncoding,
    pub prev_id: int,
    pub prev_key: Option<Seq<char>>,
    pub prev_value: Option<AnyValueView>,
}

/// The decoder state before the first row.
pub open spec fn initial_decoder(encoding: ParentIdEncoding) -> DecoderView {
    DecoderView { encoding, prev_id: 0, prev_key: None, prev_value: None }
}

/// One row through the decoder: the next state and the absolute id.
pub open spec fn decode_step(
    s: DecoderView,
    delta: int,
    key: Seq<char>,
    value: Option<AnyValueView>,
    m: int,
) -> (DecoderView, int) {
    match s.encoding {
        ParentIdEncoding::ParentIdNoEncoding => (s, delta),
        ParentIdEncoding::ParentIdDeltaEncoding => {
            let id = (s.prev_id + delta) % m;
            (DecoderView { prev_id: id, ..s }, id)
        },
        ParentIdEncoding::ParentIdDeltaGroupEncoding => {
            if s.prev_key == Some(key) && s.prev_value == value {
                let id = (s.prev_id + delta) % m;
                (DecoderView { prev_id: id, ..s }, id)
            } else {
                (DecoderView { prev_id: delta, prev_key: Some(key), prev_value: value, ..s }, delta)
            }
        },
    }
}

/// The rows `deltas`, `keys`, `values` through the decoder, in order: the
/// final state and the absolute id of each row.
pub open spec fn decode_run(
    s: DecoderView,
    deltas: Seq<int>,
    keys: Seq<Seq<char>>,
    values: Seq<Option<AnyValueView>>,
    m: int,
) -> (DecoderView, Seq<int>)
    decreases deltas.len(),
{
    if deltas.len() == 0 {
        (s, Seq::empty())
    } else {
        let n = deltas.len() - 1;
        let prev = decode_run(s, deltas.take(n), keys.take(n), values.take(n), m);
        let step = decode_step(prev.0, deltas[n], keys[n], values[n], m);
        (step.0, prev.1.push(step.1))
    }
}

pub proof fn lemma_decode_run_len(
    s: DecoderView,
    deltas: Seq<int>,
    keys: Seq<Seq<char>>,
    values: Seq<Option<AnyValueView>>,
    m: int,
)
    ensures
        decode_run(s, deltas, keys, values, m).1.len() == deltas.len(),
    decreases deltas.len(),
{
    if deltas.len() > 0 {
        let n = deltas.len() - 1;
        lemma_decode_run_len(s, deltas.take(n), keys.take(n), values.take(n), m);
    }
}

/// Turns the parent-id column of an attributes table back into absolute ids.
pub struct AttrsParentIdDecoder<T> {
    encoding_type: ParentIdEncoding,
    prev_parent_id: T,
    prev_key: Option<String>,
    prev_value: Option<Option<AnyValue>>,
}

pub type Attrs16ParentIdDecoder = AttrsParentIdDecoder<u16>;

pub type Attrs32ParentIdDecoder = AttrsParentIdDecoder<u32>;

impl<T: ParentId> View for AttrsParentIdDecoder<T> {
    type V = DecoderView;

    closed spec fn view(&self) -> DecoderView {
        DecoderView {
            encoding: self.encoding_type,
            prev_id: self.prev_parent_id.id_int(),
            prev_key: match self.prev_key {
                Some(k) => Some(k@),
                None => None,
            },
            prev_value: match self.prev_value {
                Some(v) => opt_any_view(v),
                None => None,
            },
        }
    }
}

impl<T: ParentId> Default for AttrsParentIdDecoder<T> {
    /// The decoder for the default encoding, grouped deltas.
    fn default() -> (r: Self)
        ensures
            r@ == initial_decoder(ParentIdEncoding::ParentIdDeltaGroupEncoding),
            r.wf(),
    {
        Self::new(ParentIdEncoding::ParentIdDeltaGroupEncoding)
    }
}

impl<T: ParentId> AttrsParentIdDecoder<T> {
    /// The remembered parent id is an id of the id space.
    pub proof fn lemma_prev_id_range(&self)
        ensures
            0 <= self@.prev_id < T::modulus(),
    {
        T::lemma_id_range(self.prev_parent_id);
    }

    /// Whether the remembered key and value are both present or both absent.
    pub closed spec fn wf(&self) -> bool {
        self.prev_key is Some <==> self.prev_value is Some
    }

    /// A decoder for the given encoding, before its first row.
    pub fn new(encoding: ParentIdEncoding) -> (r: Self)
        ensures
            r@ == initial_decoder(encoding),
            r.wf(),
    {
        AttrsParentIdDecoder {
            encoding_type: encoding,
            prev_parent_id: T::zero_id(),
            prev_key: None,
            prev_value: None,
        }
    }

    /// The absolute parent id of the next row, whose parent-id cell holds
    /// `delta_or_parent_id` and whose attribute is `key` = `value`.
    pub fn decode(&mut self, delta_or_parent_id: T, key: &str, value: &Option<AnyValue>) -> (r: T)
        requires
            old(self).wf(),
        ensures
            final(self).wf(),
            0 <= final(self)@.prev_id < T::modulus(),
            (final(self)@, r.id_int()) == decode_step(
                old(self)@,
                delta_or_parent_id.id_int(),
                key@,
                opt_any_view(*value),
                T::modulus(),
            ),
    {
        proof {
            T::lemma_id_range(delta_or_parent_id);
            T::lemma_id_range(self.prev_parent_id);
        }
        match self.encoding_type {
            ParentIdEncoding::ParentIdNoEncoding => delta_or_parent_id,
            ParentIdEncoding::ParentIdDeltaEncoding => {
                let decoded = self.prev_parent_id.add(delta_or_parent_id);
                self.prev_parent_id = decoded;
                decoded
            },
            ParentIdEncoding::ParentIdDeltaGroupEncoding => {
                let same_group = match (&self.prev_key, &self.prev_value) {
                    (Some(k), Some(v)) => {
                        let key_s = key.to_string();
                        *k == key_s && same_opt_value(v, value)
                    },
                    _ => false,
                };
                if same_group {
                    let decoded = self.prev_parent_id.add(delta_or_parent_id);
                    self.prev_parent_id = decoded;
                    decoded
                } else {
                    self.prev_key = Some(key.to_string());
                    self.prev_value = Some(
                        match value {
                            Some(v) => Some(v.duplicate()),
                            None => None,
                        },
                    );
                    self.prev_parent_id = delta_or_parent_id;
                    delta_or_parent_id
                }
            },
        }
    }
}

/// The delta encoding of `ids`: the first id, then each id minus the one before.
pub open spec fn delta_encode(ids: Seq<int>) -> Seq<int> {
    Seq::new(ids.len(), |i: int| if i == 0 { ids[0] } else { ids[i] - ids[i - 1] })
}

/// Whether row `i` continues the group of row `i - 1`: same key, same value.
pub open spec fn continues_group(keys: Seq<Seq<char>>, values: Seq<Option<AnyValueView>>, i: int) -> bool {
    i > 0 && keys[i] == keys[i - 1] && values[i] == values[i - 1]
}

/// The grouped delta encoding of `ids`: a row that continues the group of the
/// row before holds the difference of their ids; the first row of a group
/// holds its id.
pub open spec fn group_delta_encode(
    ids: Seq<int>,
    keys: Seq<Seq<char>>,
    values: Seq<Option<AnyValueView>>,
) -> Seq<int> {
    Seq::new(
        ids.len(),
        |i: int| if continues_group(keys, values, i) { ids[i] - ids[i - 1] } else { ids[i] },
    )
}

pub open spec fn ids_below(ids: Seq<int>, m: int) -> bool {
    forall|i: int| 0 <= i < ids.len() ==> 0 <= #[trigger] ids[i] < m
}

/// Decoding with the plain delta encoding undoes `delta_encode` on any
/// nondecreasing sequence of ids of the id space; the decoder then holds the
/// last id.
pub proof fn lemma_delta_round_trip(
    ids: Seq<int>,
    keys: Seq<Seq<char>>,
    values: Seq<Option<AnyValueView>>,
    m: int,
)
    requires
        m > 0,
        keys.len() == ids.len(),
        values.len() == ids.len(),
        ids_below(ids, m),
        forall|i: int| 0 < i < ids.len() ==> ids[i - 1] <= #[trigger] ids[i],
    ensures
        ({
            let run = decode_run(
                initial_decoder(ParentIdEncoding::ParentIdDeltaEncoding),
                delta_encode(ids),
                keys,
                values,
                m,
            );
            &&& run.1 == ids
            &&& run.0.encoding == ParentIdEncoding::ParentIdDeltaEncoding
            &&& run.0.prev_id == (if ids.len() == 0 { 0 } else { ids.last() })
        }),
    decreases ids.len(),
{
    if ids.len() > 0 {
        let n = ids.len() - 1;
        let prefix = ids.take(n);
        assert(delta_encode(ids).take(n) =~= delta_encode(prefix));
        lemma_delta_round_trip(prefix, keys.take(n), values.take(n), m);
        let prev = decode_run(
            initial_decoder(ParentIdEncoding::ParentIdDeltaEncoding),
            delta_encode(prefix),
            keys.take(n),
            values.take(n),
            m,
        );
        assert(0 <= ids[n] < m);
        if n > 0 {
            assert(prev.0.prev_id == ids[n - 1]);
            assert((ids[n - 1] + (ids[n] - ids[n - 1])) % m == ids[n]) by (nonlinear_arith)
                requires
                    0 <= ids[n] < m,
            ;
        } else {
            assert((0 + ids[n]) % m == ids[n]) by (nonlinear_arith)
                requires
                    0 <= ids[n] < m,
            ;
        }
        assert(prev.1.push(ids[n]) =~= ids);
    } else {
        assert(ids =~= Seq::<int>::empty());
    }
}

/// Decoding with the grouped delta encoding undoes `group_delta_encode`
/// when each row keeps its key and value, and ids do not decrease within a
/// group; the decoder then holds the last row's id, key and value.
pub proof fn lemma_group_delta_round_trip(
    ids: Seq<int>,
    keys: Seq<Seq<char>>,
    values: Seq<Option<AnyValueView>>,
    m: int,
)
    requires
        m > 0,
        keys.len() == ids.len(),
        values.len() == ids.len(),
        ids_below(ids, m),
        forall|i: int|
            0 < i < ids.len() && #[trigger] continues_group(keys, values, i) ==> ids[i - 1] <= ids[i],
    ensures
        ({
            let run = decode_run(
                initial_decoder(ParentIdEncoding::ParentIdDeltaGroupEncoding),
                group_delta_encode(ids, keys, values),
                keys,
                values,
                m,
            );
            &&& run.1 == ids
            &&& run.0.encoding == ParentIdEncoding::ParentIdDeltaGroupEncoding
            &&& ids.len() == 0 ==> run.0.prev_key is None
            &&& ids.len() > 0 ==> run.0.prev_id == ids.last() && run.0.prev_key == Some(keys.last())
                && run.0.prev_value == values.last()
        }),
    decreases ids.len(),
{
    if ids.len() > 0 {
        let n = ids.len() - 1;
        let prefix = ids.take(n);
        let pk = keys.take(n);
        let pv = values.take(n);
        assert forall|i: int| 0 < i < prefix.len() && #[trigger] continues_group(pk, pv, i) implies prefix[i - 1]
            <= prefix[i] by {
            assert(continues_group(keys, values, i));
        }
        assert(group_delta_encode(ids, keys, values).take(n) =~= group_delta_encode(prefix, pk, pv));
        lemma_group_delta_round_trip(prefix, pk, pv, m);
        let prev = decode_run(
            initial_decoder(ParentIdEncoding::ParentIdDeltaGroupEncoding),
            group_delta_encode(prefix, pk, pv),
            pk,
            pv,
            m,
        );
        assert(0 <= ids[n] < m);
        if continues_group(keys, values, n) {
            assert(prev.0.prev_id == ids[n - 1]);
            assert((ids[n - 1] + (ids[n] - ids[n - 1])) % m == ids[n]) by (nonlinear_arith)
                requires
                    0 <= ids[n] < m,
            ;
        }
        assert(prev.1.push(ids[n]) =~= ids);
    } else {
        assert(ids =~= Seq::<int>::empty());
    }
}

} // verus!

//! Attributes indexed by the id of the record that owns them.
use std::collections::HashMap;
use vstd::prelude::*;

use crate::arrays::{
    cell_bool, cell_bytes, cell_f64, cell_i64, cell_str_or_empty, cell_u8, first_missing_from,
    get_binary_array_opt, get_bool_array_opt, get_f64_column_opt, get_i64_column_opt,
    get_string_array, get_string_array_opt, get_u8_array, opt_numeric_at, opt_value_at,
    lemma_first_missing_is_missing, require_columns, spec_column, ArrayData, BinaryArray, Column, NullableArrayAccessor,
    NumericColumn, PrimitiveArray, RecordBatch, StringArray,
};
use crate::error::Error;
use crate::otlp::attribute_decoder::{
    decode_run, initial_decoder, lemma_decode_run_len, AttrsParentIdDecoder, ParentId, ParentIdEncoding,
};
use crate::otlp::proto::{kvs_view, opt_any_view, AnyValue, AnyValueView, KeyValue, KeyValueView};
use crate::schema::consts;

verus! {

broadcast use vstd::std_specs::hash::group_hash_axioms;

/// Groups `kvs` by the id of the same row, keeping the order of the rows.
pub open spec fn group_by_id<T>(ids: Seq<T>, kvs: Seq<KeyValueView>) -> Map<T, Seq<KeyValueView>>
    decreases ids.len(),
{
    if ids.len() == 0 {
        Map::empty()
    } else {
        let n = ids.len() - 1;
        let m = group_by_id(ids.take(n), kvs.take(n));
        let id = ids[n];
        let before = if m.contains_key(id) {
            m[id]
        } else {
            Seq::empty()
        };
        m.insert(id, before.push(kvs[n]))
    }
}

/// The names of the columns that every attributes table has.
pub open spec fn attr_required() -> Seq<&'static str> {
    seq![consts::PARENT_ID, consts::ATTRIBUTE_KEY, consts::ATTRIBUTE_TYPE]
}

/// Whether the column named `name` is absent or satisfies `ok`.
pub open spec fn absent_or(cols: Seq<Column>, name: Seq<char>, ok: spec_fn(ArrayData) -> bool) -> bool {
    match spec_column(cols, name) {
        Some(d) => ok(d),
        None => true,
    }
}

pub open spec fn is_int64_like(d: ArrayData) -> bool {
    match d {
        ArrayData::Int64(_) => true,
        ArrayData::Dictionary(dict) => *dict.values is Int64,
        _ => false,
    }
}

pub open spec fn is_float64_like(d: ArrayData) -> bool {
    match d {
        ArrayData::Float64(_) => true,
        ArrayData::Dictionary(dict) => *dict.values is Float64,
        _ => false,
    }
}

/// Whether every column of an attributes table has its expected type.
pub open spec fn attr_columns_ok<T: ParentId>(cols: Seq<Column>) -> bool {
    &&& spec_column(cols, consts::PARENT_ID@) matches Some(d) && T::pick(d) is Some
    &&& spec_column(cols, consts::ATTRIBUTE_KEY@) matches Some(d) && d is Utf8
    &&& spec_column(cols, consts::ATTRIBUTE_TYPE@) matches Some(d) && d is UInt8
    &&& absent_or(cols, consts::ATTRIBUTE_STR@, |d: ArrayData| d is Utf8)
    &&& absent_or(cols, consts::ATTRIBUTE_INT@, |d: ArrayData| is_int64_like(d))
    &&& absent_or(cols, consts::ATTRIBUTE_DOUBLE@, |d: ArrayData| is_float64_like(d))
    &&& absent_or(cols, consts::ATTRIBUTE_BOOL@, |d: ArrayData| d is Boolean)
    &&& absent_or(cols, consts::ATTRIBUTE_BYTES@, |d: ArrayData| d is Binary)
    &&& absent_or(cols, consts::ATTRIBUTE_SER@, |d: ArrayData| d is Binary)
}

/// The parent-id cell of row `i`, a null cell counting as zero.
pub open spec fn attr_delta<T: ParentId>(cols: Seq<Column>, i: int) -> int {
    match spec_column(cols, consts::PARENT_ID@) {
        Some(d) => match T::pick(d) {
            Some(a) => match a.spec_value_at(i) {
                Some(v) => v.id_int(),
                None => 0,
            },
            None => 0,
        },
        None => 0,
    }
}

/// The value of the attribute of row `i`, selected by its `type` cell:
/// 1 string, 2 int, 3 double, 4 bool, 5 bytes, 6 serialized; any other
/// type (0 is the empty type) has no value. A null value cell reads as the
/// default of its type.
pub open spec fn attr_value(cols: Seq<Column>, i: int) -> Option<AnyValueView> {
    let t = match cell_u8(cols, consts::ATTRIBUTE_TYPE@, i) {
        Some(t) => t,
        None => 0,
    };
    if t == 1 {
        Some(AnyValueView::Str(cell_str_or_empty(cols, consts::ATTRIBUTE_STR@, i)))
    } else if t == 2 {
        Some(
            AnyValueView::Int(
                match cell_i64(cols, consts::ATTRIBUTE_INT@, i) {
                    Some(v) => v,
                    None => 0,
                },
            ),
        )
    } else if t == 3 {
        Some(
            AnyValueView::Double(
                match cell_f64(cols, consts::ATTRIBUTE_DOUBLE@, i) {
                    Some(v) => v,
                    None => 0,
                },
            ),
        )
    } else if t == 4 {
        Some(
            AnyValueView::Bool(
                match cell_bool(cols, consts::ATTRIBUTE_BOOL@, i) {
                    Some(v) => v,
                    None => false,
                },
            ),
        )
    } else if t == 5 {
        Some(
            AnyValueView::Bytes(
                match cell_bytes(cols, consts::ATTRIBUTE_BYTES@, i) {
                    Some(v) => v,
                    None => Seq::empty(),
                },
            ),
        )
    } else if t == 6 {
        Some(
            AnyValueView::Serialized(
                match cell_bytes(cols, consts::ATTRIBUTE_SER@, i) {
                    Some(v) => v,
                    None => Seq::empty(),
                },
            ),
        )
    } else {
        None
    }
}

/// The first `n` rows of an attributes table as decoder input.
pub open spec fn attr_deltas<T: ParentId>(cols: Seq<Column>, n: int) -> Seq<int> {
    Seq::new(n as nat, |i: int| attr_delta::<T>(cols, i))
}

pub open spec fn attr_keys(cols: Seq<Column>, n: int) -> Seq<Seq<char>> {
    Seq::new(n as nat, |i: int| cell_str_or_empty(cols, consts::ATTRIBUTE_KEY@, i))
}

pub open spec fn attr_values(cols: Seq<Column>, n: int) -> Seq<Option<AnyValueView>> {
    Seq::new(n as nat, |i: int| attr_value(cols, i))
}

pub open spec fn attr_kvs(cols: Seq<Column>, n: int) -> Seq<KeyValueView> {
    Seq::new(n as nat, |i: int| KeyValueView { key: attr_keys(cols, n)[i], value: attr_values(cols, n)[i] })
}

/// The absolute parent ids of the first `n` rows.
pub open spec fn attr_parent_ids<T: ParentId>(cols: Seq<Column>, n: int, encoding: ParentIdEncoding) -> Seq<T> {
    decode_run(
        initial_decoder(encoding),
        attr_deltas::<T>(cols, n),
        attr_keys(cols, n),
        attr_values(cols, n),
        T::modulus(),
    ).1.map_values(|x: int| T::from_int(x))
}

/// The attributes of the first `n` rows of a table, by parent id.
pub open spec fn attrs_by_parent<T: ParentId>(
    cols: Seq<Column>,
    n: int,
    encoding: ParentIdEncoding,
) -> Map<T, Seq<KeyValueView>> {
    group_by_id(attr_parent_ids::<T>(cols, n, encoding), attr_kvs(cols, n))
}

/// Attributes of an attributes table, indexed by parent id.
pub struct AttributeStore<T> {
    attribute_by_ids: HashMap<T, Vec<KeyValue>>,
}

impl<T: ParentId> AttributeStore<T> {
    /// The attributes of each parent id, in the order of their rows.
    pub closed spec fn view(&self) -> Map<T, Seq<KeyValueView>> {
        self.attribute_by_ids@.map_values(|v: Vec<KeyValue>| kvs_view(v@))
    }

    /// A store without attributes.
    pub fn new() -> (r: Self)
        ensures
            r.view() == Map::<T, Seq<KeyValueView>>::empty(),
    {
        let r = AttributeStore { attribute_by_ids: HashMap::new() };
        assert(r.view() =~= Map::<T, Seq<KeyValueView>>::empty());
        r
    }

    /// The attributes of parent `id`, if it has any.
    pub fn attribute_by_id(&self, id: T) -> (r: Option<&[KeyValue]>)
        ensures
            match self.view().get(id) {
                Some(v) => r matches Some(s) && kvs_view(s@) == v,
                None => r is None,
            },
    {
        proof {
            T::lemma_key_model();
        }
        match self.attribute_by_ids.get(&id) {
            Some(v) => Some(v.as_slice()),
            None => None,
        }
    }

    /// Appends `kv` to the attributes of parent `id`.
    pub fn append(&mut self, id: T, kv: KeyValue)
        ensures
            final(self).view() == old(self).view().insert(
                id,
                (if old(self).view().contains_key(id) {
                    old(self).view()[id]
                } else {
                    Seq::empty()
                }).push(kv@),
            ),
    {
        proof {
            T::lemma_key_model();
        }
        let mut list = match self.attribute_by_ids.remove(&id) {
            Some(v) => v,
            None => Vec::new(),
        };
        list.push(kv);
        self.attribute_by_ids.insert(id, list);
        proof {
            assert(kvs_view(list@) =~= (if old(self).view().contains_key(id) {
                old(self).view()[id]
            } else {
                Seq::empty()
            }).push(kv@));
            assert(self.view() =~= old(self).view().insert(
                id,
                (if old(self).view().contains_key(id) {
                    old(self).view()[id]
                } else {
                    Seq::empty()
                }).push(kv@),
            ));
        }
    }
}

/// The columns of an attributes table.
struct AttrArrays<'a, T> {
    parent_id: &'a PrimitiveArray<T>,
    key: &'a StringArray,
    value_type: &'a PrimitiveArray<u8>,
    str_value: Option<&'a StringArray>,
    int_value: Option<NumericColumn<'a, i64>>,
    double_value: Option<NumericColumn<'a, u64>>,
    bool_value: Option<&'a PrimitiveArray<bool>>,
    bytes_value: Option<&'a BinaryArray>,
    ser_value: Option<&'a BinaryArray>,
}

pub open spec fn cell_utf8(cols: Seq<Column>, name: Seq<char>, i: int) -> Option<String> {
    match spec_column(cols, name) {
        Some(ArrayData::Utf8(a)) => a.spec_value_at(i),
        _ => None,
    }
}

impl<'a, T: ParentId> AttrArrays<'a, T> {
    /// Whether these are the columns of the table `cols`.
    spec fn matches_columns(&self, cols: Seq<Column>) -> bool {
        &&& spec_column(cols, consts::PARENT_ID@) matches Some(d) && T::pick(d) == Some(*self.parent_id)
        &&& spec_column(cols, consts::ATTRIBUTE_KEY@) == Some(ArrayData::Utf8(*self.key))
        &&& spec_column(cols, consts::ATTRIBUTE_TYPE@) == Some(ArrayData::UInt8(*self.value_type))
        &&& forall|i: int| #[trigger] opt_value_at(self.str_value, i) == cell_utf8(cols, consts::ATTRIBUTE_STR@, i)
        &&& forall|i: int| #[trigger] opt_numeric_at(self.int_value, i) == cell_i64(cols, consts::ATTRIBUTE_INT@, i)
        &&& forall|i: int| #[trigger] opt_numeric_at(self.double_value, i) == cell_f64(cols, consts::ATTRIBUTE_DOUBLE@, i)
        &&& forall|i: int| #[trigger] opt_value_at(self.bool_value, i) == cell_bool(cols, consts::ATTRIBUTE_BOOL@, i)
        &&& forall|i: int| #[trigger] opt_bytes_at(self.bytes_value, i) == cell_bytes(cols, consts::ATTRIBUTE_BYTES@, i)
        &&& forall|i: int| #[trigger] opt_bytes_at(self.ser_value, i) == cell_bytes(cols, consts::ATTRIBUTE_SER@, i)
    }

    /// Reads the columns of an attributes table; presence of the required
    /// columns is checked before any type.
    fn try_new(rb: &'a RecordBatch) -> (r: Result<AttrArrays<'a, T>, Error>)
        ensures
            first_missing_from(rb.columns@, attr_required(), 0) matches Some(j) ==> r matches Err(e)
                && e.is_column_not_found(attr_required()[j]@),
            r is Ok <==> attr_columns_ok::<T>(rb.columns@),
            r matches Err(e) ==> (e is ColumnNotFound || e is ColumnDataTypeMismatch),
            r matches Ok(a) ==> a.matches_columns(rb.columns@),
    {
        let cols = &rb.columns;
        let required = [consts::PARENT_ID, consts::ATTRIBUTE_KEY, consts::ATTRIBUTE_TYPE];
        assert(required@ == attr_required());
        if let Err(e) = require_columns(cols, &required) {
            proof {
                lemma_first_missing_is_missing(rb.columns@, attr_required(), 0);
            }
            return Err(e);
        }
        let parent_id = match T::get_id_array(cols, consts::PARENT_ID) {
            Ok(a) => a,
            Err(e) => return Err(e),
        };
        let key = match get_string_array(cols, consts::ATTRIBUTE_KEY) {
            Ok(a) => a,
            Err(e) => return Err(e),
        };
        let value_type = match get_u8_array(cols, consts::ATTRIBUTE_TYPE) {
            Ok(a) => a,
            Err(e) => return Err(e),
        };
        let str_value = match get_string_array_opt(cols, consts::ATTRIBUTE_STR) {
            Ok(a) => a,
            Err(e) => return Err(e),
        };
        let int_value = match get_i64_column_opt(cols, consts::ATTRIBUTE_INT) {
            Ok(a) => a,
            Err(e) => return Err(e),
        };
        let double_value = match get_f64_column_opt(cols, consts::ATTRIBUTE_DOUBLE) {
            Ok(a) => a,
            Err(e) => return Err(e),
        };
        let bool_value = match get_bool_array_opt(cols, consts::ATTRIBUTE_BOOL) {
            Ok(a) => a,
            Err(e) => return Err(e),
        };
        let bytes_value = match get_binary_array_opt(cols, consts::ATTRIBUTE_BYTES) {
            Ok(a) => a,
            Err(e) => return Err(e),
        };
        let ser_value = match get_binary_array_opt(cols, consts::ATTRIBUTE_SER) {
            Ok(a) => a,
            Err(e) => return Err(e),
        };
        Ok(
            AttrArrays {
                parent_id,
                key,
                value_type,
                str_value,
                int_value,
                double_value,
                bool_value,
                bytes_value,
                ser_value,
            },
        )
    }

    /// The value of the attribute of row `i`.
    fn value_at_row(&self, i: usize, Ghost(cols): Ghost<Seq<Column>>) -> (r: Option<AnyValue>)
        requires
            self.matches_columns(cols),
        ensures
            opt_any_view(r) == attr_value(cols, i as int),
    {
        let t = self.value_type.value_at_or_default(i);
        assert(opt_value_at(self.str_value, i as int) == cell_utf8(cols, consts::ATTRIBUTE_STR@, i as int));
        assert(opt_numeric_at(self.int_value, i as int) == cell_i64(cols, consts::ATTRIBUTE_INT@, i as int));
        assert(opt_numeric_at(self.double_value, i as int) == cell_f64(cols, consts::ATTRIBUTE_DOUBLE@, i as int));
        assert(opt_value_at(self.bool_value, i as int) == cell_bool(cols, consts::ATTRIBUTE_BOOL@, i as int));
        assert(opt_bytes_at(self.bytes_value, i as int) == cell_bytes(cols, consts::ATTRIBUTE_BYTES@, i as int));
        assert(opt_bytes_at(self.ser_value, i as int) == cell_bytes(cols, consts::ATTRIBUTE_SER@, i as int));
        if t == 1 {
            let s = match self.str_value {
                Some(a) => a.value_at_or_default(i),
                None => String::new(),
            };
            Some(AnyValue::StringValue(s))
        } else if t == 2 {
            let v = match &self.int_value {
                Some(c) => match c.value_at(i) {
                    Some(v) => v,
                    None => 0,
                },
                None => 0,
            };
            Some(AnyValue::IntValue(v))
        } else if t == 3 {
            let v = match &self.double_value {
                Some(c) => match c.value_at(i) {
                    Some(v) => v,
                    None => 0,
                },
                None => 0,
            };
            Some(AnyValue::DoubleValue(v))
        } else if t == 4 {
            let v = match self.bool_value {
                Some(a) => a.value_at_or_default(i),
                None => false,
            };
            Some(AnyValue::BoolValue(v))
        } else if t == 5 {
            let v = match self.bytes_value {
                Some(a) => a.value_at_or_default(i),
                None => Vec::new(),
            };
            Some(AnyValue::BytesValue(v))
        } else if t == 6 {
            let v = match self.ser_value {
                Some(a) => a.value_at_or_default(i),
                None => Vec::new(),
            };
            Some(AnyValue::SerializedValue(v))
        } else {
            None
        }
    }
}

pub open spec fn opt_bytes_at(a: Option<&BinaryArray>, i: int) -> Option<Seq<u8>> {
    match a {
        Some(a) => a.spec_bytes_at(i),
        None => None,
    }
}

proof fn lemma_attr_rows_prefix<T: ParentId>(cols: Seq<Column>, i: int, encoding: ParentIdEncoding)
    requires
        0 <= i,
    ensures
        attr_deltas::<T>(cols, i + 1).take(i) == attr_deltas::<T>(cols, i),
        attr_keys(cols, i + 1).take(i) == attr_keys(cols, i),
        attr_values(cols, i + 1).take(i) == attr_values(cols, i),
        attr_kvs(cols, i + 1).take(i) == attr_kvs(cols, i),
{
    assert(attr_deltas::<T>(cols, i + 1).take(i) =~= attr_deltas::<T>(cols, i));
    assert(attr_keys(cols, i + 1).take(i) =~= attr_keys(cols, i));
    assert(attr_values(cols, i + 1).take(i) =~= attr_values(cols, i));
    assert(attr_kvs(cols, i + 1).take(i) =~= attr_kvs(cols, i));
}

impl<T: ParentId> AttributeStore<T> {
    /// Builds the store of an attributes table whose parent ids are encoded
    /// with `encoding`.
    pub fn from_record_batch(rb: &RecordBatch, encoding: ParentIdEncoding) -> (r: Result<Self, Error>)
        ensures
            first_missing_from(rb.columns@, attr_required(), 0) matches Some(j) ==> r matches Err(e)
                && e.is_column_not_found(attr_required()[j]@),
            r is Ok <==> attr_columns_ok::<T>(rb.columns@),
            r matches Err(e) ==> (e is ColumnNotFound || e is ColumnDataTypeMismatch),
            r matches Ok(s) ==> s.view() == attrs_by_parent::<T>(rb.columns@, rb.num_rows as int, encoding),
    {
        let arrays: AttrArrays<T> = match AttrArrays::try_new(rb) {
            Ok(a) => a,
            Err(e) => return Err(e),
        };
        let ghost cols = rb.columns@;
        let mut store = Self::new();
        let mut decoder = AttrsParentIdDecoder::<T>::new(encoding);
        let n = rb.num_rows;
        let mut i: usize = 0;
        proof {
            assert(attr_parent_ids::<T>(cols, 0, encoding) =~= Seq::<T>::empty());
            assert(store.view() =~= attrs_by_parent::<T>(cols, 0, encoding));
        }
        while i < n
            invariant
                0 <= i <= n,
                n == rb.num_rows,
                cols == rb.columns@,
                arrays.matches_columns(cols),
                decoder.wf(),
                decoder@ == decode_run(
                    initial_decoder(encoding),
                    attr_deltas::<T>(cols, i as int),
                    attr_keys(cols, i as int),
                    attr_values(cols, i as int),
                    T::modulus(),
                ).0,
                store.view() == attrs_by_parent::<T>(cols, i as int, encoding),
            decreases n - i,
        {
            let delta = match arrays.parent_id.value_at(i) {
                Some(d) => d,
                None => T::zero_id(),
            };
            let key = arrays.key.value_at_or_default(i);
            let value = arrays.value_at_row(i, Ghost(cols));
            let id = decoder.decode(delta, key.as_str(), &value);
            let kv = KeyValue { key, value };
            proof {
                let ii = i as int;
                lemma_attr_rows_prefix::<T>(cols, ii, encoding);
                T::lemma_from_int(id);
                assert(delta.id_int() == attr_delta::<T>(cols, ii));
                assert(kv@ == attr_kvs(cols, ii + 1)[ii]);
                let prev = decode_run(
                    initial_decoder(encoding),
                    attr_deltas::<T>(cols, ii),
                    attr_keys(cols, ii),
                    attr_values(cols, ii),
                    T::modulus(),
                );
                let run = decode_run(
                    initial_decoder(encoding),
                    attr_deltas::<T>(cols, ii + 1),
                    attr_keys(cols, ii + 1),
                    attr_values(cols, ii + 1),
                    T::modulus(),
                );
                lemma_decode_run_len(
                    initial_decoder(encoding),
                    attr_deltas::<T>(cols, ii),
                    attr_keys(cols, ii),
                    attr_values(cols, ii),
                    T::modulus(),
                );
                assert(attr_deltas::<T>(cols, ii + 1)[ii] == delta.id_int());
                assert(attr_keys(cols, ii + 1)[ii] == key@);
                assert(attr_values(cols, ii + 1)[ii] == opt_any_view(value));
                assert(run.1 == prev.1.push(id.id_int()));
                assert(run.0 == decoder@);
                assert(attr_parent_ids::<T>(cols, ii + 1, encoding) =~= attr_parent_ids::<T>(cols, ii, encoding).push(id));
                assert(attr_parent_ids::<T>(cols, ii + 1, encoding).take(ii) =~= attr_parent_ids::<T>(cols, ii, encoding));
            }
            store.append(id, kv);
            i += 1;
        }
        Ok(store)
    }
}

} // verus!

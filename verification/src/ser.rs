//! The encode direction: a depth-first walk of a typed value that emits one
//! wire node per value.
//!
//! [`spec_encode`] is the full functional specification of the mapping; the
//! executable [`serialize`] is proved to return exactly what it says, for
//! every input.  Composite nodes are accumulated through the small builder
//! types at the end of this file, mirroring the per-composite accumulators of
//! the wire protocol: an array builder that collects elements in order, and a
//! dictionary builder that pairs each key with the following value and
//! rejects keys that are not text.

use vstd::prelude::*;

use crate::error::{SerializeError, SpecSerializeError};
use crate::value::{view_fields, view_pairs, view_values, SpecValue, Value};
use crate::wire::{
    copy_bytes,
    dict_insert, spec_dict_insert, spec_has_nul, str_has_nul, view_entries, view_messages, Message,
    SpecMessage,
};

verus! {

broadcast use
    vstd::std_specs::vec::group_vec_axioms,
    crate::value::lemma_view_values_len,
    crate::value::lemma_view_values_index,
    crate::value::lemma_view_pairs_len,
    crate::value::lemma_view_pairs_index,
    crate::value::lemma_view_fields_len,
    crate::value::lemma_view_fields_index,
    crate::wire::lemma_view_messages_len,
    crate::wire::lemma_view_messages_index,
    crate::wire::lemma_view_entries_len,
    crate::wire::lemma_view_entries_index;

/// What encoding a typed value yields: either the wire node or the first
/// error met on the depth-first walk.
///
/// Scalars widen: signed integers sign-extend to 64 bits, unsigned ones
/// zero-extend, a character becomes its code point.  Text must be NUL-free.
/// An absent option, the unit and a unit struct collapse to Null; a present
/// option and a newtype struct encode transparently as their inner value.
/// Sequences, tuples and tuple structs become arrays in order.  Maps and
/// structs become dictionaries, every key being text (a map key that encodes
/// to anything else is rejected); a repeated key overwrites its first
/// occurrence.  A unit enum variant is a bare text node holding the variant
/// tag; every other variant form is a dictionary with exactly one entry,
/// keyed by the tag, whose value is the payload encoding.
pub open spec fn spec_encode(v: SpecValue) -> Result<SpecMessage, SpecSerializeError>
    decreases v, 0int,
{
    match v {
        SpecValue::Bool(b) => Ok(SpecMessage::Bool(b)),
        SpecValue::I8(x) => Ok(SpecMessage::Int64(x as i64)),
        SpecValue::I16(x) => Ok(SpecMessage::Int64(x as i64)),
        SpecValue::I32(x) => Ok(SpecMessage::Int64(x as i64)),
        SpecValue::I64(x) => Ok(SpecMessage::Int64(x as i64)),
        SpecValue::U8(x) => Ok(SpecMessage::Uint64(x as u64)),
        SpecValue::U16(x) => Ok(SpecMessage::Uint64(x as u64)),
        SpecValue::U32(x) => Ok(SpecMessage::Uint64(x as u64)),
        SpecValue::U64(x) => Ok(SpecMessage::Uint64(x as u64)),
        SpecValue::F64Bits(bits) => Ok(SpecMessage::Double(bits as u64)),
        SpecValue::Char(c) => Ok(SpecMessage::Uint64(c as u64)),
        SpecValue::Str(s) => if spec_has_nul(s) {
            Err(SpecSerializeError::NulInString)
        } else {
            Ok(SpecMessage::Str(s))
        },
        SpecValue::Bytes(b) => Ok(SpecMessage::Data(b)),
        SpecValue::OptionalNone => Ok(SpecMessage::Null),
        SpecValue::OptionalSome(inner) => spec_encode(*inner),
        SpecValue::Unit => Ok(SpecMessage::Null),
        SpecValue::UnitStruct => Ok(SpecMessage::Null),
        SpecValue::NewtypeStruct(inner) => spec_encode(*inner),
        SpecValue::Sequence(elems) => match spec_encode_elements(elems, elems.len() as int) {
            Ok(ms) => Ok(SpecMessage::Array(ms)),
            Err(e) => Err(e),
        },
        SpecValue::Tuple(elems) => match spec_encode_elements(elems, elems.len() as int) {
            Ok(ms) => Ok(SpecMessage::Array(ms)),
            Err(e) => Err(e),
        },
        SpecValue::TupleStruct(elems) => match spec_encode_elements(elems, elems.len() as int) {
            Ok(ms) => Ok(SpecMessage::Array(ms)),
            Err(e) => Err(e),
        },
        SpecValue::Mapping(pairs) => match spec_encode_pairs(pairs, pairs.len() as int) {
            Ok(entries) => Ok(SpecMessage::Dictionary(entries)),
            Err(e) => Err(e),
        },
        SpecValue::Struct(fields) => match spec_encode_fields(fields, fields.len() as int) {
            Ok(entries) => Ok(SpecMessage::Dictionary(entries)),
            Err(e) => Err(e),
        },
        SpecValue::UnitVariant(name) => if spec_has_nul(name) {
            Err(SpecSerializeError::NulInString)
        } else {
            Ok(SpecMessage::Str(name))
        },
        SpecValue::NewtypeVariant(name, inner) => if spec_has_nul(name) {
            Err(SpecSerializeError::NulInString)
        } else {
            match spec_encode(*inner) {
                Ok(m) => Ok(SpecMessage::Dictionary(seq![(name, m)])),
                Err(e) => Err(e),
            }
        },
        SpecValue::TupleVariant(name, elems) => match spec_encode_elements(
            elems,
            elems.len() as int,
        ) {
            Ok(ms) => if spec_has_nul(name) {
                Err(SpecSerializeError::NulInString)
            } else {
                Ok(SpecMessage::Dictionary(seq![(name, SpecMessage::Array(ms))]))
            },
            Err(e) => Err(e),
        },
        SpecValue::StructVariant(name, fields) => match spec_encode_fields(
            fields,
            fields.len() as int,
        ) {
            Ok(entries) => if spec_has_nul(name) {
                Err(SpecSerializeError::NulInString)
            } else {
                Ok(SpecMessage::Dictionary(seq![(name, SpecMessage::Dictionary(entries))]))
            },
            Err(e) => Err(e),
        },
    }
}

/// The encodings of the first `i` elements, in order, or the first error.
pub open spec fn spec_encode_elements(
    elems: Seq<SpecValue>,
    i: int,
) -> Result<Seq<SpecMessage>, SpecSerializeError>
    decreases elems, i,
{
    if i <= 0 || i > elems.len() {
        Ok(Seq::empty())
    } else {
        match spec_encode_elements(elems, i - 1) {
            Ok(ms) => match spec_encode(elems[i - 1]) {
                Ok(m) => Ok(ms.push(m)),
                Err(e) => Err(e),
            },
            Err(e) => Err(e),
        }
    }
}

/// The dictionary built from the first `i` key/value pairs of a map, or the
/// first error: a pair's key is encoded first and must come out as text,
/// then its value is encoded, and the entry is inserted with replacement.
pub open spec fn spec_encode_pairs(
    pairs: Seq<(SpecValue, SpecValue)>,
    i: int,
) -> Result<Seq<(Seq<char>, SpecMessage)>, SpecSerializeError>
    decreases pairs, i,
{
    if i <= 0 || i > pairs.len() {
        Ok(Seq::empty())
    } else {
        match spec_encode_pairs(pairs, i - 1) {
            Ok(entries) => match spec_encode(pairs[i - 1].0) {
                Ok(SpecMessage::Str(key)) => match spec_encode(pairs[i - 1].1) {
                    Ok(m) => Ok(spec_dict_insert(entries, key, m)),
                    Err(e) => Err(e),
                },
                Ok(_) => Err(SpecSerializeError::InvalidKey),
                Err(e) => Err(e),
            },
            Err(e) => Err(e),
        }
    }
}

/// The dictionary built from the first `i` named fields of a struct, or the
/// first error: a NUL in a field name is rejected, the field value is
/// encoded, and the entry is inserted with replacement.
pub open spec fn spec_encode_fields(
    fields: Seq<(Seq<char>, SpecValue)>,
    i: int,
) -> Result<Seq<(Seq<char>, SpecMessage)>, SpecSerializeError>
    decreases fields, i,
{
    if i <= 0 || i > fields.len() {
        Ok(Seq::empty())
    } else {
        match spec_encode_fields(fields, i - 1) {
            Ok(entries) => if spec_has_nul(fields[i - 1].0) {
                Err(SpecSerializeError::NulInString)
            } else {
                match spec_encode(fields[i - 1].1) {
                    Ok(m) => Ok(spec_dict_insert(entries, fields[i - 1].0, m)),
                    Err(e) => Err(e),
                }
            },
            Err(e) => Err(e),
        }
    }
}

/// An element encoding that has already failed stays failed however many
/// further elements follow.
pub(crate) proof fn lemma_encode_elements_extend_error(elems: Seq<SpecValue>, i: int, j: int)
    requires
        0 <= i <= j <= elems.len(),
        spec_encode_elements(elems, i) is Err,
    ensures
        spec_encode_elements(elems, j) == spec_encode_elements(elems, i),
    decreases j - i,
{
    if j > i {
        lemma_encode_elements_extend_error(elems, i, j - 1);
    }
}

/// A pair encoding that has already failed stays failed however many further
/// pairs follow.
pub(crate) proof fn lemma_encode_pairs_extend_error(pairs: Seq<(SpecValue, SpecValue)>, i: int, j: int)
    requires
        0 <= i <= j <= pairs.len(),
        spec_encode_pairs(pairs, i) is Err,
    ensures
        spec_encode_pairs(pairs, j) == spec_encode_pairs(pairs, i),
    decreases j - i,
{
    if j > i {
        lemma_encode_pairs_extend_error(pairs, i, j - 1);
    }
}

/// A field encoding that has already failed stays failed however many
/// further fields follow.
pub(crate) proof fn lemma_encode_fields_extend_error(fields: Seq<(Seq<char>, SpecValue)>, i: int, j: int)
    requires
        0 <= i <= j <= fields.len(),
        spec_encode_fields(fields, i) is Err,
    ensures
        spec_encode_fields(fields, j) == spec_encode_fields(fields, i),
    decreases j - i,
{
    if j > i {
        lemma_encode_fields_extend_error(fields, i, j - 1);
    }
}

/// Wrap a payload node into the dictionary form of a payload-bearing enum
/// variant: exactly one entry, keyed by the variant tag.
fn single_entry_dict(tag: String, payload: Message) -> (r: Message)
    ensures
        r@ == SpecMessage::Dictionary(seq![(tag@, payload@)]),
{
    let ghost tv = tag@;
    let ghost pv = payload@;
    let mut entries: Vec<(String, Message)> = Vec::new();
    entries.push((tag, payload));
    proof {
        assert(entries@.len() == 1);
        assert(entries@[0].0@ == tv);
        assert(entries@[0].1@ == pv);
        assert(view_entries(entries@) =~~= seq![(tv, pv)]);
    }
    let r = Message::Dictionary(entries);
    proof {
        assert(r@ =~~= SpecMessage::Dictionary(seq![(tv, pv)]));
    }
    r
}

/// Encode every element of a sequence, tuple or tuple struct, in order,
/// into an array node.
fn serialize_elements(elems: &Vec<Value>) -> (r: Result<Message, SerializeError>)
    ensures
        match (r, spec_encode_elements(view_values(elems@), elems@.len() as int)) {
            (Ok(m), Ok(ms)) => m@ == SpecMessage::Array(ms),
            (Err(e), Err(se)) => e@ == se,
            _ => false,
        },
    decreases *elems, 0int,
{
    let ghost es = view_values(elems@);
    let len = elems.len();
    let mut b = ArrayBuilder::new();
    let mut i: usize = 0;
    while i < len
        invariant
            len == elems@.len(),
            i <= len,
            es == view_values(elems@),
            spec_encode_elements(es, i as int) == Ok::<_, SpecSerializeError>(b.msgs()),
        decreases len - i,
    {
        match serialize(&elems[i]) {
            Ok(m) => {
                b.serialize_element(m);
            },
            Err(e) => {
                proof {
                    assert(es.len() == elems@.len());
                    assert(0 <= i + 1);
                    assert(i + 1 <= es.len());
                    assert(es[i as int] == elems@[i as int]@);
                    assert(spec_encode_elements(es, i + 1) is Err);
                    lemma_encode_elements_extend_error(es, i + 1, es.len() as int);
                }
                return Err(e);
            },
        }
        i = i + 1;
    }
    Ok(b.end())
}

/// Encode every key/value pair of a map, in order, into a dictionary node;
/// a key that does not encode to text is rejected.
fn serialize_mapping(pairs: &Vec<(Value, Value)>) -> (r: Result<Message, SerializeError>)
    ensures
        match (r, spec_encode_pairs(view_pairs(pairs@), pairs@.len() as int)) {
            (Ok(m), Ok(entries)) => m@ == SpecMessage::Dictionary(entries),
            (Err(e), Err(se)) => e@ == se,
            _ => false,
        },
    decreases *pairs, 0int,
{
    let ghost ps = view_pairs(pairs@);
    let len = pairs.len();
    let mut b = DictBuilder::new();
    let mut i: usize = 0;
    while i < len
        invariant
            len == pairs@.len(),
            i <= len,
            ps == view_pairs(pairs@),
            spec_encode_pairs(ps, i as int) == Ok::<_, SpecSerializeError>(b.entries_spec()),
            b.key_spec() is None,
        decreases len - i,
    {
        let km = match serialize(&pairs[i].0) {
            Ok(m) => m,
            Err(e) => {
                proof {
                    lemma_encode_pairs_extend_error(ps, i + 1, ps.len() as int);
                }
                return Err(e);
            },
        };
        match b.serialize_key(km) {
            Ok(u) => u,
            Err(e) => {
                proof {
                    lemma_encode_pairs_extend_error(ps, i + 1, ps.len() as int);
                }
                return Err(e);
            },
        };
        let vm = match serialize(&pairs[i].1) {
            Ok(m) => m,
            Err(e) => {
                proof {
                    lemma_encode_pairs_extend_error(ps, i + 1, ps.len() as int);
                }
                return Err(e);
            },
        };
        let stored = b.serialize_value(vm);
        proof {
            assert(stored is Ok);
        }
        i = i + 1;
    }
    Ok(b.end())
}

/// Encode every named field of a struct or struct variant, in order, into a
/// dictionary node; a NUL in a field name is rejected.
fn serialize_struct_fields(fields: &Vec<(String, Value)>) -> (r: Result<Message, SerializeError>)
    ensures
        match (r, spec_encode_fields(view_fields(fields@), fields@.len() as int)) {
            (Ok(m), Ok(entries)) => m@ == SpecMessage::Dictionary(entries),
            (Err(e), Err(se)) => e@ == se,
            _ => false,
        },
    decreases *fields, 0int,
{
    let ghost fs = view_fields(fields@);
    let len = fields.len();
    let mut b = DictBuilder::new();
    let mut i: usize = 0;
    while i < len
        invariant
            len == fields@.len(),
            i <= len,
            fs == view_fields(fields@),
            spec_encode_fields(fs, i as int) == Ok::<_, SpecSerializeError>(b.entries_spec()),
            b.key_spec() is None,
        decreases len - i,
    {
        if str_has_nul(fields[i].0.as_str()) {
            proof {
                lemma_encode_fields_extend_error(fs, i + 1, fs.len() as int);
            }
            return Err(SerializeError::NulInString);
        }
        let vm = match serialize(&fields[i].1) {
            Ok(m) => m,
            Err(e) => {
                proof {
                    lemma_encode_fields_extend_error(fs, i + 1, fs.len() as int);
                }
                return Err(e);
            },
        };
        let name = fields[i].0.clone();
        let stored = b.serialize_field(name, vm);
        proof {
            assert(stored is Ok);
        }
        i = i + 1;
    }
    Ok(b.end())
}

/// Encode a typed value into a wire message: the executable counterpart of
/// [`spec_encode`], returning exactly the node or error that it specifies.
pub fn serialize(v: &Value) -> (r: Result<Message, SerializeError>)
    ensures
        match (r, spec_encode(v@)) {
            (Ok(m), Ok(sm)) => m@ == sm,
            (Err(e), Err(se)) => e@ == se,
            _ => false,
        },
    decreases *v, 0int,
{
    match v {
        Value::Bool(b) => Ok(Message::Bool(*b)),
        Value::I8(x) => Ok(Message::Int64(*x as i64)),
        Value::I16(x) => Ok(Message::Int64(*x as i64)),
        Value::I32(x) => Ok(Message::Int64(*x as i64)),
        Value::I64(x) => Ok(Message::Int64(*x)),
        Value::U8(x) => Ok(Message::Uint64(*x as u64)),
        Value::U16(x) => Ok(Message::Uint64(*x as u64)),
        Value::U32(x) => Ok(Message::Uint64(*x as u64)),
        Value::U64(x) => Ok(Message::Uint64(*x)),
        Value::F64Bits(bits) => Ok(Message::Double(*bits)),
        Value::Char(c) => Ok(Message::Uint64(*c as u64)),
        Value::Str(s) => if str_has_nul(s.as_str()) {
            Err(SerializeError::NulInString)
        } else {
            Ok(Message::Str(s.clone()))
        },
        Value::Bytes(b) => Ok(Message::Data(copy_bytes(b))),
        Value::Optional(o) => match o {
            Option::None => Ok(Message::Null),
            Option::Some(inner) => serialize(inner),
        },
        Value::Unit => Ok(Message::Null),
        Value::UnitStruct => Ok(Message::Null),
        Value::NewtypeStruct(inner) => serialize(inner),
        Value::Sequence(elems) => serialize_elements(elems),
        Value::Tuple(elems) => serialize_elements(elems),
        Value::TupleStruct(elems) => serialize_elements(elems),
        Value::Mapping(pairs) => serialize_mapping(pairs),
        Value::Struct(fields) => serialize_struct_fields(fields),
        Value::UnitVariant(name) => if str_has_nul(name.as_str()) {
            Err(SerializeError::NulInString)
        } else {
            Ok(Message::Str(name.clone()))
        },
        Value::NewtypeVariant(name, inner) => if str_has_nul(name.as_str()) {
            Err(SerializeError::NulInString)
        } else {
            match serialize(inner) {
                Ok(m) => Ok(single_entry_dict(name.clone(), m)),
                Err(e) => Err(e),
            }
        },
        Value::TupleVariant(name, elems) => match serialize_elements(elems) {
            Ok(arr) => if str_has_nul(name.as_str()) {
                Err(SerializeError::NulInString)
            } else {
                Ok(single_entry_dict(name.clone(), arr))
            },
            Err(e) => Err(e),
        },
        Value::StructVariant(name, fields) => match serialize_struct_fields(fields) {
            Ok(dict) => if str_has_nul(name.as_str()) {
                Err(SerializeError::NulInString)
            } else {
                Ok(single_entry_dict(name.clone(), dict))
            },
            Err(e) => Err(e),
        },
    }
}

/// Accumulator for the elements of a sequence, tuple or tuple struct while
/// it is being encoded; `end` seals the collected elements into an array
/// node.
pub struct ArrayBuilder {
    elements: Vec<Message>,
}

impl ArrayBuilder {
    /// The elements collected so far.
    pub closed spec fn msgs(self) -> Seq<SpecMessage> {
        view_messages(self.elements@)
    }

    /// An empty accumulator.
    pub fn new() -> (r: ArrayBuilder)
        ensures
            r.msgs() == Seq::<SpecMessage>::empty(),
    {
        let r = ArrayBuilder { elements: Vec::new() };
        proof {
            assert(r.msgs() =~= Seq::<SpecMessage>::empty());
        }
        r
    }

    /// Append one encoded element.
    pub fn serialize_element(&mut self, m: Message)
        ensures
            final(self).msgs() == old(self).msgs().push(m@),
    {
        let ghost before = self.msgs();
        self.elements.push(m);
        proof {
            assert(self.msgs() =~= before.push(m@));
        }
    }

    /// Seal the collected elements into an array node.
    pub fn end(self) -> (r: Message)
        ensures
            r@ == SpecMessage::Array(self.msgs()),
    {
        Message::Array(self.elements)
    }
}

/// Accumulator for the entries of a map or struct while it is being encoded.
///
/// A map caller alternates `serialize_key` and `serialize_value`; a struct
/// caller uses `serialize_field` for each named field.  Only text can key an
/// entry, a value supplied without a preceding key is an API-misuse error,
/// and a repeated key overwrites its first occurrence.
pub struct DictBuilder {
    entries: Vec<(String, Message)>,
    key: Option<String>,
}

impl DictBuilder {
    /// The entries collected so far.
    pub closed spec fn entries_spec(self) -> Seq<(Seq<char>, SpecMessage)> {
        view_entries(self.entries@)
    }

    /// The key waiting for its value, if any.
    pub closed spec fn key_spec(self) -> Option<Seq<char>> {
        match self.key {
            Option::None => Option::None,
            Option::Some(k) => Option::Some(k@),
        }
    }

    /// An empty accumulator with no key pending.
    pub fn new() -> (r: DictBuilder)
        ensures
            r.entries_spec() == Seq::<(Seq<char>, SpecMessage)>::empty(),
            r.key_spec() is None,
    {
        let r = DictBuilder { entries: Vec::new(), key: Option::None };
        proof {
            assert(r.entries_spec() =~= Seq::<(Seq<char>, SpecMessage)>::empty());
        }
        r
    }

    /// Accept an encoded map key, which must be a text node; anything else
    /// is rejected with `InvalidKey` and leaves the accumulator unchanged.
    pub fn serialize_key(&mut self, key: Message) -> (r: Result<(), SerializeError>)
        ensures
            final(self).entries_spec() == old(self).entries_spec(),
            match key@ {
                SpecMessage::Str(s) => r is Ok && final(self).key_spec() == Option::Some(s),
                _ => r == Err::<(), SerializeError>(SerializeError::InvalidKey)
                    && final(self).key_spec() == old(self).key_spec(),
            },
    {
        match key {
            Message::Str(s) => {
                self.key = Option::Some(s);
                Ok(())
            },
            _ => Err(SerializeError::InvalidKey),
        }
    }

    /// Accept the encoded value for the key supplied just before; a value
    /// without a pending key is rejected with `MissingKey`.
    pub fn serialize_value(&mut self, value: Message) -> (r: Result<(), SerializeError>)
        ensures
            final(self).key_spec() is None,
            match old(self).key_spec() {
                Option::Some(k) => r is Ok && final(self).entries_spec() == spec_dict_insert(
                    old(self).entries_spec(),
                    k,
                    value@,
                ),
                Option::None => r == Err::<(), SerializeError>(SerializeError::MissingKey)
                    && final(self).entries_spec() == old(self).entries_spec(),
            },
    {
        let ghost before = self.entries_spec();
        match self.key.take() {
            Option::Some(key) => {
                dict_insert(&mut self.entries, key, value);
                Ok(())
            },
            Option::None => Err(SerializeError::MissingKey),
        }
    }

    /// Accept one named struct field; a NUL in the name is rejected, since
    /// the name becomes a dictionary key.
    pub fn serialize_field(&mut self, name: String, value: Message) -> (r: Result<
        (),
        SerializeError,
    >)
        ensures
            final(self).key_spec() == old(self).key_spec(),
            if spec_has_nul(name@) {
                r == Err::<(), SerializeError>(SerializeError::NulInString)
                    && final(self).entries_spec() == old(self).entries_spec()
            } else {
                r is Ok && final(self).entries_spec() == spec_dict_insert(
                    old(self).entries_spec(),
                    name@,
                    value@,
                )
            },
    {
        if str_has_nul(name.as_str()) {
            Err(SerializeError::NulInString)
        } else {
            dict_insert(&mut self.entries, name, value);
            Ok(())
        }
    }

    /// Seal the collected entries into a dictionary node; a key still
    /// waiting for its value is discarded.
    pub fn end(self) -> (r: Message)
        ensures
            r@ == SpecMessage::Dictionary(self.entries_spec()),
    {
        Message::Dictionary(self.entries)
    }
}

} // verus!

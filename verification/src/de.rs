//! The decode direction: a wire node is dispatched against the shape the
//! caller requests, and a typed value is rebuilt from it.
//!
//! [`decode_spec`] is the full functional specification of the mapping; the
//! executable [`deserialize`] is proved to return exactly what it says, for
//! every input.  Composite nodes are drained through forward-only accessors:
//! one over array elements, one over dictionary entries, and one
//! specializing dictionary access to the single-entry "variant tag to
//! payload" form used by enums.
//!
//! A text node is handled by [`decode_str_spec`] whatever the requested
//! shape, since dictionary keys and enum tags re-enter the decoder as bare
//! text.  Integer requests accept either integer node and truncate with no
//! range check; a character request instead demands that the node's full
//! value be a Unicode code point.  A dictionary decoded as an enum is read
//! through its first entry, and carrying more than one entry makes the
//! choice explicit rather than unspecified.

use vstd::prelude::*;
use vstd::string::*;
use vstd::utf8::is_scalar;

use crate::error::{DeserializeError, SpecDeserializeError, WireKind};
use crate::num::{
    char_from_u32, i64_to_i16, i64_to_i32, i64_to_i8, i64_to_u16, i64_to_u32, i64_to_u64,
    i64_to_u8, u64_to_i16, u64_to_i32, u64_to_i64, u64_to_i8, u64_to_u16, u64_to_u32, u64_to_u8,
    wrap_signed, wrap_unsigned,
};
use crate::value::{
    spec_find_variant, spec_find_variant_from, view_field_shapes, view_fields, view_pairs,
    view_shapes, view_values, view_variants, Shape, SpecShape, SpecValue, SpecVariantShape, Value,
    VariantShape,
};
use crate::wire::{
    copy_bytes, find_key, message_kind, spec_find_key, view_entries, view_messages, Message,
    SpecMessage,
};

verus! {

broadcast use
    vstd::std_specs::vec::group_vec_axioms,
    crate::value::lemma_view_values_len,
    crate::value::lemma_view_values_index,
    crate::value::lemma_view_pairs_len,
    crate::value::lemma_view_pairs_index,
    crate::value::lemma_view_fields_len,
    crate::value::lemma_view_fields_index,
    crate::value::lemma_view_shapes_len,
    crate::value::lemma_view_shapes_index,
    crate::value::lemma_view_field_shapes_len,
    crate::value::lemma_view_field_shapes_index,
    crate::value::lemma_view_variants_len,
    crate::value::lemma_view_variants_index,
    crate::wire::lemma_view_messages_len,
    crate::wire::lemma_view_messages_index,
    crate::wire::lemma_view_entries_len,
    crate::wire::lemma_view_entries_index,
    crate::wire::lemma_spec_find_key_range,
    crate::value::lemma_spec_find_variant_range;

/// The wire kind a shape asks for, used as the "expected" half of an
/// `Unexpected` report.  An optional or newtype request never reports
/// directly, so it carries its inner shape's expectation.
pub open spec fn shape_kind(s: SpecShape) -> WireKind
    decreases s,
{
    match s {
        SpecShape::Bool => WireKind::Bool,
        SpecShape::I8 => WireKind::Int64,
        SpecShape::I16 => WireKind::Int64,
        SpecShape::I32 => WireKind::Int64,
        SpecShape::I64 => WireKind::Int64,
        SpecShape::U8 => WireKind::Uint64,
        SpecShape::U16 => WireKind::Uint64,
        SpecShape::U32 => WireKind::Uint64,
        SpecShape::U64 => WireKind::Uint64,
        SpecShape::F64 => WireKind::Double,
        SpecShape::Char => WireKind::Uint64,
        SpecShape::Str => WireKind::Str,
        SpecShape::Bytes => WireKind::Bytes,
        SpecShape::Optional(inner) => shape_kind(*inner),
        SpecShape::Unit => WireKind::Null,
        SpecShape::UnitStruct => WireKind::Null,
        SpecShape::NewtypeStruct(inner) => shape_kind(*inner),
        SpecShape::Sequence(_) => WireKind::Array,
        SpecShape::Tuple(_) => WireKind::Array,
        SpecShape::TupleStruct(_) => WireKind::Array,
        SpecShape::Mapping(_, _) => WireKind::Dict,
        SpecShape::Struct(_) => WireKind::Dict,
        SpecShape::Enum(_) => WireKind::Enum,
        SpecShape::Any => WireKind::Any,
    }
}

/// What decoding a text node yields for each requested shape.
///
/// Text satisfies a string request directly, a character request when it is
/// exactly one character long, and an enum request when it names a unit
/// variant (a payload-bearing variant must use the dictionary form).  An
/// optional request wraps the text as present; a newtype request passes it
/// through.  Every other request is a shape mismatch.
pub open spec fn decode_str_spec(k: Seq<char>, s: SpecShape) -> Result<
    SpecValue,
    SpecDeserializeError,
>
    decreases s,
{
    match s {
        SpecShape::Str => Ok(SpecValue::Str(k)),
        SpecShape::Char => if k.len() == 1 {
            Ok(SpecValue::Char(k[0] as int))
        } else {
            Err(SpecDeserializeError::Unexpected(WireKind::Uint64, WireKind::Str))
        },
        SpecShape::Enum(variants) => {
            let vi = spec_find_variant(variants, k);
            if vi < 0 {
                Err(SpecDeserializeError::Unexpected(WireKind::Enum, WireKind::Str))
            } else {
                match variants[vi].1 {
                    SpecVariantShape::Unit => Ok(SpecValue::UnitVariant(k)),
                    _ => Err(SpecDeserializeError::Unexpected(WireKind::Dict, WireKind::Str)),
                }
            }
        },
        SpecShape::Optional(inner) => match decode_str_spec(k, *inner) {
            Ok(v) => Ok(SpecValue::OptionalSome(Box::new(v))),
            Err(e) => Err(e),
        },
        SpecShape::NewtypeStruct(inner) => match decode_str_spec(k, *inner) {
            Ok(v) => Ok(SpecValue::NewtypeStruct(Box::new(v))),
            Err(e) => Err(e),
        },
        SpecShape::Any => Ok(SpecValue::Str(k)),
        _ => Err(SpecDeserializeError::Unexpected(shape_kind(s), WireKind::Str)),
    }
}

/// What self-describing decoding yields: every wire node has a natural typed
/// counterpart, found without any requested shape.
pub open spec fn decode_any_spec(m: SpecMessage) -> SpecValue
    decreases m, 0int,
{
    match m {
        SpecMessage::Bool(b) => SpecValue::Bool(b),
        SpecMessage::Double(bits) => SpecValue::F64Bits(bits as int),
        SpecMessage::Int64(v) => SpecValue::I64(v as int),
        SpecMessage::Uint64(v) => SpecValue::U64(v as int),
        SpecMessage::Str(s) => SpecValue::Str(s),
        SpecMessage::Data(d) => SpecValue::Bytes(d),
        SpecMessage::Array(elems) => SpecValue::Sequence(
            decode_any_elements(elems, elems.len() as int),
        ),
        SpecMessage::Dictionary(entries) => SpecValue::Mapping(
            decode_any_entries(entries, entries.len() as int),
        ),
        SpecMessage::Null => SpecValue::Unit,
    }
}

/// The self-describing decodings of the first `i` array elements.
pub open spec fn decode_any_elements(elems: Seq<SpecMessage>, i: int) -> Seq<SpecValue>
    decreases elems, i,
{
    if i <= 0 || i > elems.len() {
        Seq::empty()
    } else {
        decode_any_elements(elems, i - 1).push(decode_any_spec(elems[i - 1]))
    }
}

/// The self-describing decodings of the first `i` dictionary entries: each
/// key becomes a text value, each value decodes self-describing.
pub open spec fn decode_any_entries(entries: Seq<(Seq<char>, SpecMessage)>, i: int) -> Seq<
    (SpecValue, SpecValue),
>
    decreases entries, i,
{
    if i <= 0 || i > entries.len() {
        Seq::empty()
    } else {
        decode_any_entries(entries, i - 1).push(
            (SpecValue::Str(entries[i - 1].0), decode_any_spec(entries[i - 1].1)),
        )
    }
}

/// The decodings of the first `i` array elements against one element shape,
/// in order, or the first error.
pub open spec fn decode_elements_spec(elems: Seq<SpecMessage>, s: SpecShape, i: int) -> Result<
    Seq<SpecValue>,
    SpecDeserializeError,
>
    decreases elems, s, i,
{
    if i <= 0 || i > elems.len() {
        Ok(Seq::empty())
    } else {
        match decode_elements_spec(elems, s, i - 1) {
            Ok(vs) => match decode_spec(elems[i - 1], s) {
                Ok(v) => Ok(vs.push(v)),
                Err(e) => Err(e),
            },
            Err(e) => Err(e),
        }
    }
}

/// The decodings of array elements against the first `i` per-position tuple
/// shapes, or the first error; asking for a position the array does not have
/// is exhaustion.
pub open spec fn decode_tuple_spec(
    elems: Seq<SpecMessage>,
    shapes: Seq<SpecShape>,
    i: int,
) -> Result<Seq<SpecValue>, SpecDeserializeError>
    decreases elems, shapes, i,
{
    if i <= 0 || i > shapes.len() {
        Ok(Seq::empty())
    } else {
        match decode_tuple_spec(elems, shapes, i - 1) {
            Ok(vs) => if i - 1 >= elems.len() {
                Err(SpecDeserializeError::EndOfArray)
            } else {
                match decode_spec(elems[i - 1], shapes[i - 1]) {
                    Ok(v) => Ok(vs.push(v)),
                    Err(e) => Err(e),
                }
            },
            Err(e) => Err(e),
        }
    }
}

/// The decodings of the first `i` dictionary entries against one key shape
/// and one value shape, in entry order, or the first error.  A key re-enters
/// the decoder as a bare text node.
pub open spec fn decode_mapping_spec(
    entries: Seq<(Seq<char>, SpecMessage)>,
    ks: SpecShape,
    vs: SpecShape,
    i: int,
) -> Result<Seq<(SpecValue, SpecValue)>, SpecDeserializeError>
    decreases entries, vs, i,
{
    if i <= 0 || i > entries.len() {
        Ok(Seq::empty())
    } else {
        match decode_mapping_spec(entries, ks, vs, i - 1) {
            Ok(pairs) => match decode_str_spec(entries[i - 1].0, ks) {
                Ok(kv) => match decode_spec(entries[i - 1].1, vs) {
                    Ok(vv) => Ok(pairs.push((kv, vv))),
                    Err(e) => Err(e),
                },
                Err(e) => Err(e),
            },
            Err(e) => Err(e),
        }
    }
}

/// The decodings of the first `i` requested struct fields, each looked up in
/// the dictionary by name, or the first error.  An entry the shape does not
/// name is ignored; a field the dictionary does not hold is missing.
pub open spec fn decode_struct_spec(
    entries: Seq<(Seq<char>, SpecMessage)>,
    fields: Seq<(Seq<char>, SpecShape)>,
    i: int,
) -> Result<Seq<(Seq<char>, SpecValue)>, SpecDeserializeError>
    decreases entries, fields, i,
{
    if i <= 0 || i > fields.len() {
        Ok(Seq::empty())
    } else {
        match decode_struct_spec(entries, fields, i - 1) {
            Ok(fvs) => {
                let j = spec_find_key(entries, fields[i - 1].0);
                if j < 0 {
                    Err(SpecDeserializeError::Custom("missing field "@ + fields[i - 1].0))
                } else {
                    match decode_spec(entries[j].1, fields[i - 1].1) {
                        Ok(v) => Ok(fvs.push((fields[i - 1].0, v))),
                        Err(e) => Err(e),
                    }
                }
            },
            Err(e) => Err(e),
        }
    }
}

/// What decoding a wire node against a requested shape yields: the typed
/// value, or the first structural mismatch met.
///
/// A text node is handled by [`decode_str_spec`] whatever the shape.  Exact
/// requests (bool, float, bytes, unit) demand their own node kind.  Integer
/// requests accept either integer node and truncate; a character request
/// accepts either integer node whose full value is a Unicode code point.  An
/// optional request reads Null as absent and anything else as present.
/// Sequence, tuple and map requests walk the node's children; a struct
/// request looks its fields up by name.  An enum request reads the first
/// entry of a dictionary as the variant tag and decodes the entry's value as
/// the payload; an empty dictionary is exhausted, and a unit variant must
/// use the bare text form instead.  The "any" request decodes
/// self-describing and cannot fail.
pub open spec fn decode_spec(m: SpecMessage, s: SpecShape) -> Result<
    SpecValue,
    SpecDeserializeError,
>
    decreases m, s, 0int,
{
    match m {
        SpecMessage::Str(k) => decode_str_spec(k, s),
        _ => match s {
            SpecShape::Bool => match m {
                SpecMessage::Bool(b) => Ok(SpecValue::Bool(b)),
                _ => Err(SpecDeserializeError::Unexpected(WireKind::Bool, m.kind())),
            },
            SpecShape::I8 => match m {
                SpecMessage::Int64(v) => Ok(SpecValue::I8(wrap_signed(v as int, 0x100))),
                SpecMessage::Uint64(v) => Ok(SpecValue::I8(wrap_signed(v as int, 0x100))),
                _ => Err(SpecDeserializeError::Unexpected(WireKind::Int64, m.kind())),
            },
            SpecShape::I16 => match m {
                SpecMessage::Int64(v) => Ok(SpecValue::I16(wrap_signed(v as int, 0x10000))),
                SpecMessage::Uint64(v) => Ok(SpecValue::I16(wrap_signed(v as int, 0x10000))),
                _ => Err(SpecDeserializeError::Unexpected(WireKind::Int64, m.kind())),
            },
            SpecShape::I32 => match m {
                SpecMessage::Int64(v) => Ok(SpecValue::I32(wrap_signed(v as int, 0x1_0000_0000))),
                SpecMessage::Uint64(v) => Ok(SpecValue::I32(wrap_signed(v as int, 0x1_0000_0000))),
                _ => Err(SpecDeserializeError::Unexpected(WireKind::Int64, m.kind())),
            },
            SpecShape::I64 => match m {
                SpecMessage::Int64(v) => Ok(SpecValue::I64(v as int)),
                SpecMessage::Uint64(v) => Ok(
                    SpecValue::I64(wrap_signed(v as int, 0x1_0000_0000_0000_0000)),
                ),
                _ => Err(SpecDeserializeError::Unexpected(WireKind::Int64, m.kind())),
            },
            SpecShape::U8 => match m {
                SpecMessage::Int64(v) => Ok(SpecValue::U8(wrap_unsigned(v as int, 0x100))),
                SpecMessage::Uint64(v) => Ok(SpecValue::U8(wrap_unsigned(v as int, 0x100))),
                _ => Err(SpecDeserializeError::Unexpected(WireKind::Uint64, m.kind())),
            },
            SpecShape::U16 => match m {
                SpecMessage::Int64(v) => Ok(SpecValue::U16(wrap_unsigned(v as int, 0x10000))),
                SpecMessage::Uint64(v) => Ok(SpecValue::U16(wrap_unsigned(v as int, 0x10000))),
                _ => Err(SpecDeserializeError::Unexpected(WireKind::Uint64, m.kind())),
            },
            SpecShape::U32 => match m {
                SpecMessage::Int64(v) => Ok(SpecValue::U32(wrap_unsigned(v as int, 0x1_0000_0000))),
                SpecMessage::Uint64(v) => Ok(
                    SpecValue::U32(wrap_unsigned(v as int, 0x1_0000_0000)),
                ),
                _ => Err(SpecDeserializeError::Unexpected(WireKind::Uint64, m.kind())),
            },
            SpecShape::U64 => match m {
                SpecMessage::Int64(v) => Ok(
                    SpecValue::U64(wrap_unsigned(v as int, 0x1_0000_0000_0000_0000)),
                ),
                SpecMessage::Uint64(v) => Ok(SpecValue::U64(v as int)),
                _ => Err(SpecDeserializeError::Unexpected(WireKind::Uint64, m.kind())),
            },
            SpecShape::F64 => match m {
                SpecMessage::Double(bits) => Ok(SpecValue::F64Bits(bits as int)),
                _ => Err(SpecDeserializeError::Unexpected(WireKind::Double, m.kind())),
            },
            SpecShape::Char => match m {
                SpecMessage::Int64(v) => decode_char_code(v as int, m.kind()),
                SpecMessage::Uint64(v) => decode_char_code(v as int, m.kind()),
                _ => Err(SpecDeserializeError::Unexpected(WireKind::Uint64, m.kind())),
            },
            SpecShape::Str => Err(SpecDeserializeError::Unexpected(WireKind::Str, m.kind())),
            SpecShape::Bytes => match m {
                SpecMessage::Data(d) => Ok(SpecValue::Bytes(d)),
                _ => Err(SpecDeserializeError::Unexpected(WireKind::Bytes, m.kind())),
            },
            SpecShape::Optional(inner) => match m {
                SpecMessage::Null => Ok(SpecValue::OptionalNone),
                _ => match decode_spec(m, *inner) {
                    Ok(v) => Ok(SpecValue::OptionalSome(Box::new(v))),
                    Err(e) => Err(e),
                },
            },
            SpecShape::Unit => match m {
                SpecMessage::Null => Ok(SpecValue::Unit),
                _ => Err(SpecDeserializeError::Unexpected(WireKind::Null, m.kind())),
            },
            SpecShape::UnitStruct => match m {
                SpecMessage::Null => Ok(SpecValue::UnitStruct),
                _ => Err(SpecDeserializeError::Unexpected(WireKind::Null, m.kind())),
            },
            SpecShape::NewtypeStruct(inner) => match decode_spec(m, *inner) {
                Ok(v) => Ok(SpecValue::NewtypeStruct(Box::new(v))),
                Err(e) => Err(e),
            },
            SpecShape::Sequence(es) => match m {
                SpecMessage::Array(elems) => match decode_elements_spec(
                    elems,
                    *es,
                    elems.len() as int,
                ) {
                    Ok(vs) => Ok(SpecValue::Sequence(vs)),
                    Err(e) => Err(e),
                },
                _ => Err(SpecDeserializeError::Unexpected(WireKind::Array, m.kind())),
            },
            SpecShape::Tuple(ss) => match m {
                SpecMessage::Array(elems) => match decode_tuple_spec(elems, ss, ss.len() as int) {
                    Ok(vs) => Ok(SpecValue::Tuple(vs)),
                    Err(e) => Err(e),
                },
                _ => Err(SpecDeserializeError::Unexpected(WireKind::Array, m.kind())),
            },
            SpecShape::TupleStruct(ss) => match m {
                SpecMessage::Array(elems) => match decode_tuple_spec(elems, ss, ss.len() as int) {
                    Ok(vs) => Ok(SpecValue::TupleStruct(vs)),
                    Err(e) => Err(e),
                },
                _ => Err(SpecDeserializeError::Unexpected(WireKind::Array, m.kind())),
            },
            SpecShape::Mapping(ks, vs) => match m {
                SpecMessage::Dictionary(entries) => match decode_mapping_spec(
                    entries,
                    *ks,
                    *vs,
                    entries.len() as int,
                ) {
                    Ok(pairs) => Ok(SpecValue::Mapping(pairs)),
                    Err(e) => Err(e),
                },
                _ => Err(SpecDeserializeError::Unexpected(WireKind::Dict, m.kind())),
            },
            SpecShape::Struct(fields) => match m {
                SpecMessage::Dictionary(entries) => match decode_struct_spec(
                    entries,
                    fields,
                    fields.len() as int,
                ) {
                    Ok(fvs) => Ok(SpecValue::Struct(fvs)),
                    Err(e) => Err(e),
                },
                _ => Err(SpecDeserializeError::Unexpected(WireKind::Dict, m.kind())),
            },
            SpecShape::Enum(variants) => match m {
                SpecMessage::Dictionary(entries) => if entries.len() == 0 {
                    Err(SpecDeserializeError::EndOfArray)
                } else {
                    decode_variant_spec(entries[0].0, entries[0].1, variants)
                },
                _ => Err(SpecDeserializeError::Unexpected(WireKind::Enum, m.kind())),
            },
            SpecShape::Any => Ok(decode_any_spec(m)),
        },
    }
}

/// What decoding the tag and payload of an enum dictionary yields.  The tag
/// must name a known variant; a unit variant must use the bare text form,
/// and the payload decodes as an array for a tuple variant, a dictionary for
/// a struct variant, and any shape for a newtype variant.
pub open spec fn decode_variant_spec(
    tag: Seq<char>,
    payload: SpecMessage,
    variants: Seq<(Seq<char>, SpecVariantShape)>,
) -> Result<SpecValue, SpecDeserializeError>
    decreases payload, variants, 0int,
{
    let vi = spec_find_variant(variants, tag);
    if vi < 0 {
        Err(SpecDeserializeError::Unexpected(WireKind::Enum, WireKind::Str))
    } else {
        match variants[vi].1 {
            SpecVariantShape::Unit => Err(
                SpecDeserializeError::Unexpected(WireKind::Str, WireKind::Dict),
            ),
            SpecVariantShape::Newtype(inner) => match decode_spec(payload, *inner) {
                Ok(v) => Ok(SpecValue::NewtypeVariant(tag, Box::new(v))),
                Err(e) => Err(e),
            },
            SpecVariantShape::Tuple(ss) => match payload {
                SpecMessage::Array(pelems) => match decode_tuple_spec(
                    pelems,
                    ss,
                    ss.len() as int,
                ) {
                    Ok(vs) => Ok(SpecValue::TupleVariant(tag, vs)),
                    Err(e) => Err(e),
                },
                _ => Err(SpecDeserializeError::Unexpected(WireKind::Array, payload.kind())),
            },
            SpecVariantShape::Struct(fs) => match payload {
                SpecMessage::Dictionary(pentries) => match decode_struct_spec(
                    pentries,
                    fs,
                    fs.len() as int,
                ) {
                    Ok(fvs) => Ok(SpecValue::StructVariant(tag, fvs)),
                    Err(e) => Err(e),
                },
                _ => Err(SpecDeserializeError::Unexpected(WireKind::Dict, payload.kind())),
            },
        }
    }
}

/// True when the integer is a Unicode code point that a character can hold:
/// at most 0x10FFFF and not a surrogate.
pub open spec fn spec_is_code_point(cp: int) -> bool {
    0 <= cp <= 0x10FFFF && !(0xD800 <= cp <= 0xDFFF)
}

/// On values that fit in 32 bits, [`spec_is_code_point`] coincides with the
/// scalar-value test of vstd's UTF-8 theory.
pub proof fn lemma_code_point_is_scalar(u: u32)
    ensures
        is_scalar(u) <==> spec_is_code_point(u as int),
{
}

/// What an integer node decodes to under a character request: the node's
/// full value must be a Unicode code point.  `src` is the node's kind, for
/// the error report.
pub open spec fn decode_char_code(cp: int, src: WireKind) -> Result<
    SpecValue,
    SpecDeserializeError,
> {
    if spec_is_code_point(cp) {
        Ok(SpecValue::Char(cp))
    } else {
        Err(SpecDeserializeError::Unexpected(WireKind::Char, src))
    }
}

/// An element decoding that has already failed stays failed however many
/// further elements follow.
pub(crate) proof fn lemma_decode_elements_extend_error(elems: Seq<SpecMessage>, s: SpecShape, i: int, j: int)
    requires
        0 <= i <= j <= elems.len(),
        decode_elements_spec(elems, s, i) is Err,
    ensures
        decode_elements_spec(elems, s, j) == decode_elements_spec(elems, s, i),
    decreases j - i,
{
    if j > i {
        lemma_decode_elements_extend_error(elems, s, i, j - 1);
    }
}

/// A tuple-position decoding that has already failed stays failed however
/// many further positions follow.
pub(crate) proof fn lemma_decode_tuple_extend_error(
    elems: Seq<SpecMessage>,
    shapes: Seq<SpecShape>,
    i: int,
    j: int,
)
    requires
        0 <= i <= j <= shapes.len(),
        decode_tuple_spec(elems, shapes, i) is Err,
    ensures
        decode_tuple_spec(elems, shapes, j) == decode_tuple_spec(elems, shapes, i),
    decreases j - i,
{
    if j > i {
        lemma_decode_tuple_extend_error(elems, shapes, i, j - 1);
    }
}

/// An entry decoding that has already failed stays failed however many
/// further entries follow.
pub(crate) proof fn lemma_decode_mapping_extend_error(
    entries: Seq<(Seq<char>, SpecMessage)>,
    ks: SpecShape,
    vs: SpecShape,
    i: int,
    j: int,
)
    requires
        0 <= i <= j <= entries.len(),
        decode_mapping_spec(entries, ks, vs, i) is Err,
    ensures
        decode_mapping_spec(entries, ks, vs, j) == decode_mapping_spec(entries, ks, vs, i),
    decreases j - i,
{
    if j > i {
        lemma_decode_mapping_extend_error(entries, ks, vs, i, j - 1);
    }
}

/// A field decoding that has already failed stays failed however many
/// further fields follow.
pub(crate) proof fn lemma_decode_struct_extend_error(
    entries: Seq<(Seq<char>, SpecMessage)>,
    fields: Seq<(Seq<char>, SpecShape)>,
    i: int,
    j: int,
)
    requires
        0 <= i <= j <= fields.len(),
        decode_struct_spec(entries, fields, i) is Err,
    ensures
        decode_struct_spec(entries, fields, j) == decode_struct_spec(entries, fields, i),
    decreases j - i,
{
    if j > i {
        lemma_decode_struct_extend_error(entries, fields, i, j - 1);
    }
}

/// Forward-only cursor over the elements of an array node; elements are
/// yielded once, in order.
pub struct SeqAccessor<'a> {
    elements: &'a Vec<Message>,
    pos: usize,
}

impl<'a> SeqAccessor<'a> {
    /// The full element list being drained.
    pub closed spec fn elems(self) -> Seq<Message> {
        self.elements@
    }

    /// How many elements have been yielded so far.
    pub closed spec fn taken(self) -> int {
        self.pos as int
    }

    /// The cursor never runs past the end.
    pub closed spec fn wf(self) -> bool {
        self.pos <= self.elements@.len()
    }

    /// A cursor at the front of the given elements.
    pub fn new(elements: &'a Vec<Message>) -> (r: Self)
        ensures
            r.elems() == elements@,
            r.taken() == 0,
            r.wf(),
    {
        SeqAccessor { elements, pos: 0 }
    }

    /// The next element, or nothing once all have been yielded.
    pub fn next_element(&mut self) -> (r: Option<&'a Message>)
        requires
            old(self).wf(),
        ensures
            final(self).wf(),
            final(self).elems() == old(self).elems(),
            if old(self).taken() < old(self).elems().len() {
                &&& r matches Some(el) && *el == old(self).elems()[old(self).taken()]
                &&& final(self).taken() == old(self).taken() + 1
            } else {
                r is None && final(self).taken() == old(self).taken()
            },
    {
        if self.pos < self.elements.len() {
            let el = &self.elements[self.pos];
            self.pos = self.pos + 1;
            Some(el)
        } else {
            None
        }
    }

    /// How many elements remain: a pre-allocation hint, not a guarantee.
    pub fn size_hint(&self) -> (n: usize)
        requires
            self.wf(),
        ensures
            n == self.elems().len() - self.taken(),
    {
        self.elements.len() - self.pos
    }
}

/// Forward-only cursor over the entries of a dictionary node: each entry's
/// key is yielded first, and the paired value is held back until asked for.
pub struct MapAccessor<'a> {
    entries: &'a Vec<(String, Message)>,
    pos: usize,
    current_value: Option<&'a Message>,
}

impl<'a> MapAccessor<'a> {
    /// The full entry list being drained.
    pub closed spec fn all_entries(self) -> Seq<(String, Message)> {
        self.entries@
    }

    /// How many entries have had their key yielded so far.
    pub closed spec fn taken(self) -> int {
        self.pos as int
    }

    /// The value paired with the key yielded last, not yet asked for.
    pub closed spec fn pending(self) -> Option<Message> {
        match self.current_value {
            Option::None => Option::None,
            Option::Some(m) => Option::Some(*m),
        }
    }

    /// The cursor never runs past the end.
    pub closed spec fn wf(self) -> bool {
        self.pos <= self.entries@.len()
    }

    /// A cursor at the front of the given entries, with no value pending.
    pub fn new(entries: &'a Vec<(String, Message)>) -> (r: Self)
        ensures
            r.all_entries() == entries@,
            r.taken() == 0,
            r.pending() is None,
            r.wf(),
    {
        MapAccessor { entries, pos: 0, current_value: Option::None }
    }

    /// The next entry's key, holding its value back for [`Self::next_value`];
    /// nothing once all entries have been yielded.
    pub fn next_key(&mut self) -> (r: Option<&'a String>)
        requires
            old(self).wf(),
        ensures
            final(self).wf(),
            final(self).all_entries() == old(self).all_entries(),
            if old(self).taken() < old(self).all_entries().len() {
                &&& r matches Some(k) && *k == old(self).all_entries()[old(self).taken()].0
                &&& final(self).pending() == Option::Some(
                    old(self).all_entries()[old(self).taken()].1,
                )
                &&& final(self).taken() == old(self).taken() + 1
            } else {
                &&& r is None
                &&& final(self).taken() == old(self).taken()
                &&& final(self).pending() == old(self).pending()
            },
    {
        if self.pos < self.entries.len() {
            let k = &self.entries[self.pos].0;
            self.current_value = Option::Some(&self.entries[self.pos].1);
            self.pos = self.pos + 1;
            Some(k)
        } else {
            None
        }
    }

    /// The value paired with the key yielded last.  Asking for a value
    /// without a preceding key is a caller error, excluded by contract.
    pub fn next_value(&mut self) -> (r: &'a Message)
        requires
            old(self).wf(),
            old(self).pending() is Some,
        ensures
            final(self).wf(),
            final(self).all_entries() == old(self).all_entries(),
            final(self).taken() == old(self).taken(),
            final(self).pending() is None,
            Option::Some(*r) == old(self).pending(),
    {
        let r = match self.current_value {
            Option::Some(m) => m,
            Option::None => vstd::pervasive::unreached(),
        };
        self.current_value = Option::None;
        r
    }

    /// How many entries remain: a pre-allocation hint, not a guarantee.
    pub fn size_hint(&self) -> (n: usize)
        requires
            self.wf(),
        ensures
            n == self.all_entries().len() - self.taken(),
    {
        self.entries.len() - self.pos
    }
}

/// Accessor specializing dictionary access to the single-entry "variant tag
/// to payload" form used by payload-bearing enum variants: the first entry
/// decides, and an empty dictionary is exhausted.
pub struct EnumAccessor<'a> {
    entries: &'a Vec<(String, Message)>,
}

impl<'a> EnumAccessor<'a> {
    /// The dictionary entries behind the accessor.
    pub closed spec fn all_entries(self) -> Seq<(String, Message)> {
        self.entries@
    }

    /// An accessor over the given entries.
    pub fn new(entries: &'a Vec<(String, Message)>) -> (r: Self)
        ensures
            r.all_entries() == entries@,
    {
        EnumAccessor { entries }
    }

    /// The variant tag and payload: the first entry of the dictionary, or
    /// exhaustion when it has none.
    pub fn variant(&self) -> (r: Result<(&'a String, &'a Message), DeserializeError>)
        ensures
            match r {
                Ok((tag, payload)) => self.all_entries().len() > 0 && *tag == self.all_entries()[0].0
                    && *payload == self.all_entries()[0].1,
                Err(e) => self.all_entries().len() == 0 && e@
                    == SpecDeserializeError::EndOfArray,
            },
    {
        if self.entries.len() == 0 {
            Err(DeserializeError::EndOfArray)
        } else {
            Ok((&self.entries[0].0, &self.entries[0].1))
        }
    }
}

/// The first variant index whose tag equals `name`, if any.
fn find_variant(variants: &Vec<(String, VariantShape)>, name: &String) -> (r: Option<usize>)
    ensures
        match r {
            Some(i) => i < variants@.len() && spec_find_variant(view_variants(variants@), name@)
                == i as int,
            None => spec_find_variant(view_variants(variants@), name@) == -1,
        },
{
    let ghost vv = view_variants(variants@);
    let len = variants.len();
    let mut i: usize = 0;
    while i < len
        invariant
            len == variants@.len(),
            i <= len,
            vv == view_variants(variants@),
            spec_find_variant(vv, name@) == spec_find_variant_from(vv, name@, i as int),
        decreases len - i,
    {
        if variants[i].0.eq(name) {
            return Some(i);
        }
        i = i + 1;
    }
    None
}

/// The wire kind a shape asks for; executable counterpart of
/// [`shape_kind`].
fn shape_kind_of(shape: &Shape) -> (k: WireKind)
    ensures
        k == shape_kind(shape@),
    decreases *shape,
{
    match shape {
        Shape::Bool => WireKind::Bool,
        Shape::I8 => WireKind::Int64,
        Shape::I16 => WireKind::Int64,
        Shape::I32 => WireKind::Int64,
        Shape::I64 => WireKind::Int64,
        Shape::U8 => WireKind::Uint64,
        Shape::U16 => WireKind::Uint64,
        Shape::U32 => WireKind::Uint64,
        Shape::U64 => WireKind::Uint64,
        Shape::F64 => WireKind::Double,
        Shape::Char => WireKind::Uint64,
        Shape::Str => WireKind::Str,
        Shape::Bytes => WireKind::Bytes,
        Shape::Optional(inner) => shape_kind_of(inner),
        Shape::Unit => WireKind::Null,
        Shape::UnitStruct => WireKind::Null,
        Shape::NewtypeStruct(inner) => shape_kind_of(inner),
        Shape::Sequence(_) => WireKind::Array,
        Shape::Tuple(_) => WireKind::Array,
        Shape::TupleStruct(_) => WireKind::Array,
        Shape::Mapping(_, _) => WireKind::Dict,
        Shape::Struct(_) => WireKind::Dict,
        Shape::Enum(_) => WireKind::Enum,
        Shape::Any => WireKind::Any,
    }
}

/// Decode a text node against a requested shape; executable counterpart of
/// [`decode_str_spec`].
fn decode_str_with(k: &String, shape: &Shape) -> (r: Result<Value, DeserializeError>)
    ensures
        match (r, decode_str_spec(k@, shape@)) {
            (Ok(v), Ok(sv)) => v@ == sv,
            (Err(e), Err(se)) => e@ == se,
            _ => false,
        },
    decreases *shape,
{
    match shape {
        Shape::Str => Ok(Value::Str(k.clone())),
        Shape::Char => if k.as_str().unicode_len() == 1 {
            Ok(Value::Char(k.as_str().get_char(0)))
        } else {
            Err(DeserializeError::Unexpected(WireKind::Uint64, WireKind::Str))
        },
        Shape::Enum(variants) => match find_variant(variants, k) {
            Some(vi) => match &variants[vi].1 {
                VariantShape::Unit => Ok(Value::UnitVariant(k.clone())),
                _ => Err(DeserializeError::Unexpected(WireKind::Dict, WireKind::Str)),
            },
            None => Err(DeserializeError::Unexpected(WireKind::Enum, WireKind::Str)),
        },
        Shape::Optional(inner) => match decode_str_with(k, inner) {
            Ok(v) => Ok(Value::Optional(Some(Box::new(v)))),
            Err(e) => Err(e),
        },
        Shape::NewtypeStruct(inner) => match decode_str_with(k, inner) {
            Ok(v) => Ok(Value::NewtypeStruct(Box::new(v))),
            Err(e) => Err(e),
        },
        Shape::Any => Ok(Value::Str(k.clone())),
        _ => Err(DeserializeError::Unexpected(shape_kind_of(shape), WireKind::Str)),
    }
}

/// Decode a wire node self-describing; executable counterpart of
/// [`decode_any_spec`].  This direction cannot fail.
#[verifier::loop_isolation(false)]
fn decode_any(m: &Message) -> (r: Value)
    ensures
        r@ == decode_any_spec(m@),
    decreases *m, 0int,
{
    match m {
        Message::Bool(b) => Value::Bool(*b),
        Message::Double(bits) => Value::F64Bits(*bits),
        Message::Int64(v) => Value::I64(*v),
        Message::Uint64(v) => Value::U64(*v),
        Message::Str(s) => Value::Str(s.clone()),
        Message::Data(d) => Value::Bytes(copy_bytes(d)),
        Message::Array(elems) => {
            let ghost ms = view_messages(elems@);
            let len = elems.len();
            let mut acc = SeqAccessor::new(elems);
            let mut out: Vec<Value> = Vec::new();
            let mut i: usize = 0;
            while i < len
                invariant
                    len == elems@.len(),
                    i <= len,
                    ms == view_messages(elems@),
                    acc.wf(),
                    acc.elems() == elems@,
                    acc.taken() == i as int,
                    view_values(out@) == decode_any_elements(ms, i as int),
                decreases len - i,
            {
                let ghost out_before = view_values(out@);
                let el = match acc.next_element() {
                    Some(el) => el,
                    None => vstd::pervasive::unreached(),
                };
                let v = decode_any(el);
                let ghost vv = v@;
                out.push(v);
                proof {
                    assert(view_values(out@) =~= out_before.push(vv));
                }
                i = i + 1;
            }
            Value::Sequence(out)
        },
        Message::Dictionary(entries) => {
            let ghost es = view_entries(entries@);
            let len = entries.len();
            let mut acc = MapAccessor::new(entries);
            let mut out: Vec<(Value, Value)> = Vec::new();
            let mut i: usize = 0;
            while i < len
                invariant
                    len == entries@.len(),
                    i <= len,
                    es == view_entries(entries@),
                    acc.wf(),
                    acc.all_entries() == entries@,
                    acc.taken() == i as int,
                    view_pairs(out@) == decode_any_entries(es, i as int),
                decreases len - i,
            {
                let ghost out_before = view_pairs(out@);
                let key = match acc.next_key() {
                    Some(k) => k,
                    None => vstd::pervasive::unreached(),
                };
                let val = acc.next_value();
                let kv = Value::Str(key.clone());
                let vv = decode_any(val);
                let ghost kvv = kv@;
                let ghost vvv = vv@;
                out.push((kv, vv));
                proof {
                    assert(view_pairs(out@) =~= out_before.push((kvv, vvv)));
                }
                i = i + 1;
            }
            Value::Mapping(out)
        },
        Message::Null => Value::Unit,
    }
}

/// Decode every element of an array node against one element shape, in
/// order.
#[verifier::loop_isolation(false)]
fn decode_elements_with(elems: &Vec<Message>, s: &Shape) -> (r: Result<Vec<Value>, DeserializeError>)
    ensures
        match (r, decode_elements_spec(view_messages(elems@), s@, elems@.len() as int)) {
            (Ok(vs), Ok(svs)) => view_values(vs@) == svs,
            (Err(e), Err(se)) => e@ == se,
            _ => false,
        },
    decreases *elems, *s, 1int,
{
    let ghost ms = view_messages(elems@);
    let len = elems.len();
    let mut acc = SeqAccessor::new(elems);
    let mut out: Vec<Value> = Vec::new();
    let mut i: usize = 0;
    while i < len
        invariant
            i <= len,
            acc.wf(),
            acc.elems() == elems@,
            acc.taken() == i as int,
            decode_elements_spec(ms, s@, i as int) matches Ok(vs) && vs == view_values(out@),
        decreases len - i,
    {
        let el = match acc.next_element() {
            Some(el) => el,
            None => vstd::pervasive::unreached(),
        };
        match decode_at(el, s) {
            Ok(v) => {
                let ghost vv = v@;
                let ghost out_before = view_values(out@);
                out.push(v);
                proof {
                    assert(view_values(out@) =~= out_before.push(vv));
                }
            },
            Err(e) => {
                proof {
                    lemma_decode_elements_extend_error(ms, s@, i + 1, ms.len() as int);
                }
                return Err(e);
            },
        }
        i = i + 1;
    }
    Ok(out)
}

/// Decode array elements against per-position tuple shapes; running out of
/// elements before shapes is exhaustion.
#[verifier::loop_isolation(false)]
fn decode_tuple_with(elems: &Vec<Message>, shapes: &Vec<Shape>) -> (r: Result<
    Vec<Value>,
    DeserializeError,
>)
    ensures
        match (r, decode_tuple_spec(view_messages(elems@), view_shapes(shapes@), shapes@.len() as int)) {
            (Ok(vs), Ok(svs)) => view_values(vs@) == svs,
            (Err(e), Err(se)) => e@ == se,
            _ => false,
        },
    decreases *elems, *shapes, 1int,
{
    let ghost ms = view_messages(elems@);
    let ghost ss = view_shapes(shapes@);
    let len = shapes.len();
    let mut acc = SeqAccessor::new(elems);
    let mut out: Vec<Value> = Vec::new();
    let mut i: usize = 0;
    while i < len
        invariant
            i <= len,
            acc.wf(),
            acc.elems() == elems@,
            acc.taken() == i as int || acc.taken() == elems@.len(),
            i as int <= elems@.len() ==> acc.taken() == i as int,
            decode_tuple_spec(ms, ss, i as int) matches Ok(vs) && vs == view_values(out@),
        decreases len - i,
    {
        match acc.next_element() {
            Some(el) => {
                match decode_at(el, &shapes[i]) {
                    Ok(v) => {
                        let ghost vv = v@;
                        let ghost out_before = view_values(out@);
                        out.push(v);
                        proof {
                            assert(view_values(out@) =~= out_before.push(vv));
                        }
                    },
                    Err(e) => {
                        proof {
                            lemma_decode_tuple_extend_error(ms, ss, i + 1, ss.len() as int);
                        }
                        return Err(e);
                    },
                }
            },
            None => {
                proof {
                    lemma_decode_tuple_extend_error(ms, ss, i + 1, ss.len() as int);
                }
                return Err(DeserializeError::EndOfArray);
            },
        }
        i = i + 1;
    }
    Ok(out)
}

/// Decode every entry of a dictionary node against one key shape and one
/// value shape, in entry order.
#[verifier::loop_isolation(false)]
fn decode_mapping_with(entries: &Vec<(String, Message)>, ks: &Shape, vs: &Shape) -> (r: Result<
    Vec<(Value, Value)>,
    DeserializeError,
>)
    ensures
        match (r, decode_mapping_spec(view_entries(entries@), ks@, vs@, entries@.len() as int)) {
            (Ok(pairs), Ok(spairs)) => view_pairs(pairs@) == spairs,
            (Err(e), Err(se)) => e@ == se,
            _ => false,
        },
    decreases *entries, *vs, 1int,
{
    let ghost es = view_entries(entries@);
    let len = entries.len();
    let mut acc = MapAccessor::new(entries);
    let mut out: Vec<(Value, Value)> = Vec::new();
    let mut i: usize = 0;
    while i < len
        invariant
            i <= len,
            acc.wf(),
            acc.all_entries() == entries@,
            acc.taken() == i as int,
            decode_mapping_spec(es, ks@, vs@, i as int) matches Ok(pairs) && pairs == view_pairs(
                out@,
            ),
        decreases len - i,
    {
        let key = match acc.next_key() {
            Some(k) => k,
            None => vstd::pervasive::unreached(),
        };
        let kv = match decode_str_with(key, ks) {
            Ok(kv) => kv,
            Err(e) => {
                proof {
                    lemma_decode_mapping_extend_error(es, ks@, vs@, i + 1, es.len() as int);
                }
                return Err(e);
            },
        };
        let val = acc.next_value();
        let vv = match decode_at(val, vs) {
            Ok(vv) => vv,
            Err(e) => {
                proof {
                    lemma_decode_mapping_extend_error(es, ks@, vs@, i + 1, es.len() as int);
                }
                return Err(e);
            },
        };
        let ghost kvv = kv@;
        let ghost vvv = vv@;
        let ghost out_before = view_pairs(out@);
        out.push((kv, vv));
        proof {
            assert(view_pairs(out@) =~= out_before.push((kvv, vvv)));
        }
        i = i + 1;
    }
    Ok(out)
}

/// Decode the requested struct fields, each looked up in the dictionary by
/// name; entries the shape does not name are ignored.
#[verifier::loop_isolation(false)]
fn decode_struct_with(entries: &Vec<(String, Message)>, fields: &Vec<(String, Shape)>) -> (r:
    Result<Vec<(String, Value)>, DeserializeError>)
    ensures
        match (r, decode_struct_spec(view_entries(entries@), view_field_shapes(fields@), fields@.len() as int)) {
            (Ok(fvs), Ok(sfvs)) => view_fields(fvs@) == sfvs,
            (Err(e), Err(se)) => e@ == se,
            _ => false,
        },
    decreases *entries, *fields, 1int,
{
    let ghost es = view_entries(entries@);
    let ghost fs = view_field_shapes(fields@);
    let len = fields.len();
    let mut out: Vec<(String, Value)> = Vec::new();
    let mut i: usize = 0;
    while i < len
        invariant
            i <= len,
            decode_struct_spec(es, fs, i as int) matches Ok(fvs) && fvs == view_fields(out@),
        decreases len - i,
    {
        match find_key(entries, &fields[i].0) {
            Some(j) => {
                match decode_at(&entries[j].1, &fields[i].1) {
                    Ok(v) => {
                        let name = fields[i].0.clone();
                        let ghost nv = name@;
                        let ghost vv = v@;
                        let ghost out_before = view_fields(out@);
                        out.push((name, v));
                        proof {
                            assert(view_fields(out@) =~= out_before.push((nv, vv)));
                        }
                    },
                    Err(e) => {
                        proof {
                            lemma_decode_struct_extend_error(es, fs, i + 1, fs.len() as int);
                        }
                        return Err(e);
                    },
                }
            },
            None => {
                proof {
                    lemma_decode_struct_extend_error(es, fs, i + 1, fs.len() as int);
                }
                let msg = String::from_str("missing field ").concat(fields[i].0.as_str());
                return Err(DeserializeError::Custom(msg));
            },
        }
        i = i + 1;
    }
    Ok(out)
}

/// `r` is exactly what [`decode_spec`] yields for this node and shape: the
/// same value up to views on success, the same error on failure.
pub open spec fn decodes_as(
    r: Result<Value, DeserializeError>,
    m: SpecMessage,
    s: SpecShape,
) -> bool {
    match (r, decode_spec(m, s)) {
        (Ok(v), Ok(sv)) => v@ == sv,
        (Err(e), Err(se)) => e@ == se,
        _ => false,
    }
}

/// Decode a wire node against a requested shape; executable counterpart of
/// [`decode_spec`].  The contract is stated shape by shape to keep each
/// proof obligation small; together the clauses cover every shape.
fn decode_at(m: &Message, shape: &Shape) -> (r: Result<Value, DeserializeError>)
    ensures
        shape@ is Bool ==> decodes_as(r, m@, shape@),
        shape@ is I8 ==> decodes_as(r, m@, shape@),
        shape@ is I16 ==> decodes_as(r, m@, shape@),
        shape@ is I32 ==> decodes_as(r, m@, shape@),
        shape@ is I64 ==> decodes_as(r, m@, shape@),
        shape@ is U8 ==> decodes_as(r, m@, shape@),
        shape@ is U16 ==> decodes_as(r, m@, shape@),
        shape@ is U32 ==> decodes_as(r, m@, shape@),
        shape@ is U64 ==> decodes_as(r, m@, shape@),
        shape@ is F64 ==> decodes_as(r, m@, shape@),
        shape@ is Char ==> decodes_as(r, m@, shape@),
        shape@ is Str ==> decodes_as(r, m@, shape@),
        shape@ is Bytes ==> decodes_as(r, m@, shape@),
        shape@ is Optional ==> decodes_as(r, m@, shape@),
        shape@ is Unit ==> decodes_as(r, m@, shape@),
        shape@ is UnitStruct ==> decodes_as(r, m@, shape@),
        shape@ is NewtypeStruct ==> decodes_as(r, m@, shape@),
        shape@ is Sequence ==> decodes_as(r, m@, shape@),
        shape@ is Tuple ==> decodes_as(r, m@, shape@),
        shape@ is TupleStruct ==> decodes_as(r, m@, shape@),
        shape@ is Mapping ==> decodes_as(r, m@, shape@),
        shape@ is Struct ==> decodes_as(r, m@, shape@),
        shape@ is Enum ==> decodes_as(r, m@, shape@),
        shape@ is Any ==> decodes_as(r, m@, shape@),
    decreases *m, *shape, 0int,
{
    match m {
        Message::Str(k) => decode_str_with(k, shape),
        _ => match shape {
            Shape::Bool => match m {
                Message::Bool(b) => Ok(Value::Bool(*b)),
                _ => Err(DeserializeError::Unexpected(WireKind::Bool, message_kind(m))),
            },
            Shape::I8 => match m {
                Message::Int64(v) => Ok(Value::I8(i64_to_i8(*v))),
                Message::Uint64(v) => Ok(Value::I8(u64_to_i8(*v))),
                _ => Err(DeserializeError::Unexpected(WireKind::Int64, message_kind(m))),
            },
            Shape::I16 => match m {
                Message::Int64(v) => Ok(Value::I16(i64_to_i16(*v))),
                Message::Uint64(v) => Ok(Value::I16(u64_to_i16(*v))),
                _ => Err(DeserializeError::Unexpected(WireKind::Int64, message_kind(m))),
            },
            Shape::I32 => match m {
                Message::Int64(v) => Ok(Value::I32(i64_to_i32(*v))),
                Message::Uint64(v) => Ok(Value::I32(u64_to_i32(*v))),
                _ => Err(DeserializeError::Unexpected(WireKind::Int64, message_kind(m))),
            },
            Shape::I64 => match m {
                Message::Int64(v) => Ok(Value::I64(*v)),
                Message::Uint64(v) => Ok(Value::I64(u64_to_i64(*v))),
                _ => Err(DeserializeError::Unexpected(WireKind::Int64, message_kind(m))),
            },
            Shape::U8 => match m {
                Message::Int64(v) => Ok(Value::U8(i64_to_u8(*v))),
                Message::Uint64(v) => Ok(Value::U8(u64_to_u8(*v))),
                _ => Err(DeserializeError::Unexpected(WireKind::Uint64, message_kind(m))),
            },
            Shape::U16 => match m {
                Message::Int64(v) => Ok(Value::U16(i64_to_u16(*v))),
                Message::Uint64(v) => Ok(Value::U16(u64_to_u16(*v))),
                _ => Err(DeserializeError::Unexpected(WireKind::Uint64, message_kind(m))),
            },
            Shape::U32 => match m {
                Message::Int64(v) => Ok(Value::U32(i64_to_u32(*v))),
                Message::Uint64(v) => Ok(Value::U32(u64_to_u32(*v))),
                _ => Err(DeserializeError::Unexpected(WireKind::Uint64, message_kind(m))),
            },
            Shape::U64 => match m {
                Message::Int64(v) => Ok(Value::U64(i64_to_u64(*v))),
                Message::Uint64(v) => Ok(Value::U64(*v)),
                _ => Err(DeserializeError::Unexpected(WireKind::Uint64, message_kind(m))),
            },
            Shape::F64 => match m {
                Message::Double(bits) => Ok(Value::F64Bits(*bits)),
                _ => Err(DeserializeError::Unexpected(WireKind::Double, message_kind(m))),
            },
            Shape::Char => match m {
                Message::Int64(v) => if *v < 0 || *v > 0x10FFFF {
                    Err(DeserializeError::Unexpected(WireKind::Char, message_kind(m)))
                } else {
                    proof {
                        lemma_code_point_is_scalar(*v as u32);
                    }
                    match char_from_u32(*v as u32) {
                        Some(c) => Ok(Value::Char(c)),
                        None => Err(
                            DeserializeError::Unexpected(WireKind::Char, message_kind(m)),
                        ),
                    }
                },
                Message::Uint64(v) => if *v > 0x10FFFF {
                    Err(DeserializeError::Unexpected(WireKind::Char, message_kind(m)))
                } else {
                    proof {
                        lemma_code_point_is_scalar(*v as u32);
                    }
                    match char_from_u32(*v as u32) {
                        Some(c) => Ok(Value::Char(c)),
                        None => Err(
                            DeserializeError::Unexpected(WireKind::Char, message_kind(m)),
                        ),
                    }
                },
                _ => Err(DeserializeError::Unexpected(WireKind::Uint64, message_kind(m))),
            },
            Shape::Str => Err(DeserializeError::Unexpected(WireKind::Str, message_kind(m))),
            Shape::Bytes => match m {
                Message::Data(d) => Ok(Value::Bytes(copy_bytes(d))),
                _ => Err(DeserializeError::Unexpected(WireKind::Bytes, message_kind(m))),
            },
            Shape::Optional(inner) => match m {
                Message::Null => Ok(Value::Optional(None)),
                _ => match decode_at(m, inner) {
                    Ok(v) => Ok(Value::Optional(Some(Box::new(v)))),
                    Err(e) => Err(e),
                },
            },
            Shape::Unit => match m {
                Message::Null => Ok(Value::Unit),
                _ => Err(DeserializeError::Unexpected(WireKind::Null, message_kind(m))),
            },
            Shape::UnitStruct => match m {
                Message::Null => Ok(Value::UnitStruct),
                _ => Err(DeserializeError::Unexpected(WireKind::Null, message_kind(m))),
            },
            Shape::NewtypeStruct(inner) => match decode_at(m, inner) {
                Ok(v) => Ok(Value::NewtypeStruct(Box::new(v))),
                Err(e) => Err(e),
            },
            Shape::Sequence(es) => match m {
                Message::Array(elems) => match decode_elements_with(elems, es) {
                    Ok(vs) => Ok(Value::Sequence(vs)),
                    Err(e) => Err(e),
                },
                _ => Err(DeserializeError::Unexpected(WireKind::Array, message_kind(m))),
            },
            Shape::Tuple(ss) => match m {
                Message::Array(elems) => match decode_tuple_with(elems, ss) {
                    Ok(vs) => Ok(Value::Tuple(vs)),
                    Err(e) => Err(e),
                },
                _ => Err(DeserializeError::Unexpected(WireKind::Array, message_kind(m))),
            },
            Shape::TupleStruct(ss) => match m {
                Message::Array(elems) => match decode_tuple_with(elems, ss) {
                    Ok(vs) => Ok(Value::TupleStruct(vs)),
                    Err(e) => Err(e),
                },
                _ => Err(DeserializeError::Unexpected(WireKind::Array, message_kind(m))),
            },
            Shape::Mapping(ks, vs) => match m {
                Message::Dictionary(entries) => match decode_mapping_with(entries, ks, vs) {
                    Ok(pairs) => Ok(Value::Mapping(pairs)),
                    Err(e) => Err(e),
                },
                _ => Err(DeserializeError::Unexpected(WireKind::Dict, message_kind(m))),
            },
            Shape::Struct(fields) => match m {
                Message::Dictionary(entries) => match decode_struct_with(entries, fields) {
                    Ok(fvs) => Ok(Value::Struct(fvs)),
                    Err(e) => Err(e),
                },
                _ => Err(DeserializeError::Unexpected(WireKind::Dict, message_kind(m))),
            },
            Shape::Enum(variants) => match m {
                Message::Dictionary(entries) => {
                    let acc = EnumAccessor::new(entries);
                    match acc.variant() {
                        Ok((tag, payload)) => decode_variant_with(tag, payload, variants),
                        Err(e) => Err(e),
                    }
                },
                _ => Err(DeserializeError::Unexpected(WireKind::Enum, message_kind(m))),
            },
            Shape::Any => Ok(decode_any(m)),
        },
    }
}

/// Decode the tag and payload of an enum dictionary; executable counterpart
/// of [`decode_variant_spec`].
fn decode_variant_with(tag: &String, payload: &Message, variants: &Vec<(String, VariantShape)>) -> (r:
    Result<Value, DeserializeError>)
    ensures
        match (r, decode_variant_spec(tag@, payload@, view_variants(variants@))) {
            (Ok(v), Ok(sv)) => v@ == sv,
            (Err(e), Err(se)) => e@ == se,
            _ => false,
        },
    decreases *payload, *variants, 0int,
{
    match find_variant(variants, tag) {
        None => Err(DeserializeError::Unexpected(WireKind::Enum, WireKind::Str)),
        Some(vi) => match &variants[vi].1 {
            VariantShape::Unit => Err(DeserializeError::Unexpected(WireKind::Str, WireKind::Dict)),
            VariantShape::Newtype(inner) => match decode_at(payload, inner) {
                Ok(v) => Ok(Value::NewtypeVariant(tag.clone(), Box::new(v))),
                Err(e) => Err(e),
            },
            VariantShape::Tuple(ss) => match payload {
                Message::Array(pelems) => match decode_tuple_with(pelems, ss) {
                    Ok(vs) => Ok(Value::TupleVariant(tag.clone(), vs)),
                    Err(e) => Err(e),
                },
                _ => Err(DeserializeError::Unexpected(WireKind::Array, message_kind(payload))),
            },
            VariantShape::Struct(fs) => match payload {
                Message::Dictionary(pentries) => match decode_struct_with(pentries, fs) {
                    Ok(fvs) => Ok(Value::StructVariant(tag.clone(), fvs)),
                    Err(e) => Err(e),
                },
                _ => Err(DeserializeError::Unexpected(WireKind::Dict, message_kind(payload))),
            },
        },
    }
}

/// Decode a wire message into a typed value under the guidance of the
/// requested shape: the executable counterpart of [`decode_spec`], returning
/// exactly the value or error that it specifies.
pub fn deserialize(message: Message, shape: &Shape) -> (r: Result<Value, DeserializeError>)
    ensures
        match (r, decode_spec(message@, shape@)) {
            (Ok(v), Ok(sv)) => v@ == sv,
            (Err(e), Err(se)) => e@ == se,
            _ => false,
        },
{
    let r = decode_at(&message, shape);
    proof {
        assert(decodes_as(r, message@, shape@));
    }
    r
}

} // verus!

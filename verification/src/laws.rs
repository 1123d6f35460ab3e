//! The laws tying the two directions together.
//!
//! [`round_trips`] says when a typed value and a requested shape agree well
//! enough for a lossless round trip, and [`lemma_round_trip`] proves that for
//! every such pair, encoding succeeds and decoding the resulting wire tree
//! against that shape gives the original value back.  The smaller lemmas
//! after it state the individual guarantees of the mapping: the enum wire
//! forms, the text-only map key rule, NUL rejection, option collapsing,
//! numeric coercion, exhaustion, and the wire-model invariant that encoder
//! output is always a well-formed tree.

use vstd::prelude::*;

use crate::de::{
    decode_elements_spec, decode_mapping_spec, decode_spec, decode_str_spec, decode_struct_spec,
    decode_tuple_spec, decode_variant_spec, spec_is_code_point,
};
use crate::error::{SpecDeserializeError, SpecSerializeError};
use crate::num::{lemma_wrap_signed_small, lemma_wrap_unsigned_small, wrap_signed};
use crate::ser::{spec_encode, spec_encode_elements, spec_encode_fields, spec_encode_pairs};
use crate::value::{spec_find_variant, SpecShape, SpecValue, SpecVariantShape};
use crate::wire::{spec_dict_insert, spec_entries_wf, spec_find_key, spec_find_key_from, spec_has_nul, SpecMessage};

verus! {

/// When a typed value can make a lossless round trip through the wire under
/// a given requested shape.
///
/// Each scalar must fit its width (a character must be a Unicode scalar
/// value), text must be NUL-free, and composite values must agree with the
/// shape position by position.  A present optional must not encode to Null,
/// since Null reads back as absent.  Map keys must encode to text, and the
/// encoded keys must be pairwise distinct, as must struct field names, since
/// a repeated dictionary key overwrites its first occurrence.  An enum
/// variant's tag must be the first variant of its name in the shape and
/// carry the matching payload form.
pub open spec fn round_trips(v: SpecValue, s: SpecShape) -> bool
    decreases v, s, 0int,
{
    match (v, s) {
        (SpecValue::Bool(_), SpecShape::Bool) => true,
        (SpecValue::I8(x), SpecShape::I8) => -0x80 <= x < 0x80,
        (SpecValue::I16(x), SpecShape::I16) => -0x8000 <= x < 0x8000,
        (SpecValue::I32(x), SpecShape::I32) => -0x8000_0000 <= x < 0x8000_0000,
        (SpecValue::I64(x), SpecShape::I64) => -0x8000_0000_0000_0000 <= x
            < 0x8000_0000_0000_0000,
        (SpecValue::U8(x), SpecShape::U8) => 0 <= x < 0x100,
        (SpecValue::U16(x), SpecShape::U16) => 0 <= x < 0x10000,
        (SpecValue::U32(x), SpecShape::U32) => 0 <= x < 0x1_0000_0000,
        (SpecValue::U64(x), SpecShape::U64) => 0 <= x < 0x1_0000_0000_0000_0000,
        (SpecValue::F64Bits(b), SpecShape::F64) => 0 <= b < 0x1_0000_0000_0000_0000,
        (SpecValue::Char(c), SpecShape::Char) => spec_is_code_point(c),
        (SpecValue::Str(t), SpecShape::Str) => !spec_has_nul(t),
        (SpecValue::Bytes(_), SpecShape::Bytes) => true,
        (SpecValue::OptionalNone, SpecShape::Optional(_)) => true,
        (SpecValue::OptionalSome(x), SpecShape::Optional(inner)) => round_trips(*x, *inner)
            && spec_encode(*x) != Ok::<SpecMessage, SpecSerializeError>(SpecMessage::Null),
        (SpecValue::Unit, SpecShape::Unit) => true,
        (SpecValue::UnitStruct, SpecShape::UnitStruct) => true,
        (SpecValue::NewtypeStruct(x), SpecShape::NewtypeStruct(inner)) => round_trips(*x, *inner),
        (SpecValue::Sequence(es), SpecShape::Sequence(inner)) => forall|j: int|
            0 <= j < es.len() ==> round_trips(#[trigger] es[j], *inner),
        (SpecValue::Tuple(es), SpecShape::Tuple(ss)) => es.len() == ss.len() && (forall|j: int|
            0 <= j < es.len() ==> round_trips(#[trigger] es[j], ss[j])),
        (SpecValue::TupleStruct(es), SpecShape::TupleStruct(ss)) => es.len() == ss.len() && (
        forall|j: int| 0 <= j < es.len() ==> round_trips(#[trigger] es[j], ss[j])),
        (SpecValue::Mapping(pairs), SpecShape::Mapping(ks, vs)) => {
            &&& forall|j: int|
                0 <= j < pairs.len() ==> round_trips((#[trigger] pairs[j]).0, *ks) && round_trips(
                    pairs[j].1,
                    *vs,
                )
            &&& forall|j: int|
                0 <= j < pairs.len() ==> (spec_encode((#[trigger] pairs[j]).0) matches Ok(km)
                    && km is Str)
            &&& forall|j1: int, j2: int|
                0 <= j1 < j2 < pairs.len() ==> spec_encode(pairs[j1].0) != spec_encode(
                    pairs[j2].0,
                )
        },
        (SpecValue::Struct(fields), SpecShape::Struct(fshapes)) => fields_round_trip(
            fields,
            fshapes,
        ),
        (SpecValue::UnitVariant(n), SpecShape::Enum(variants)) => {
            let vi = spec_find_variant(variants, n);
            !spec_has_nul(n) && vi >= 0 && variants[vi].1 is Unit
        },
        (SpecValue::NewtypeVariant(n, x), SpecShape::Enum(variants)) => {
            let vi = spec_find_variant(variants, n);
            &&& !spec_has_nul(n)
            &&& vi >= 0
            &&& variants[vi].1 matches SpecVariantShape::Newtype(inner) && round_trips(*x, *inner)
        },
        (SpecValue::TupleVariant(n, es), SpecShape::Enum(variants)) => {
            let vi = spec_find_variant(variants, n);
            &&& !spec_has_nul(n)
            &&& vi >= 0
            &&& variants[vi].1 matches SpecVariantShape::Tuple(ss) && es.len() == ss.len() && (
            forall|j: int| 0 <= j < es.len() ==> round_trips(#[trigger] es[j], ss[j]))
        },
        (SpecValue::StructVariant(n, fields), SpecShape::Enum(variants)) => {
            let vi = spec_find_variant(variants, n);
            &&& !spec_has_nul(n)
            &&& vi >= 0
            &&& variants[vi].1 matches SpecVariantShape::Struct(fs) && fields_round_trip(
                fields,
                fs,
            )
        },
        _ => false,
    }
}

/// The struct half of [`round_trips`]: field names line up with the shape,
/// are NUL-free and pairwise distinct, and every field value round-trips
/// under its field shape.
pub open spec fn fields_round_trip(
    fields: Seq<(Seq<char>, SpecValue)>,
    fshapes: Seq<(Seq<char>, SpecShape)>,
) -> bool
    decreases fields, fshapes, 0int,
{
    &&& fields.len() == fshapes.len()
    &&& forall|j: int| 0 <= j < fields.len() ==> (#[trigger] fields[j]).0 == fshapes[j].0
    &&& forall|j: int| 0 <= j < fields.len() ==> !spec_has_nul((#[trigger] fields[j]).0)
    &&& forall|j1: int, j2: int| 0 <= j1 < j2 < fields.len() ==> fields[j1].0 != fields[j2].0
    &&& forall|j: int|
        0 <= j < fields.len() ==> round_trips((#[trigger] fields[j]).1, fshapes[j].1)
}

/// A key that no entry holds is not found, from `i` on.
proof fn lemma_find_key_from_absent(
    entries: Seq<(Seq<char>, SpecMessage)>,
    key: Seq<char>,
    i: int,
)
    requires
        forall|j: int| i <= j < entries.len() ==> (#[trigger] entries[j]).0 != key,
    ensures
        spec_find_key_from(entries, key, i) == -1,
    decreases entries.len() - i,
{
    if !(i < 0 || i >= entries.len()) {
        lemma_find_key_from_absent(entries, key, i + 1);
    }
}

/// The search from `i` finds exactly the first entry holding the key.
proof fn lemma_find_key_from_first(
    entries: Seq<(Seq<char>, SpecMessage)>,
    key: Seq<char>,
    i: int,
    t: int,
)
    requires
        0 <= i <= t < entries.len(),
        entries[t].0 == key,
        forall|j: int| i <= j < t ==> (#[trigger] entries[j]).0 != key,
    ensures
        spec_find_key_from(entries, key, i) == t,
    decreases t - i,
{
    if i < t {
        lemma_find_key_from_first(entries, key, i + 1, t);
    }
}

/// When every element encodes, the first `i` elements encode to exactly
/// their encodings, in order.
proof fn lemma_encode_elements_pointwise(es: Seq<SpecValue>, i: int)
    requires
        0 <= i <= es.len(),
        forall|j: int| 0 <= j < i ==> spec_encode(#[trigger] es[j]) is Ok,
    ensures
        spec_encode_elements(es, i) matches Ok(ms) && ms.len() == i && (forall|j: int|
            0 <= j < i ==> Ok::<SpecMessage, SpecSerializeError>(#[trigger] ms[j]) == spec_encode(
                es[j],
            )),
    decreases i,
{
    if i > 0 {
        lemma_encode_elements_pointwise(es, i - 1);
    }
}

/// When every field name is clean and distinct and every field value
/// encodes, the first `i` fields encode to exactly one entry each, in
/// declaration order.
proof fn lemma_encode_fields_pointwise(fields: Seq<(Seq<char>, SpecValue)>, i: int)
    requires
        0 <= i <= fields.len(),
        forall|j: int| 0 <= j < i ==> !spec_has_nul((#[trigger] fields[j]).0),
        forall|j1: int, j2: int| 0 <= j1 < j2 < i ==> fields[j1].0 != fields[j2].0,
        forall|j: int| 0 <= j < i ==> spec_encode((#[trigger] fields[j]).1) is Ok,
    ensures
        spec_encode_fields(fields, i) matches Ok(entries) && entries.len() == i && (forall|j: int|
            0 <= j < i ==> (#[trigger] entries[j]).0 == fields[j].0 && Ok::<
                SpecMessage,
                SpecSerializeError,
            >(entries[j].1) == spec_encode(fields[j].1)),
    decreases i,
{
    if i > 0 {
        lemma_encode_fields_pointwise(fields, i - 1);
        let entries = spec_encode_fields(fields, i - 1)->Ok_0;
        let name = fields[i - 1].0;
        assert forall|j: int| 0 <= j < entries.len() implies (#[trigger] entries[j]).0 != name by {
            assert(entries[j].0 == fields[j].0);
        }
        lemma_find_key_from_absent(entries, name, 0);
    }
}

/// When every key encodes to text, the encoded keys are distinct, and every
/// value encodes, the first `i` pairs encode to exactly one entry each, in
/// pair order.
proof fn lemma_encode_pairs_pointwise(pairs: Seq<(SpecValue, SpecValue)>, i: int)
    requires
        0 <= i <= pairs.len(),
        forall|j: int|
            0 <= j < i ==> (spec_encode((#[trigger] pairs[j]).0) matches Ok(km) && km is Str),
        forall|j1: int, j2: int|
            0 <= j1 < j2 < i ==> spec_encode(pairs[j1].0) != spec_encode(pairs[j2].0),
        forall|j: int| 0 <= j < i ==> spec_encode((#[trigger] pairs[j]).1) is Ok,
    ensures
        spec_encode_pairs(pairs, i) matches Ok(entries) && entries.len() == i && (forall|j: int|
            0 <= j < i ==> spec_encode(pairs[j].0) == Ok::<SpecMessage, SpecSerializeError>(
                SpecMessage::Str((#[trigger] entries[j]).0),
            ) && Ok::<SpecMessage, SpecSerializeError>(entries[j].1) == spec_encode(pairs[j].1)),
    decreases i,
{
    if i > 0 {
        lemma_encode_pairs_pointwise(pairs, i - 1);
        let entries = spec_encode_pairs(pairs, i - 1)->Ok_0;
        let ki = spec_encode(pairs[i - 1].0)->Ok_0->Str_0;
        assert forall|j: int| 0 <= j < entries.len() implies (#[trigger] entries[j]).0 != ki by {
            assert(spec_encode(pairs[j].0) == Ok::<SpecMessage, SpecSerializeError>(
                SpecMessage::Str(entries[j].0),
            ));
            assert(spec_encode(pairs[j].0) != spec_encode(pairs[i - 1].0));
        }
        lemma_find_key_from_absent(entries, ki, 0);
    }
}

/// When each element decodes to a known value, a prefix of the element list
/// decodes to the matching prefix of those values.
proof fn lemma_decode_elements_pointwise(
    ms: Seq<SpecMessage>,
    inner: SpecShape,
    es: Seq<SpecValue>,
    i: int,
)
    requires
        ms.len() == es.len(),
        0 <= i <= ms.len(),
        forall|j: int|
            0 <= j < ms.len() ==> decode_spec(#[trigger] ms[j], inner) == Ok::<
                SpecValue,
                SpecDeserializeError,
            >(es[j]),
    ensures
        decode_elements_spec(ms, inner, i) == Ok::<Seq<SpecValue>, SpecDeserializeError>(
            es.subrange(0, i),
        ),
    decreases i,
{
    if i <= 0 {
        assert(es.subrange(0, 0) =~= Seq::<SpecValue>::empty());
    } else {
        lemma_decode_elements_pointwise(ms, inner, es, i - 1);
        assert(es.subrange(0, i - 1).push(es[i - 1]) =~= es.subrange(0, i));
    }
}

/// When each position decodes to a known value, a prefix of the tuple
/// positions decodes to the matching prefix of those values.
proof fn lemma_decode_tuple_pointwise(
    ms: Seq<SpecMessage>,
    ss: Seq<SpecShape>,
    es: Seq<SpecValue>,
    i: int,
)
    requires
        ms.len() == es.len(),
        ss.len() == es.len(),
        0 <= i <= ss.len(),
        forall|j: int|
            0 <= j < ms.len() ==> decode_spec(#[trigger] ms[j], ss[j]) == Ok::<
                SpecValue,
                SpecDeserializeError,
            >(es[j]),
    ensures
        decode_tuple_spec(ms, ss, i) == Ok::<Seq<SpecValue>, SpecDeserializeError>(
            es.subrange(0, i),
        ),
    decreases i,
{
    if i <= 0 {
        assert(es.subrange(0, 0) =~= Seq::<SpecValue>::empty());
    } else {
        lemma_decode_tuple_pointwise(ms, ss, es, i - 1);
        assert(es.subrange(0, i - 1).push(es[i - 1]) =~= es.subrange(0, i));
    }
}

/// When each entry's key and value decode to known values, a prefix of the
/// entries decodes to the matching prefix of those pairs.
proof fn lemma_decode_mapping_pointwise(
    entries: Seq<(Seq<char>, SpecMessage)>,
    ks: SpecShape,
    vs: SpecShape,
    pairs: Seq<(SpecValue, SpecValue)>,
    i: int,
)
    requires
        entries.len() == pairs.len(),
        0 <= i <= entries.len(),
        forall|j: int|
            0 <= j < entries.len() ==> decode_str_spec((#[trigger] entries[j]).0, ks) == Ok::<
                SpecValue,
                SpecDeserializeError,
            >(pairs[j].0),
        forall|j: int|
            0 <= j < entries.len() ==> decode_spec((#[trigger] entries[j]).1, vs) == Ok::<
                SpecValue,
                SpecDeserializeError,
            >(pairs[j].1),
    ensures
        decode_mapping_spec(entries, ks, vs, i) == Ok::<
            Seq<(SpecValue, SpecValue)>,
            SpecDeserializeError,
        >(pairs.subrange(0, i)),
    decreases i,
{
    if i <= 0 {
        assert(pairs.subrange(0, 0) =~= Seq::<(SpecValue, SpecValue)>::empty());
    } else {
        lemma_decode_mapping_pointwise(entries, ks, vs, pairs, i - 1);
        assert(pairs.subrange(0, i - 1).push(pairs[i - 1]) =~= pairs.subrange(0, i));
    }
}

/// When entry names match the requested field names position by position and
/// are distinct, and each entry's value decodes to the known field value, a
/// prefix of the requested fields decodes to the matching prefix of the
/// fields.
proof fn lemma_decode_struct_pointwise(
    entries: Seq<(Seq<char>, SpecMessage)>,
    fshapes: Seq<(Seq<char>, SpecShape)>,
    fields: Seq<(Seq<char>, SpecValue)>,
    i: int,
)
    requires
        entries.len() == fields.len(),
        fshapes.len() == fields.len(),
        0 <= i <= fields.len(),
        forall|j: int| 0 <= j < fields.len() ==> (#[trigger] entries[j]).0 == fields[j].0,
        forall|j: int| 0 <= j < fields.len() ==> (#[trigger] fshapes[j]).0 == fields[j].0,
        forall|j1: int, j2: int| 0 <= j1 < j2 < fields.len() ==> fields[j1].0 != fields[j2].0,
        forall|j: int|
            0 <= j < fields.len() ==> decode_spec((#[trigger] entries[j]).1, fshapes[j].1) == Ok::<
                SpecValue,
                SpecDeserializeError,
            >(fields[j].1),
    ensures
        decode_struct_spec(entries, fshapes, i) == Ok::<
            Seq<(Seq<char>, SpecValue)>,
            SpecDeserializeError,
        >(fields.subrange(0, i)),
    decreases i,
{
    if i <= 0 {
        assert(fields.subrange(0, 0) =~= Seq::<(Seq<char>, SpecValue)>::empty());
    } else {
        lemma_decode_struct_pointwise(entries, fshapes, fields, i - 1);
        let name = fshapes[i - 1].0;
        assert forall|j: int| 0 <= j < i - 1 implies (#[trigger] entries[j]).0 != name by {
            assert(entries[j].0 == fields[j].0);
            assert(fields[j].0 != fields[i - 1].0);
        }
        lemma_find_key_from_first(entries, name, 0, i - 1);
        assert(fields.subrange(0, i - 1).push(fields[i - 1]) =~= fields.subrange(0, i));
    }
}

/// Round trip for struct-like field lists: every field list that satisfies
/// [`fields_round_trip`] encodes to a dictionary that decodes back to
/// exactly the same fields.
proof fn lemma_round_trip_fields(
    fields: Seq<(Seq<char>, SpecValue)>,
    fshapes: Seq<(Seq<char>, SpecShape)>,
)
    requires
        fields_round_trip(fields, fshapes),
    ensures
        spec_encode_fields(fields, fields.len() as int) matches Ok(entries) && decode_struct_spec(
            entries,
            fshapes,
            fshapes.len() as int,
        ) == Ok::<Seq<(Seq<char>, SpecValue)>, SpecDeserializeError>(fields),
    decreases fields, fshapes, 1int,
{
    let len = fields.len() as int;
    assert forall|j: int| 0 <= j < len implies spec_encode((#[trigger] fields[j]).1) is Ok by {
        lemma_round_trip(fields[j].1, fshapes[j].1);
    }
    lemma_encode_fields_pointwise(fields, len);
    let entries = spec_encode_fields(fields, len)->Ok_0;
    assert forall|j: int| 0 <= j < len implies decode_spec(
        (#[trigger] entries[j]).1,
        fshapes[j].1,
    ) == Ok::<SpecValue, SpecDeserializeError>(fields[j].1) by {
        lemma_round_trip(fields[j].1, fshapes[j].1);
    }
    lemma_decode_struct_pointwise(entries, fshapes, fields, len);
    assert(fields.subrange(0, len) =~= fields);
}

/// The round-trip law: for every typed value and requested shape that agree
/// per [`round_trips`], encoding succeeds, and decoding the resulting wire
/// node against that shape yields the original value unchanged.
pub proof fn lemma_round_trip(v: SpecValue, s: SpecShape)
    requires
        round_trips(v, s),
    ensures
        spec_encode(v) matches Ok(m) && decode_spec(m, s) == Ok::<
            SpecValue,
            SpecDeserializeError,
        >(v),
    decreases v, s, 0int,
{
    match (v, s) {
        (SpecValue::I8(x), SpecShape::I8) => {
            lemma_wrap_signed_small(x, 0x100);
        },
        (SpecValue::I16(x), SpecShape::I16) => {
            lemma_wrap_signed_small(x, 0x10000);
        },
        (SpecValue::I32(x), SpecShape::I32) => {
            lemma_wrap_signed_small(x, 0x1_0000_0000);
        },
        (SpecValue::U8(x), SpecShape::U8) => {
            lemma_wrap_unsigned_small(x, 0x100);
        },
        (SpecValue::U16(x), SpecShape::U16) => {
            lemma_wrap_unsigned_small(x, 0x10000);
        },
        (SpecValue::U32(x), SpecShape::U32) => {
            lemma_wrap_unsigned_small(x, 0x1_0000_0000);
        },
        (SpecValue::OptionalSome(x), SpecShape::Optional(inner)) => {
            lemma_round_trip(*x, *inner);
        },
        (SpecValue::NewtypeStruct(x), SpecShape::NewtypeStruct(inner)) => {
            lemma_round_trip(*x, *inner);
        },
        (SpecValue::Sequence(es), SpecShape::Sequence(inner)) => {
            let len = es.len() as int;
            assert forall|j: int| 0 <= j < len implies spec_encode(#[trigger] es[j]) is Ok by {
                lemma_round_trip(es[j], *inner);
            }
            lemma_encode_elements_pointwise(es, len);
            let ms = spec_encode_elements(es, len)->Ok_0;
            assert forall|j: int| 0 <= j < len implies decode_spec(#[trigger] ms[j], *inner)
                == Ok::<SpecValue, SpecDeserializeError>(es[j]) by {
                lemma_round_trip(es[j], *inner);
            }
            lemma_decode_elements_pointwise(ms, *inner, es, len);
            assert(es.subrange(0, len) =~= es);
        },
        (SpecValue::Tuple(es), SpecShape::Tuple(ss)) => {
            let len = es.len() as int;
            assert forall|j: int| 0 <= j < len implies spec_encode(#[trigger] es[j]) is Ok by {
                lemma_round_trip(es[j], ss[j]);
            }
            lemma_encode_elements_pointwise(es, len);
            let ms = spec_encode_elements(es, len)->Ok_0;
            assert forall|j: int| 0 <= j < len implies decode_spec(#[trigger] ms[j], ss[j]) == Ok::<
                SpecValue,
                SpecDeserializeError,
            >(es[j]) by {
                lemma_round_trip(es[j], ss[j]);
            }
            lemma_decode_tuple_pointwise(ms, ss, es, len);
            assert(es.subrange(0, len) =~= es);
        },
        (SpecValue::TupleStruct(es), SpecShape::TupleStruct(ss)) => {
            let len = es.len() as int;
            assert forall|j: int| 0 <= j < len implies spec_encode(#[trigger] es[j]) is Ok by {
                lemma_round_trip(es[j], ss[j]);
            }
            lemma_encode_elements_pointwise(es, len);
            let ms = spec_encode_elements(es, len)->Ok_0;
            assert forall|j: int| 0 <= j < len implies decode_spec(#[trigger] ms[j], ss[j]) == Ok::<
                SpecValue,
                SpecDeserializeError,
            >(es[j]) by {
                lemma_round_trip(es[j], ss[j]);
            }
            lemma_decode_tuple_pointwise(ms, ss, es, len);
            assert(es.subrange(0, len) =~= es);
        },
        (SpecValue::Mapping(pairs), SpecShape::Mapping(ks, vs)) => {
            let len = pairs.len() as int;
            assert forall|j: int| 0 <= j < len implies spec_encode(
                (#[trigger] pairs[j]).1,
            ) is Ok by {
                lemma_round_trip(pairs[j].1, *vs);
            }
            lemma_encode_pairs_pointwise(pairs, len);
            let entries = spec_encode_pairs(pairs, len)->Ok_0;
            assert forall|j: int| 0 <= j < len implies decode_str_spec(
                (#[trigger] entries[j]).0,
                *ks,
            ) == Ok::<SpecValue, SpecDeserializeError>(pairs[j].0) by {
                lemma_round_trip(pairs[j].0, *ks);
                assert(decode_spec(SpecMessage::Str(entries[j].0), *ks) == decode_str_spec(
                    entries[j].0,
                    *ks,
                ));
            }
            assert forall|j: int| 0 <= j < len implies decode_spec((#[trigger] entries[j]).1, *vs)
                == Ok::<SpecValue, SpecDeserializeError>(pairs[j].1) by {
                lemma_round_trip(pairs[j].1, *vs);
            }
            lemma_decode_mapping_pointwise(entries, *ks, *vs, pairs, len);
            assert(pairs.subrange(0, len) =~= pairs);
        },
        (SpecValue::Struct(fields), SpecShape::Struct(fshapes)) => {
            lemma_round_trip_fields(fields, fshapes);
        },
        (SpecValue::NewtypeVariant(n, x), SpecShape::Enum(variants)) => {
            let vi = spec_find_variant(variants, n);
            let inner = variants[vi].1->Newtype_0;
            lemma_round_trip(*x, *inner);
            let mx = spec_encode(*x)->Ok_0;
            assert(decode_variant_spec(n, mx, variants) == Ok::<SpecValue, SpecDeserializeError>(
                v,
            ));
        },
        (SpecValue::TupleVariant(n, es), SpecShape::Enum(variants)) => {
            let vi = spec_find_variant(variants, n);
            let ss = variants[vi].1->Tuple_0;
            let len = es.len() as int;
            assert forall|j: int| 0 <= j < len implies spec_encode(#[trigger] es[j]) is Ok by {
                lemma_round_trip(es[j], ss[j]);
            }
            lemma_encode_elements_pointwise(es, len);
            let ms = spec_encode_elements(es, len)->Ok_0;
            assert forall|j: int| 0 <= j < len implies decode_spec(#[trigger] ms[j], ss[j]) == Ok::<
                SpecValue,
                SpecDeserializeError,
            >(es[j]) by {
                lemma_round_trip(es[j], ss[j]);
            }
            lemma_decode_tuple_pointwise(ms, ss, es, len);
            assert(es.subrange(0, len) =~= es);
            assert(decode_variant_spec(n, SpecMessage::Array(ms), variants) == Ok::<
                SpecValue,
                SpecDeserializeError,
            >(v));
        },
        (SpecValue::StructVariant(n, fields), SpecShape::Enum(variants)) => {
            let vi = spec_find_variant(variants, n);
            let fs = variants[vi].1->Struct_0;
            lemma_round_trip_fields(fields, fs);
            let entries = spec_encode_fields(fields, fields.len() as int)->Ok_0;
            assert(decode_variant_spec(n, SpecMessage::Dictionary(entries), variants) == Ok::<
                SpecValue,
                SpecDeserializeError,
            >(v));
        },
        _ => {},
    }
}

/// The enum wire-shape law: a unit variant is a bare text node holding its
/// tag, and every payload-bearing variant is a dictionary with exactly one
/// entry, keyed by the tag, whose value is the payload encoding (the inner
/// encoding for a newtype variant, an array for a tuple variant, a
/// dictionary of fields for a struct variant).
pub proof fn lemma_enum_wire_shapes(
    name: Seq<char>,
    x: SpecValue,
    es: Seq<SpecValue>,
    fields: Seq<(Seq<char>, SpecValue)>,
)
    requires
        !spec_has_nul(name),
    ensures
        spec_encode(SpecValue::UnitVariant(name)) == Ok::<SpecMessage, SpecSerializeError>(
            SpecMessage::Str(name),
        ),
        spec_encode(x) matches Ok(mx) ==> spec_encode(
            SpecValue::NewtypeVariant(name, Box::new(x)),
        ) == Ok::<SpecMessage, SpecSerializeError>(SpecMessage::Dictionary(seq![(name, mx)])),
        spec_encode_elements(es, es.len() as int) matches Ok(ms) ==> spec_encode(
            SpecValue::TupleVariant(name, es),
        ) == Ok::<SpecMessage, SpecSerializeError>(
            SpecMessage::Dictionary(seq![(name, SpecMessage::Array(ms))]),
        ),
        spec_encode_fields(fields, fields.len() as int) matches Ok(entries) ==> spec_encode(
            SpecValue::StructVariant(name, fields),
        ) == Ok::<SpecMessage, SpecSerializeError>(
            SpecMessage::Dictionary(seq![(name, SpecMessage::Dictionary(entries))]),
        ),
{
}

/// The map key law: when the pairs before `i` encode cleanly and pair `i`'s
/// key encodes to anything but a text node, the whole map fails with
/// `InvalidKey`.  Decoding is unaffected by this rule, since wire dictionary
/// keys are always text.
pub proof fn lemma_map_key_constraint(pairs: Seq<(SpecValue, SpecValue)>, i: int)
    requires
        0 <= i < pairs.len(),
        spec_encode_pairs(pairs, i) is Ok,
        spec_encode(pairs[i].0) matches Ok(km) && !(km is Str),
    ensures
        spec_encode(SpecValue::Mapping(pairs)) == Err::<SpecMessage, SpecSerializeError>(
            SpecSerializeError::InvalidKey,
        ),
{
    assert(spec_encode_pairs(pairs, i + 1) == Err::<
        Seq<(Seq<char>, SpecMessage)>,
        SpecSerializeError,
    >(SpecSerializeError::InvalidKey));
    crate::ser::lemma_encode_pairs_extend_error(pairs, i + 1, pairs.len() as int);
}

/// The NUL rejection law: text encodes if and only if it is free of embedded
/// NULs, and a NUL makes the encoding fail with `NulInString` before any
/// node is produced.
pub proof fn lemma_nul_rejection(t: Seq<char>)
    ensures
        spec_encode(SpecValue::Str(t)) == if spec_has_nul(t) {
            Err::<SpecMessage, SpecSerializeError>(SpecSerializeError::NulInString)
        } else {
            Ok::<SpecMessage, SpecSerializeError>(SpecMessage::Str(t))
        },
{
}

/// The option collapsing law: an absent optional encodes to Null, and a
/// present optional encodes exactly as its inner value, with no wrapping, so
/// one level of optional nesting is not distinguishable on the wire.
pub proof fn lemma_option_collapsing(x: SpecValue)
    ensures
        spec_encode(SpecValue::OptionalNone) == Ok::<SpecMessage, SpecSerializeError>(
            SpecMessage::Null,
        ),
        spec_encode(SpecValue::OptionalSome(Box::new(x))) == spec_encode(x),
{
}

/// The numeric coercion law: an unsigned byte goes out zero-extended and
/// comes back under a signed byte request as its two's-complement
/// reinterpretation, with no range check and no error.
pub proof fn lemma_numeric_coercion(x: int)
    requires
        0 <= x < 0x100,
    ensures
        spec_encode(SpecValue::U8(x)) matches Ok(m) && decode_spec(m, SpecShape::I8) == Ok::<
            SpecValue,
            SpecDeserializeError,
        >(SpecValue::I8(wrap_signed(x, 0x100))),
{
}

/// The exhaustion law for tuples: when the positions an array does hold all
/// decode, asking for more positions than the array has fails with
/// `EndOfArray`.
pub proof fn lemma_exhaustion_tuple(ms: Seq<SpecMessage>, ss: Seq<SpecShape>)
    requires
        ms.len() < ss.len(),
        decode_tuple_spec(ms, ss, ms.len() as int) is Ok,
    ensures
        decode_spec(SpecMessage::Array(ms), SpecShape::Tuple(ss)) == Err::<
            SpecValue,
            SpecDeserializeError,
        >(SpecDeserializeError::EndOfArray),
{
    assert(decode_tuple_spec(ms, ss, ms.len() as int + 1) == Err::<
        Seq<SpecValue>,
        SpecDeserializeError,
    >(SpecDeserializeError::EndOfArray));
    crate::de::lemma_decode_tuple_extend_error(ms, ss, ms.len() as int + 1, ss.len() as int);
}

/// The exhaustion law for enums: an enum request on an empty dictionary has
/// no entry to read a variant tag from and fails with `EndOfArray`.
pub proof fn lemma_exhaustion_enum(variants: Seq<(Seq<char>, SpecVariantShape)>)
    ensures
        decode_spec(
            SpecMessage::Dictionary(Seq::empty()),
            SpecShape::Enum(variants),
        ) == Err::<SpecValue, SpecDeserializeError>(SpecDeserializeError::EndOfArray),
{
}

/// An unsuccessful key search means no entry from `i` on holds the key.
proof fn lemma_find_key_from_none(entries: Seq<(Seq<char>, SpecMessage)>, key: Seq<char>, i: int)
    requires
        0 <= i,
        spec_find_key_from(entries, key, i) == -1,
    ensures
        forall|j: int| i <= j < entries.len() ==> (#[trigger] entries[j]).0 != key,
    decreases entries.len() - i,
{
    if !(i < 0 || i >= entries.len()) {
        lemma_find_key_from_none(entries, key, i + 1);
    }
}

/// A successful key search lands on an entry holding the key.
proof fn lemma_find_key_from_found(entries: Seq<(Seq<char>, SpecMessage)>, key: Seq<char>, i: int)
    requires
        spec_find_key_from(entries, key, i) >= 0,
    ensures
        0 <= spec_find_key_from(entries, key, i) < entries.len(),
        entries[spec_find_key_from(entries, key, i)].0 == key,
    decreases entries.len() - i,
{
    if !(i < 0 || i >= entries.len()) && entries[i].0 != key {
        lemma_find_key_from_found(entries, key, i + 1);
    }
}

/// Insertion with replacement preserves entry well-formedness when the new
/// key is NUL-free and the new value is a well-formed tree.
proof fn lemma_dict_insert_wf(
    entries: Seq<(Seq<char>, SpecMessage)>,
    key: Seq<char>,
    m: SpecMessage,
)
    requires
        spec_entries_wf(entries),
        !spec_has_nul(key),
        m.wf(),
    ensures
        spec_entries_wf(spec_dict_insert(entries, key, m)),
{
    let i = spec_find_key(entries, key);
    crate::wire::lemma_spec_find_key_range(entries, key);
    if i >= 0 {
        lemma_find_key_from_found(entries, key, 0);
    } else {
        lemma_find_key_from_none(entries, key, 0);
    }
}

/// When the first `i` elements encode, every encoded element is a
/// well-formed tree.
proof fn lemma_encode_elements_wf(es: Seq<SpecValue>, i: int)
    ensures
        spec_encode_elements(es, i) matches Ok(ms) ==> forall|j: int|
            0 <= j < ms.len() ==> (#[trigger] ms[j]).wf(),
    decreases es, i,
{
    if !(i <= 0 || i > es.len()) {
        lemma_encode_elements_wf(es, i - 1);
        lemma_encode_wf(es[i - 1]);
    }
}

/// When the first `i` pairs encode, the dictionary built from them is
/// well-formed.
proof fn lemma_encode_pairs_wf(pairs: Seq<(SpecValue, SpecValue)>, i: int)
    ensures
        spec_encode_pairs(pairs, i) matches Ok(entries) ==> spec_entries_wf(entries),
    decreases pairs, i,
{
    if !(i <= 0 || i > pairs.len()) {
        lemma_encode_pairs_wf(pairs, i - 1);
        lemma_encode_wf(pairs[i - 1].0);
        lemma_encode_wf(pairs[i - 1].1);
        if spec_encode_pairs(pairs, i) is Ok {
            let entries = spec_encode_pairs(pairs, i - 1)->Ok_0;
            let key = spec_encode(pairs[i - 1].0)->Ok_0->Str_0;
            let m = spec_encode(pairs[i - 1].1)->Ok_0;
            lemma_dict_insert_wf(entries, key, m);
        }
    }
}

/// When the first `i` fields encode, the dictionary built from them is
/// well-formed.
proof fn lemma_encode_fields_wf(fields: Seq<(Seq<char>, SpecValue)>, i: int)
    ensures
        spec_encode_fields(fields, i) matches Ok(entries) ==> spec_entries_wf(entries),
    decreases fields, i,
{
    if !(i <= 0 || i > fields.len()) {
        lemma_encode_fields_wf(fields, i - 1);
        lemma_encode_wf(fields[i - 1].1);
        if spec_encode_fields(fields, i) is Ok {
            let entries = spec_encode_fields(fields, i - 1)->Ok_0;
            let m = spec_encode(fields[i - 1].1)->Ok_0;
            lemma_dict_insert_wf(entries, fields[i - 1].0, m);
        }
    }
}

/// The wire-model invariant: whatever the encoder produces is a well-formed
/// tree, so its text nodes and dictionary keys are NUL-free and its
/// dictionary keys are unique.
pub proof fn lemma_encode_wf(v: SpecValue)
    ensures
        spec_encode(v) matches Ok(m) ==> m.wf(),
    decreases v, 0int,
{
    match v {
        SpecValue::OptionalSome(x) => {
            lemma_encode_wf(*x);
        },
        SpecValue::NewtypeStruct(x) => {
            lemma_encode_wf(*x);
        },
        SpecValue::Sequence(es) => {
            lemma_encode_elements_wf(es, es.len() as int);
        },
        SpecValue::Tuple(es) => {
            lemma_encode_elements_wf(es, es.len() as int);
        },
        SpecValue::TupleStruct(es) => {
            lemma_encode_elements_wf(es, es.len() as int);
        },
        SpecValue::Mapping(pairs) => {
            lemma_encode_pairs_wf(pairs, pairs.len() as int);
        },
        SpecValue::Struct(fields) => {
            lemma_encode_fields_wf(fields, fields.len() as int);
        },
        SpecValue::NewtypeVariant(n, x) => {
            lemma_encode_wf(*x);
            if spec_encode(v) is Ok {
                let m = spec_encode(*x)->Ok_0;
                assert(seq![(n, m)][0] == (n, m));
                assert(spec_entries_wf(seq![(n, m)]));
            }
        },
        SpecValue::TupleVariant(n, es) => {
            lemma_encode_elements_wf(es, es.len() as int);
            if spec_encode(v) is Ok {
                let ms = spec_encode_elements(es, es.len() as int)->Ok_0;
                let payload = SpecMessage::Array(ms);
                assert(payload.wf());
                assert(seq![(n, payload)][0] == (n, payload));
                assert(spec_entries_wf(seq![(n, payload)]));
            }
        },
        SpecValue::StructVariant(n, fields) => {
            lemma_encode_fields_wf(fields, fields.len() as int);
            if spec_encode(v) is Ok {
                let inner = spec_encode_fields(fields, fields.len() as int)->Ok_0;
                let payload = SpecMessage::Dictionary(inner);
                assert(payload.wf());
                assert(seq![(n, payload)][0] == (n, payload));
                assert(spec_entries_wf(seq![(n, payload)]));
            }
        },
        _ => {},
    }
}

} // verus!

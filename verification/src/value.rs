//! The typed side of the adapter.
//!
//! A [`Value`] is a typed value classified into the framework-neutral
//! primitives of the object model: scalars, text, bytes, options, unit and
//! unit structs, newtype structs, sequences, tuples, maps, structs, and the
//! four enum-variant forms.  A [`Shape`] describes which of these primitives
//! a decoding caller expects, mirroring the value classification; the decoder
//! dispatches on the wire node under the guidance of a shape.
//!
//! Floats are carried as IEEE 754 bit patterns: the adapter never computes
//! with them, and a 32-bit float is widened to 64 bits by the caller before
//! it enters the model, since widening is a floating-point operation.

use vstd::prelude::*;

verus! {

broadcast use vstd::std_specs::vec::group_vec_axioms, vstd::seq::group_seq_axioms;

/// A typed value, classified into the object model's primitives.
#[derive(Debug, PartialEq)]
pub enum Value {
    /// A boolean scalar.
    Bool(bool),
    /// A signed 8-bit integer.
    I8(i8),
    /// A signed 16-bit integer.
    I16(i16),
    /// A signed 32-bit integer.
    I32(i32),
    /// A signed 64-bit integer.
    I64(i64),
    /// An unsigned 8-bit integer.
    U8(u8),
    /// An unsigned 16-bit integer.
    U16(u16),
    /// An unsigned 32-bit integer.
    U32(u32),
    /// An unsigned 64-bit integer.
    U64(u64),
    /// A 64-bit float, carried as its IEEE 754 bit pattern.
    F64Bits(u64),
    /// A character scalar.
    Char(char),
    /// A text value.
    Str(String),
    /// An opaque byte buffer.
    Bytes(Vec<u8>),
    /// An optional value: absent or present.
    Optional(Option<Box<Value>>),
    /// The unit value.
    Unit,
    /// A struct with no fields.
    UnitStruct,
    /// A struct wrapping exactly one value, encoded transparently.
    NewtypeStruct(Box<Value>),
    /// A variable-length homogeneous sequence.
    Sequence(Vec<Value>),
    /// A fixed-length heterogeneous tuple.
    Tuple(Vec<Value>),
    /// A tuple struct, encoded like a tuple.
    TupleStruct(Vec<Value>),
    /// A map of key/value pairs; every key must encode to text.
    Mapping(Vec<(Value, Value)>),
    /// A struct: named fields in declaration order.
    Struct(Vec<(String, Value)>),
    /// An enum variant with no payload, named by its tag.
    UnitVariant(String),
    /// An enum variant wrapping exactly one value.
    NewtypeVariant(String, Box<Value>),
    /// An enum variant with a tuple payload.
    TupleVariant(String, Vec<Value>),
    /// An enum variant with named fields.
    StructVariant(String, Vec<(String, Value)>),
}

/// Spec view of a [`Value`], with sequences in place of vectors and character
/// sequences in place of strings.
#[verifier::ext_equal]
pub enum SpecValue {
    /// See [`Value::Bool`].
    Bool(bool),
    /// See [`Value::I8`].
    I8(int),
    /// See [`Value::I16`].
    I16(int),
    /// See [`Value::I32`].
    I32(int),
    /// See [`Value::I64`].
    I64(int),
    /// See [`Value::U8`].
    U8(int),
    /// See [`Value::U16`].
    U16(int),
    /// See [`Value::U32`].
    U32(int),
    /// See [`Value::U64`].
    U64(int),
    /// See [`Value::F64Bits`].
    F64Bits(int),
    /// See [`Value::Char`], as a Unicode code point.
    Char(int),
    /// See [`Value::Str`].
    Str(Seq<char>),
    /// See [`Value::Bytes`].
    Bytes(Seq<u8>),
    /// See [`Value::Optional`]: an absent optional.
    OptionalNone,
    /// See [`Value::Optional`]: a present optional and its inner value.
    OptionalSome(Box<SpecValue>),
    /// See [`Value::Unit`].
    Unit,
    /// See [`Value::UnitStruct`].
    UnitStruct,
    /// See [`Value::NewtypeStruct`].
    NewtypeStruct(Box<SpecValue>),
    /// See [`Value::Sequence`].
    Sequence(Seq<SpecValue>),
    /// See [`Value::Tuple`].
    Tuple(Seq<SpecValue>),
    /// See [`Value::TupleStruct`].
    TupleStruct(Seq<SpecValue>),
    /// See [`Value::Mapping`].
    Mapping(Seq<(SpecValue, SpecValue)>),
    /// See [`Value::Struct`].
    Struct(Seq<(Seq<char>, SpecValue)>),
    /// See [`Value::UnitVariant`].
    UnitVariant(Seq<char>),
    /// See [`Value::NewtypeVariant`].
    NewtypeVariant(Seq<char>, Box<SpecValue>),
    /// See [`Value::TupleVariant`].
    TupleVariant(Seq<char>, Seq<SpecValue>),
    /// See [`Value::StructVariant`].
    StructVariant(Seq<char>, Seq<(Seq<char>, SpecValue)>),
}

/// Spec view of each element of a vector of values.  The range guard keeps
/// the recursion inside the sequence, where it is known to shrink.
pub open spec fn view_values(elems: Seq<Value>) -> Seq<SpecValue>
    decreases elems,
{
    Seq::new(
        elems.len(),
        |i: int|
            if 0 <= i < elems.len() {
                elems[i]@
            } else {
                SpecValue::Unit
            },
    )
}

/// Spec view of each pair of a vector of map entries.
pub open spec fn view_pairs(pairs: Seq<(Value, Value)>) -> Seq<(SpecValue, SpecValue)>
    decreases pairs,
{
    Seq::new(
        pairs.len(),
        |i: int|
            if 0 <= i < pairs.len() {
                (pairs[i].0@, pairs[i].1@)
            } else {
                (SpecValue::Unit, SpecValue::Unit)
            },
    )
}

/// Spec view of each named field of a vector of struct fields.
pub open spec fn view_fields(fields: Seq<(String, Value)>) -> Seq<(Seq<char>, SpecValue)>
    decreases fields,
{
    Seq::new(
        fields.len(),
        |i: int|
            if 0 <= i < fields.len() {
                (fields[i].0@, fields[i].1@)
            } else {
                (Seq::empty(), SpecValue::Unit)
            },
    )
}

impl View for Value {
    type V = SpecValue;

    open spec fn view(&self) -> SpecValue
        decreases self,
    {
        match self {
            Value::Bool(b) => SpecValue::Bool(*b),
            Value::I8(v) => SpecValue::I8(*v as int),
            Value::I16(v) => SpecValue::I16(*v as int),
            Value::I32(v) => SpecValue::I32(*v as int),
            Value::I64(v) => SpecValue::I64(*v as int),
            Value::U8(v) => SpecValue::U8(*v as int),
            Value::U16(v) => SpecValue::U16(*v as int),
            Value::U32(v) => SpecValue::U32(*v as int),
            Value::U64(v) => SpecValue::U64(*v as int),
            Value::F64Bits(bits) => SpecValue::F64Bits(*bits as int),
            Value::Char(c) => SpecValue::Char(*c as int),
            Value::Str(s) => SpecValue::Str(s@),
            Value::Bytes(b) => SpecValue::Bytes(b@),
            Value::Optional(o) => match o {
                Option::None => SpecValue::OptionalNone,
                Option::Some(inner) => SpecValue::OptionalSome(Box::new((**inner)@)),
            },
            Value::Unit => SpecValue::Unit,
            Value::UnitStruct => SpecValue::UnitStruct,
            Value::NewtypeStruct(inner) => SpecValue::NewtypeStruct(Box::new((**inner)@)),
            Value::Sequence(elems) => SpecValue::Sequence(view_values(elems@)),
            Value::Tuple(elems) => SpecValue::Tuple(view_values(elems@)),
            Value::TupleStruct(elems) => SpecValue::TupleStruct(view_values(elems@)),
            Value::Mapping(pairs) => SpecValue::Mapping(view_pairs(pairs@)),
            Value::Struct(fields) => SpecValue::Struct(view_fields(fields@)),
            Value::UnitVariant(name) => SpecValue::UnitVariant(name@),
            Value::NewtypeVariant(name, inner) => SpecValue::NewtypeVariant(
                name@,
                Box::new((**inner)@),
            ),
            Value::TupleVariant(name, elems) => SpecValue::TupleVariant(name@, view_values(elems@)),
            Value::StructVariant(name, fields) => SpecValue::StructVariant(
                name@,
                view_fields(fields@),
            ),
        }
    }
}

/// The element views have the same length as the elements.
pub broadcast proof fn lemma_view_values_len(elems: Seq<Value>)
    ensures
        (#[trigger] view_values(elems)).len() == elems.len(),
{
}

/// The element views are the views of the elements, pointwise.
pub broadcast proof fn lemma_view_values_index(elems: Seq<Value>, i: int)
    requires
        0 <= i < elems.len(),
    ensures
        #[trigger] view_values(elems)[i] == elems[i]@,
{
}

/// The pair views have the same length as the pairs.
pub broadcast proof fn lemma_view_pairs_len(pairs: Seq<(Value, Value)>)
    ensures
        (#[trigger] view_pairs(pairs)).len() == pairs.len(),
{
}

/// The pair views are the views of the pairs, pointwise.
pub broadcast proof fn lemma_view_pairs_index(pairs: Seq<(Value, Value)>, i: int)
    requires
        0 <= i < pairs.len(),
    ensures
        #[trigger] view_pairs(pairs)[i] == (pairs[i].0@, pairs[i].1@),
{
}

/// The field views have the same length as the fields.
pub broadcast proof fn lemma_view_fields_len(fields: Seq<(String, Value)>)
    ensures
        (#[trigger] view_fields(fields)).len() == fields.len(),
{
}

/// The field views are the views of the fields, pointwise.
pub broadcast proof fn lemma_view_fields_index(fields: Seq<(String, Value)>, i: int)
    requires
        0 <= i < fields.len(),
    ensures
        #[trigger] view_fields(fields)[i] == (fields[i].0@, fields[i].1@),
{
}

/// The shape a decoding caller requests: one constructor per primitive of the
/// object model, carrying the shapes of any children.
#[derive(Debug, PartialEq)]
pub enum Shape {
    /// Expect a boolean.
    Bool,
    /// Expect a signed 8-bit integer.
    I8,
    /// Expect a signed 16-bit integer.
    I16,
    /// Expect a signed 32-bit integer.
    I32,
    /// Expect a signed 64-bit integer.
    I64,
    /// Expect an unsigned 8-bit integer.
    U8,
    /// Expect an unsigned 16-bit integer.
    U16,
    /// Expect an unsigned 32-bit integer.
    U32,
    /// Expect an unsigned 64-bit integer.
    U64,
    /// Expect a 64-bit float.
    F64,
    /// Expect a character.
    Char,
    /// Expect text.
    Str,
    /// Expect a byte buffer.
    Bytes,
    /// Expect an optional value of the inner shape.
    Optional(Box<Shape>),
    /// Expect the unit value.
    Unit,
    /// Expect a struct with no fields.
    UnitStruct,
    /// Expect a newtype struct around the inner shape.
    NewtypeStruct(Box<Shape>),
    /// Expect a sequence whose elements all have the inner shape.
    Sequence(Box<Shape>),
    /// Expect a tuple with exactly these element shapes.
    Tuple(Vec<Shape>),
    /// Expect a tuple struct with exactly these element shapes.
    TupleStruct(Vec<Shape>),
    /// Expect a map with the given key and value shapes.
    Mapping(Box<Shape>, Box<Shape>),
    /// Expect a struct with exactly these named fields.
    Struct(Vec<(String, Shape)>),
    /// Expect an enum with these variants.
    Enum(Vec<(String, VariantShape)>),
    /// Expect any self-describing value, dispatching on the wire node alone.
    Any,
}

/// The payload form of one enum variant.
#[derive(Debug, PartialEq)]
pub enum VariantShape {
    /// A variant with no payload.
    Unit,
    /// A variant wrapping one value of the inner shape.
    Newtype(Box<Shape>),
    /// A variant with a tuple payload of exactly these element shapes.
    Tuple(Vec<Shape>),
    /// A variant with exactly these named fields.
    Struct(Vec<(String, Shape)>),
}

/// Spec view of a [`Shape`].
#[verifier::ext_equal]
pub enum SpecShape {
    /// See [`Shape::Bool`].
    Bool,
    /// See [`Shape::I8`].
    I8,
    /// See [`Shape::I16`].
    I16,
    /// See [`Shape::I32`].
    I32,
    /// See [`Shape::I64`].
    I64,
    /// See [`Shape::U8`].
    U8,
    /// See [`Shape::U16`].
    U16,
    /// See [`Shape::U32`].
    U32,
    /// See [`Shape::U64`].
    U64,
    /// See [`Shape::F64`].
    F64,
    /// See [`Shape::Char`].
    Char,
    /// See [`Shape::Str`].
    Str,
    /// See [`Shape::Bytes`].
    Bytes,
    /// See [`Shape::Optional`].
    Optional(Box<SpecShape>),
    /// See [`Shape::Unit`].
    Unit,
    /// See [`Shape::UnitStruct`].
    UnitStruct,
    /// See [`Shape::NewtypeStruct`].
    NewtypeStruct(Box<SpecShape>),
    /// See [`Shape::Sequence`].
    Sequence(Box<SpecShape>),
    /// See [`Shape::Tuple`].
    Tuple(Seq<SpecShape>),
    /// See [`Shape::TupleStruct`].
    TupleStruct(Seq<SpecShape>),
    /// See [`Shape::Mapping`].
    Mapping(Box<SpecShape>, Box<SpecShape>),
    /// See [`Shape::Struct`].
    Struct(Seq<(Seq<char>, SpecShape)>),
    /// See [`Shape::Enum`].
    Enum(Seq<(Seq<char>, SpecVariantShape)>),
    /// See [`Shape::Any`].
    Any,
}

/// Spec view of a [`VariantShape`].
#[verifier::ext_equal]
pub enum SpecVariantShape {
    /// See [`VariantShape::Unit`].
    Unit,
    /// See [`VariantShape::Newtype`].
    Newtype(Box<SpecShape>),
    /// See [`VariantShape::Tuple`].
    Tuple(Seq<SpecShape>),
    /// See [`VariantShape::Struct`].
    Struct(Seq<(Seq<char>, SpecShape)>),
}

/// Spec view of each element of a vector of shapes.
pub open spec fn view_shapes(elems: Seq<Shape>) -> Seq<SpecShape>
    decreases elems,
{
    Seq::new(
        elems.len(),
        |i: int|
            if 0 <= i < elems.len() {
                elems[i]@
            } else {
                SpecShape::Unit
            },
    )
}

/// Spec view of each named field of a vector of field shapes.
pub open spec fn view_field_shapes(fields: Seq<(String, Shape)>) -> Seq<(Seq<char>, SpecShape)>
    decreases fields,
{
    Seq::new(
        fields.len(),
        |i: int|
            if 0 <= i < fields.len() {
                (fields[i].0@, fields[i].1@)
            } else {
                (Seq::empty(), SpecShape::Unit)
            },
    )
}

/// Spec view of each named variant of a vector of variant shapes.
pub open spec fn view_variants(
    variants: Seq<(String, VariantShape)>,
) -> Seq<(Seq<char>, SpecVariantShape)>
    decreases variants,
{
    Seq::new(
        variants.len(),
        |i: int|
            if 0 <= i < variants.len() {
                (variants[i].0@, variants[i].1@)
            } else {
                (Seq::empty(), SpecVariantShape::Unit)
            },
    )
}

/// The shape views have the same length as the shapes.
pub broadcast proof fn lemma_view_shapes_len(elems: Seq<Shape>)
    ensures
        (#[trigger] view_shapes(elems)).len() == elems.len(),
{
}

/// The shape views are the views of the shapes, pointwise.
pub broadcast proof fn lemma_view_shapes_index(elems: Seq<Shape>, i: int)
    requires
        0 <= i < elems.len(),
    ensures
        #[trigger] view_shapes(elems)[i] == elems[i]@,
{
}

/// The field-shape views have the same length as the field shapes.
pub broadcast proof fn lemma_view_field_shapes_len(fields: Seq<(String, Shape)>)
    ensures
        (#[trigger] view_field_shapes(fields)).len() == fields.len(),
{
}

/// The field-shape views are the views of the field shapes, pointwise.
pub broadcast proof fn lemma_view_field_shapes_index(fields: Seq<(String, Shape)>, i: int)
    requires
        0 <= i < fields.len(),
    ensures
        #[trigger] view_field_shapes(fields)[i] == (fields[i].0@, fields[i].1@),
{
}

/// The variant views have the same length as the variants.
pub broadcast proof fn lemma_view_variants_len(variants: Seq<(String, VariantShape)>)
    ensures
        (#[trigger] view_variants(variants)).len() == variants.len(),
{
}

/// The variant views are the views of the variants, pointwise.
pub broadcast proof fn lemma_view_variants_index(variants: Seq<(String, VariantShape)>, i: int)
    requires
        0 <= i < variants.len(),
    ensures
        #[trigger] view_variants(variants)[i] == (variants[i].0@, variants[i].1@),
{
}

/// The first variant index whose tag equals `name`, searching from `i` on,
/// or `-1`.
pub open spec fn spec_find_variant_from(
    variants: Seq<(Seq<char>, SpecVariantShape)>,
    name: Seq<char>,
    i: int,
) -> int
    decreases variants.len() - i,
{
    if i < 0 || i >= variants.len() {
        -1
    } else if variants[i].0 == name {
        i
    } else {
        spec_find_variant_from(variants, name, i + 1)
    }
}

/// The first variant index whose tag equals `name`, or `-1` when unknown.
pub open spec fn spec_find_variant(
    variants: Seq<(Seq<char>, SpecVariantShape)>,
    name: Seq<char>,
) -> int {
    spec_find_variant_from(variants, name, 0)
}

/// A search result from `i` on is `-1` or an index in `[i, len)`.
pub proof fn lemma_spec_find_variant_from_range(
    variants: Seq<(Seq<char>, SpecVariantShape)>,
    name: Seq<char>,
    i: int,
)
    ensures
        spec_find_variant_from(variants, name, i) == -1 || (i <= spec_find_variant_from(
            variants,
            name,
            i,
        ) < variants.len() && 0 <= i),
    decreases variants.len() - i,
{
    if !(i < 0 || i >= variants.len()) && variants[i].0 != name {
        lemma_spec_find_variant_from_range(variants, name, i + 1);
    }
}

/// A variant search result is `-1` or a valid variant index.
pub broadcast proof fn lemma_spec_find_variant_range(
    variants: Seq<(Seq<char>, SpecVariantShape)>,
    name: Seq<char>,
)
    ensures
        -1 <= #[trigger] spec_find_variant(variants, name) < variants.len(),
{
    lemma_spec_find_variant_from_range(variants, name, 0);
}

impl View for Shape {
    type V = SpecShape;

    open spec fn view(&self) -> SpecShape
        decreases self,
    {
        match self {
            Shape::Bool => SpecShape::Bool,
            Shape::I8 => SpecShape::I8,
            Shape::I16 => SpecShape::I16,
            Shape::I32 => SpecShape::I32,
            Shape::I64 => SpecShape::I64,
            Shape::U8 => SpecShape::U8,
            Shape::U16 => SpecShape::U16,
            Shape::U32 => SpecShape::U32,
            Shape::U64 => SpecShape::U64,
            Shape::F64 => SpecShape::F64,
            Shape::Char => SpecShape::Char,
            Shape::Str => SpecShape::Str,
            Shape::Bytes => SpecShape::Bytes,
            Shape::Optional(inner) => SpecShape::Optional(Box::new((**inner)@)),
            Shape::Unit => SpecShape::Unit,
            Shape::UnitStruct => SpecShape::UnitStruct,
            Shape::NewtypeStruct(inner) => SpecShape::NewtypeStruct(Box::new((**inner)@)),
            Shape::Sequence(inner) => SpecShape::Sequence(Box::new((**inner)@)),
            Shape::Tuple(elems) => SpecShape::Tuple(view_shapes(elems@)),
            Shape::TupleStruct(elems) => SpecShape::TupleStruct(view_shapes(elems@)),
            Shape::Mapping(key, value) => SpecShape::Mapping(
                Box::new((**key)@),
                Box::new((**value)@),
            ),
            Shape::Struct(fields) => SpecShape::Struct(view_field_shapes(fields@)),
            Shape::Enum(variants) => SpecShape::Enum(view_variants(variants@)),
            Shape::Any => SpecShape::Any,
        }
    }
}

impl View for VariantShape {
    type V = SpecVariantShape;

    open spec fn view(&self) -> SpecVariantShape
        decreases self,
    {
        match self {
            VariantShape::Unit => SpecVariantShape::Unit,
            VariantShape::Newtype(inner) => SpecVariantShape::Newtype(Box::new((**inner)@)),
            VariantShape::Tuple(elems) => SpecVariantShape::Tuple(view_shapes(elems@)),
            VariantShape::Struct(fields) => SpecVariantShape::Struct(view_field_shapes(fields@)),
        }
    }
}

} // verus!

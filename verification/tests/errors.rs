use xpc_serde::deserialize;
use xpc_serde::error::DeserializeError;
use xpc_serde::error::SerializeError;
use xpc_serde::error::WireKind;
use xpc_serde::serialize;
use xpc_serde::ser::DictBuilder;
use xpc_serde::value::Shape;
use xpc_serde::value::Value;
use xpc_serde::value::VariantShape;
use xpc_serde::wire::Message;

fn s(x: &str) -> String {
    x.to_string()
}

#[test]
fn nul_in_string_rejected() {
    let r = serialize(&Value::Str(s("a\0b")));
    assert_eq!(r, Err(SerializeError::NulInString));
}

#[test]
fn nul_in_variant_tag_rejected() {
    let r = serialize(&Value::UnitVariant(s("Bad\0Tag")));
    assert_eq!(r, Err(SerializeError::NulInString));
}

#[test]
fn nul_in_field_name_rejected() {
    let r = serialize(&Value::Struct(vec![(s("a\0"), Value::Bool(true))]));
    assert_eq!(r, Err(SerializeError::NulInString));
}

#[test]
fn non_string_map_key_rejected() {
    let r = serialize(&Value::Mapping(vec![(Value::U64(1), Value::Bool(true))]));
    assert_eq!(r, Err(SerializeError::InvalidKey));
}

#[test]
fn map_key_error_beats_key_shape() {
    // A key whose own encoding fails reports that failure, not InvalidKey.
    let r = serialize(&Value::Mapping(vec![(Value::Str(s("x\0")), Value::Bool(true))]));
    assert_eq!(r, Err(SerializeError::NulInString));
}

#[test]
fn builder_value_without_key_is_missing_key() {
    let mut b = DictBuilder::new();
    let r = b.serialize_value(Message::Bool(true));
    assert_eq!(r, Err(SerializeError::MissingKey));
}

#[test]
fn builder_non_string_key_is_invalid_key() {
    let mut b = DictBuilder::new();
    let r = b.serialize_key(Message::Uint64(7));
    assert_eq!(r, Err(SerializeError::InvalidKey));
}

#[test]
fn bool_from_uint_is_unexpected() {
    let r = deserialize(Message::Uint64(1), &Shape::Bool);
    assert_eq!(
        r,
        Err(DeserializeError::Unexpected(WireKind::Bool, WireKind::Uint64))
    );
}

#[test]
fn int_from_string_is_unexpected() {
    let r = deserialize(Message::Str(s("7")), &Shape::I32);
    assert_eq!(
        r,
        Err(DeserializeError::Unexpected(WireKind::Int64, WireKind::Str))
    );
}

#[test]
fn float_from_int_is_unexpected() {
    let r = deserialize(Message::Int64(7), &Shape::F64);
    assert_eq!(
        r,
        Err(DeserializeError::Unexpected(WireKind::Double, WireKind::Int64))
    );
}

#[test]
fn unit_from_bool_is_unexpected() {
    let r = deserialize(Message::Bool(false), &Shape::Unit);
    assert_eq!(
        r,
        Err(DeserializeError::Unexpected(WireKind::Null, WireKind::Bool))
    );
}

#[test]
fn numeric_coercion_u8_to_i8_wraps() {
    let encoded = serialize(&Value::U8(200)).expect("failed to serialize");
    assert_eq!(encoded, Message::Uint64(200));
    let decoded = deserialize(encoded, &Shape::I8).expect("failed to deserialize");
    assert_eq!(decoded, Value::I8(200u8 as i8));
    assert_eq!(decoded, Value::I8(-56));
}

#[test]
fn numeric_coercion_negative_to_unsigned_wraps() {
    let decoded = deserialize(Message::Int64(-1), &Shape::U8).expect("failed to deserialize");
    assert_eq!(decoded, Value::U8(255));
    let decoded = deserialize(Message::Int64(-1), &Shape::U64).expect("failed to deserialize");
    assert_eq!(decoded, Value::U64(u64::MAX));
}

#[test]
fn numeric_coercion_truncates_wide_values() {
    let decoded =
        deserialize(Message::Uint64(0x1_0000_0061), &Shape::U16).expect("failed to deserialize");
    assert_eq!(decoded, Value::U16(0x61));
    let decoded =
        deserialize(Message::Uint64(u64::MAX), &Shape::I64).expect("failed to deserialize");
    assert_eq!(decoded, Value::I64(-1));
}

#[test]
fn tuple_exhaustion_is_end_of_array() {
    let r = deserialize(
        Message::Array(vec![Message::Uint64(1)]),
        &Shape::Tuple(vec![Shape::U64, Shape::U64]),
    );
    assert_eq!(r, Err(DeserializeError::EndOfArray));
}

#[test]
fn enum_from_empty_dictionary_is_end_of_array() {
    let shape = Shape::Enum(vec![(s("Simple"), VariantShape::Unit)]);
    let r = deserialize(Message::Dictionary(vec![]), &shape);
    assert_eq!(r, Err(DeserializeError::EndOfArray));
}

#[test]
fn unit_variant_from_dictionary_is_unexpected() {
    let shape = Shape::Enum(vec![(s("Simple"), VariantShape::Unit)]);
    let r = deserialize(
        Message::Dictionary(vec![(s("Simple"), Message::Null)]),
        &shape,
    );
    assert_eq!(
        r,
        Err(DeserializeError::Unexpected(WireKind::Str, WireKind::Dict))
    );
}

#[test]
fn unknown_variant_tag_is_unexpected() {
    let shape = Shape::Enum(vec![(s("Simple"), VariantShape::Unit)]);
    let r = deserialize(Message::Str(s("Missing")), &shape);
    assert_eq!(
        r,
        Err(DeserializeError::Unexpected(WireKind::Enum, WireKind::Str))
    );
}

#[test]
fn payload_variant_from_bare_string_is_unexpected() {
    let shape = Shape::Enum(vec![(s("Single"), VariantShape::Newtype(Box::new(Shape::U32)))]);
    let r = deserialize(Message::Str(s("Single")), &shape);
    assert_eq!(
        r,
        Err(DeserializeError::Unexpected(WireKind::Dict, WireKind::Str))
    );
}

#[test]
fn missing_struct_field_is_custom() {
    let shape = Shape::Struct(vec![(s("a"), Shape::U32), (s("b"), Shape::Str)]);
    let r = deserialize(
        Message::Dictionary(vec![(s("a"), Message::Uint64(1))]),
        &shape,
    );
    assert_eq!(r, Err(DeserializeError::Custom(s("missing field b"))));
}

#[test]
fn unknown_struct_entries_are_ignored() {
    let shape = Shape::Struct(vec![(s("a"), Shape::U32)]);
    let decoded = deserialize(
        Message::Dictionary(vec![
            (s("extra"), Message::Bool(true)),
            (s("a"), Message::Uint64(1)),
        ]),
        &shape,
    )
    .expect("failed to deserialize");
    assert_eq!(decoded, Value::Struct(vec![(s("a"), Value::U32(1))]));
}

#[test]
fn sequence_element_error_propagates() {
    let r = deserialize(
        Message::Array(vec![Message::Uint64(1), Message::Bool(true)]),
        &Shape::Sequence(Box::new(Shape::U64)),
    );
    assert_eq!(
        r,
        Err(DeserializeError::Unexpected(WireKind::Uint64, WireKind::Bool))
    );
}

#[test]
fn custom_errors_carry_free_text() {
    assert_eq!(
        SerializeError::custom(s("boom")),
        SerializeError::Custom(s("boom"))
    );
    assert_eq!(
        DeserializeError::custom(s("bang")),
        DeserializeError::Custom(s("bang"))
    );
}

#[test]
fn duplicate_struct_field_overwrites_first() {
    let encoded = serialize(&Value::Struct(vec![
        (s("a"), Value::U64(1)),
        (s("a"), Value::U64(2)),
    ]))
    .expect("failed to serialize");
    assert_eq!(encoded, Message::Dictionary(vec![(s("a"), Message::Uint64(2))]));
}

#[test]
fn duplicate_map_key_overwrites_first() {
    let encoded = serialize(&Value::Mapping(vec![
        (Value::Str(s("k")), Value::U64(1)),
        (Value::Str(s("k")), Value::U64(2)),
    ]))
    .expect("failed to serialize");
    assert_eq!(encoded, Message::Dictionary(vec![(s("k"), Message::Uint64(2))]));
}

#[test]
fn variant_payload_error_beats_tag_error() {
    // Tuple-variant payloads are encoded before the tag is checked, so a
    // payload failure wins over a NUL in the tag.
    let r = serialize(&Value::TupleVariant(
        s("Bad\0Tag"),
        vec![Value::Mapping(vec![(Value::U64(1), Value::Bool(true))])],
    ));
    assert_eq!(r, Err(SerializeError::InvalidKey));
}

use xpc_serde::de::MapAccessor;
use xpc_serde::de::SeqAccessor;
use xpc_serde::deserialize;
use xpc_serde::error::DeserializeError;
use xpc_serde::error::WireKind;
use xpc_serde::value::Shape;
use xpc_serde::value::Value;
use xpc_serde::wire::message_kind;
use xpc_serde::wire::str_has_nul;
use xpc_serde::wire::Message;

fn s(x: &str) -> String {
    x.to_string()
}

#[test]
fn any_decodes_every_natural_form() {
    let msg = Message::Array(vec![
        Message::Bool(true),
        Message::Int64(-7),
        Message::Uint64(7),
        Message::Double(1.5f64.to_bits()),
        Message::Str(s("hi")),
        Message::Data(vec![1, 2]),
        Message::Null,
        Message::Dictionary(vec![(s("k"), Message::Uint64(9))]),
    ]);
    let decoded = deserialize(msg, &Shape::Any).expect("failed to deserialize");
    assert_eq!(
        decoded,
        Value::Sequence(vec![
            Value::Bool(true),
            Value::I64(-7),
            Value::U64(7),
            Value::F64Bits(1.5f64.to_bits()),
            Value::Str(s("hi")),
            Value::Bytes(vec![1, 2]),
            Value::Unit,
            Value::Mapping(vec![(Value::Str(s("k")), Value::U64(9))]),
        ])
    );
}

#[test]
fn char_from_integer_code_point() {
    let decoded = deserialize(Message::Uint64(0x1F600), &Shape::Char).expect("decode failed");
    assert_eq!(decoded, Value::Char('\u{1F600}'));
    let decoded = deserialize(Message::Int64(97), &Shape::Char).expect("decode failed");
    assert_eq!(decoded, Value::Char('a'));
}

#[test]
fn char_from_wide_integer_fails() {
    // The node's full value must be a code point: high bits are not dropped.
    let r = deserialize(Message::Uint64(0x1_0000_0000_0061), &Shape::Char);
    assert_eq!(
        r,
        Err(DeserializeError::Unexpected(WireKind::Char, WireKind::Uint64))
    );
}

#[test]
fn char_from_negative_integer_fails() {
    let r = deserialize(Message::Int64(-1), &Shape::Char);
    assert_eq!(
        r,
        Err(DeserializeError::Unexpected(WireKind::Char, WireKind::Int64))
    );
}

#[test]
fn char_from_surrogate_code_point_fails() {
    let r = deserialize(Message::Uint64(0xD800), &Shape::Char);
    assert_eq!(
        r,
        Err(DeserializeError::Unexpected(WireKind::Char, WireKind::Uint64))
    );
}

#[test]
fn char_from_single_character_string() {
    let decoded = deserialize(Message::Str(s("a")), &Shape::Char).expect("decode failed");
    assert_eq!(decoded, Value::Char('a'));
}

#[test]
fn char_from_longer_string_fails() {
    let r = deserialize(Message::Str(s("ab")), &Shape::Char);
    assert_eq!(
        r,
        Err(DeserializeError::Unexpected(WireKind::Uint64, WireKind::Str))
    );
}

#[test]
fn tuple_ignores_trailing_elements() {
    let decoded = deserialize(
        Message::Array(vec![Message::Uint64(1), Message::Uint64(2), Message::Uint64(3)]),
        &Shape::Tuple(vec![Shape::U64, Shape::U64]),
    )
    .expect("decode failed");
    assert_eq!(decoded, Value::Tuple(vec![Value::U64(1), Value::U64(2)]));
}

#[test]
fn option_wraps_any_non_null_node() {
    let decoded = deserialize(Message::Uint64(5), &Shape::Optional(Box::new(Shape::U8)))
        .expect("decode failed");
    assert_eq!(decoded, Value::Optional(Some(Box::new(Value::U8(5)))));
}

#[test]
fn enum_reads_first_dictionary_entry() {
    // The variant tag is the first entry of the dictionary; a second entry
    // does not change the choice.
    let shape = Shape::Enum(vec![(
        s("Single"),
        xpc_serde::value::VariantShape::Newtype(Box::new(Shape::U32)),
    )]);
    let decoded = deserialize(
        Message::Dictionary(vec![
            (s("Single"), Message::Uint64(42)),
            (s("Other"), Message::Null),
        ]),
        &shape,
    )
    .expect("decode failed");
    assert_eq!(
        decoded,
        Value::NewtypeVariant(s("Single"), Box::new(Value::U32(42)))
    );
}

#[test]
fn message_kind_names_every_variant() {
    assert_eq!(message_kind(&Message::Bool(true)), WireKind::Bool);
    assert_eq!(message_kind(&Message::Double(0)), WireKind::Double);
    assert_eq!(message_kind(&Message::Int64(0)), WireKind::Int64);
    assert_eq!(message_kind(&Message::Uint64(0)), WireKind::Uint64);
    assert_eq!(message_kind(&Message::Str(s(""))), WireKind::Str);
    assert_eq!(message_kind(&Message::Data(vec![])), WireKind::Bytes);
    assert_eq!(message_kind(&Message::Array(vec![])), WireKind::Array);
    assert_eq!(message_kind(&Message::Dictionary(vec![])), WireKind::Dict);
    assert_eq!(message_kind(&Message::Null), WireKind::Null);
}

#[test]
fn str_has_nul_finds_embedded_nul() {
    assert!(str_has_nul("a\0b"));
    assert!(str_has_nul("\0"));
    assert!(!str_has_nul(""));
    assert!(!str_has_nul("abc"));
}

#[test]
fn seq_accessor_drains_in_order() {
    let elems = vec![Message::Uint64(1), Message::Uint64(2)];
    let mut acc = SeqAccessor::new(&elems);
    assert_eq!(acc.size_hint(), 2);
    assert_eq!(acc.next_element(), Some(&Message::Uint64(1)));
    assert_eq!(acc.size_hint(), 1);
    assert_eq!(acc.next_element(), Some(&Message::Uint64(2)));
    assert_eq!(acc.next_element(), None);
    assert_eq!(acc.size_hint(), 0);
}

#[test]
fn map_accessor_pairs_keys_with_values() {
    let entries = vec![(s("a"), Message::Uint64(1)), (s("b"), Message::Bool(true))];
    let mut acc = MapAccessor::new(&entries);
    assert_eq!(acc.size_hint(), 2);
    assert_eq!(acc.next_key(), Some(&s("a")));
    assert_eq!(acc.next_value(), &Message::Uint64(1));
    assert_eq!(acc.next_key(), Some(&s("b")));
    assert_eq!(acc.next_value(), &Message::Bool(true));
    assert_eq!(acc.next_key(), None);
    assert_eq!(acc.size_hint(), 0);
}

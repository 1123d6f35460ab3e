use xpc_serde::deserialize;
use xpc_serde::serialize;
use xpc_serde::value::Shape;
use xpc_serde::value::Value;
use xpc_serde::value::VariantShape;
use xpc_serde::wire::Message;

fn s(x: &str) -> String {
    x.to_string()
}

fn assert_round_trip(value: Value, shape: &Shape, expected: Message) {
    let encoded = serialize(&value).expect("failed to serialize");
    assert_eq!(encoded, expected);
    let decoded = deserialize(encoded, shape).expect("failed to deserialize");
    assert_eq!(decoded, value);
}

#[test]
fn round_trip_bool() {
    assert_round_trip(Value::Bool(true), &Shape::Bool, Message::Bool(true));
}

#[test]
fn round_trip_char() {
    assert_round_trip(Value::Char('a'), &Shape::Char, Message::Uint64('a' as u64));
}

#[test]
fn round_trip_u8() {
    assert_round_trip(Value::U8(42), &Shape::U8, Message::Uint64(42));
}

#[test]
fn round_trip_i8() {
    assert_round_trip(Value::I8(42), &Shape::I8, Message::Int64(42));
}

#[test]
fn round_trip_u16() {
    assert_round_trip(Value::U16(42), &Shape::U16, Message::Uint64(42));
}

#[test]
fn round_trip_i16() {
    assert_round_trip(Value::I16(42), &Shape::I16, Message::Int64(42));
}

#[test]
fn round_trip_u32() {
    assert_round_trip(Value::U32(42), &Shape::U32, Message::Uint64(42));
}

#[test]
fn round_trip_i32() {
    assert_round_trip(Value::I32(42), &Shape::I32, Message::Int64(42));
}

#[test]
fn round_trip_u64() {
    assert_round_trip(Value::U64(42), &Shape::U64, Message::Uint64(42));
}

#[test]
fn round_trip_i64() {
    assert_round_trip(Value::I64(42), &Shape::I64, Message::Int64(42));
}

#[test]
fn round_trip_f32() {
    // A 32-bit float is widened by the caller before it enters the model.
    let initial: f32 = 42.123;
    let wide = initial as f64;
    let encoded = serialize(&Value::F64Bits(wide.to_bits())).expect("failed to serialize");
    assert_eq!(encoded, Message::Double(wide.to_bits()));
    let decoded = deserialize(encoded, &Shape::F64).expect("failed to deserialize");
    match decoded {
        Value::F64Bits(bits) => {
            let narrow = f64::from_bits(bits) as f32;
            assert!((narrow - initial).abs() < f32::EPSILON);
        },
        other => panic!("expected a float value, got {:?}", other),
    }
}

#[test]
fn round_trip_f64() {
    let initial: f64 = 42.123456789;
    let encoded = serialize(&Value::F64Bits(initial.to_bits())).expect("failed to serialize");
    assert_eq!(encoded, Message::Double(initial.to_bits()));
    let decoded = deserialize(encoded, &Shape::F64).expect("failed to deserialize");
    match decoded {
        Value::F64Bits(bits) => {
            assert!((f64::from_bits(bits) - initial).abs() < f64::EPSILON);
        },
        other => panic!("expected a float value, got {:?}", other),
    }
}

#[test]
fn round_trip_bytes() {
    assert_round_trip(
        Value::Bytes(vec![0, 1, 2, 3, 4, 5, 6, 7, 8, 9]),
        &Shape::Bytes,
        Message::Data(vec![0, 1, 2, 3, 4, 5, 6, 7, 8, 9]),
    );
}

#[test]
fn round_trip_string() {
    assert_round_trip(
        Value::Str(s("Hello World!")),
        &Shape::Str,
        Message::Str(s("Hello World!")),
    );
}

#[test]
fn round_trip_array() {
    assert_round_trip(
        Value::Sequence(vec![
            Value::U64(1),
            Value::U64(2),
            Value::U64(3),
            Value::U64(4),
            Value::U64(5),
        ]),
        &Shape::Sequence(Box::new(Shape::U64)),
        Message::Array(vec![
            Message::Uint64(1),
            Message::Uint64(2),
            Message::Uint64(3),
            Message::Uint64(4),
            Message::Uint64(5),
        ]),
    );
}

#[test]
fn round_trip_dict() {
    assert_round_trip(
        Value::Mapping(vec![(Value::Str(s("foo")), Value::Str(s("bar")))]),
        &Shape::Mapping(Box::new(Shape::Str), Box::new(Shape::Str)),
        Message::Dictionary(vec![(s("foo"), Message::Str(s("bar")))]),
    );
}

#[test]
fn round_trip_tuple() {
    assert_round_trip(
        Value::Tuple(vec![Value::Str(s("Don't Panic!")), Value::U64(42)]),
        &Shape::Tuple(vec![Shape::Str, Shape::U64]),
        Message::Array(vec![Message::Str(s("Don't Panic!")), Message::Uint64(42)]),
    );
}

#[test]
fn round_trip_some() {
    assert_round_trip(
        Value::Optional(Some(Box::new(Value::Str(s("Don't Panic!"))))),
        &Shape::Optional(Box::new(Shape::Str)),
        Message::Str(s("Don't Panic!")),
    );
}

#[test]
fn round_trip_none() {
    assert_round_trip(
        Value::Optional(None),
        &Shape::Optional(Box::new(Shape::Str)),
        Message::Null,
    );
}

#[test]
fn round_trip_unit() {
    assert_round_trip(Value::Unit, &Shape::Unit, Message::Null);
}

fn test_enum_shape() -> Shape {
    Shape::Enum(vec![
        (s("Simple"), VariantShape::Unit),
        (s("Single"), VariantShape::Newtype(Box::new(Shape::U32))),
        (s("Tuple"), VariantShape::Tuple(vec![Shape::U32, Shape::U32])),
        (
            s("Struct"),
            VariantShape::Struct(vec![(s("a"), Shape::U32), (s("b"), Shape::Str)]),
        ),
    ])
}

#[test]
fn round_trip_simple_enum() {
    assert_round_trip(
        Value::UnitVariant(s("Simple")),
        &test_enum_shape(),
        Message::Str(s("Simple")),
    );
}

#[test]
fn round_trip_single_enum() {
    assert_round_trip(
        Value::NewtypeVariant(s("Single"), Box::new(Value::U32(42))),
        &test_enum_shape(),
        Message::Dictionary(vec![(s("Single"), Message::Uint64(42))]),
    );
}

#[test]
fn round_trip_tuple_enum() {
    assert_round_trip(
        Value::TupleVariant(s("Tuple"), vec![Value::U32(1), Value::U32(2)]),
        &test_enum_shape(),
        Message::Dictionary(vec![(
            s("Tuple"),
            Message::Array(vec![Message::Uint64(1), Message::Uint64(2)]),
        )]),
    );
}

#[test]
fn round_trip_struct_enum() {
    assert_round_trip(
        Value::StructVariant(
            s("Struct"),
            vec![(s("a"), Value::U32(1)), (s("b"), Value::Str(s("foo")))],
        ),
        &test_enum_shape(),
        Message::Dictionary(vec![(
            s("Struct"),
            Message::Dictionary(vec![
                (s("a"), Message::Uint64(1)),
                (s("b"), Message::Str(s("foo"))),
            ]),
        )]),
    );
}

#[test]
fn round_trip_unit_struct() {
    assert_round_trip(Value::UnitStruct, &Shape::UnitStruct, Message::Null);
}

#[test]
fn round_trip_newtype_struct() {
    assert_round_trip(
        Value::NewtypeStruct(Box::new(Value::U32(42))),
        &Shape::NewtypeStruct(Box::new(Shape::U32)),
        Message::Uint64(42),
    );
}

#[test]
fn round_trip_tuple_struct() {
    assert_round_trip(
        Value::TupleStruct(vec![Value::U32(1), Value::U32(2)]),
        &Shape::TupleStruct(vec![Shape::U32, Shape::U32]),
        Message::Array(vec![Message::Uint64(1), Message::Uint64(2)]),
    );
}

fn test_struct_value() -> Value {
    Value::Struct(vec![
        (s("a"), Value::U32(1)),
        (s("b"), Value::Str(s("foo"))),
        (s("c"), Value::Bool(true)),
    ])
}

fn test_struct_shape() -> Shape {
    Shape::Struct(vec![(s("a"), Shape::U32), (s("b"), Shape::Str), (s("c"), Shape::Bool)])
}

#[test]
fn round_trip_struct() {
    assert_round_trip(
        test_struct_value(),
        &test_struct_shape(),
        Message::Dictionary(vec![
            (s("a"), Message::Uint64(1)),
            (s("b"), Message::Str(s("foo"))),
            (s("c"), Message::Bool(true)),
        ]),
    );
}

#[test]
fn round_trip_complex_struct() {
    let value = Value::Struct(vec![
        (
            s("a"),
            Value::Struct(vec![
                (s("a"), Value::U32(42)),
                (s("b"), Value::Str(s("foo"))),
                (s("c"), Value::Bool(true)),
            ]),
        ),
        (
            s("b"),
            Value::Tuple(vec![
                Value::UnitVariant(s("Simple")),
                Value::NewtypeVariant(s("Single"), Box::new(Value::U32(42))),
                Value::TupleVariant(s("Tuple"), vec![Value::U32(1), Value::U32(2)]),
                Value::StructVariant(
                    s("Struct"),
                    vec![(s("a"), Value::U32(1)), (s("b"), Value::Str(s("bar")))],
                ),
            ]),
        ),
        (
            s("c"),
            Value::Sequence(vec![
                Value::U64(1),
                Value::U64(2),
                Value::U64(3),
                Value::U64(4),
                Value::U64(5),
            ]),
        ),
        (
            s("d"),
            Value::Mapping(vec![
                (Value::Str(s("foo")), Value::U64(42)),
                (Value::Str(s("bar")), Value::U64(1337)),
            ]),
        ),
    ]);
    let shape = Shape::Struct(vec![
        (s("a"), test_struct_shape()),
        (
            s("b"),
            Shape::Tuple(vec![
                test_enum_shape(),
                test_enum_shape(),
                test_enum_shape(),
                test_enum_shape(),
            ]),
        ),
        (s("c"), Shape::Sequence(Box::new(Shape::U64))),
        (s("d"), Shape::Mapping(Box::new(Shape::Str), Box::new(Shape::U64))),
    ]);
    let expected = Message::Dictionary(vec![
        (
            s("a"),
            Message::Dictionary(vec![
                (s("a"), Message::Uint64(42)),
                (s("b"), Message::Str(s("foo"))),
                (s("c"), Message::Bool(true)),
            ]),
        ),
        (
            s("b"),
            Message::Array(vec![
                Message::Str(s("Simple")),
                Message::Dictionary(vec![(s("Single"), Message::Uint64(42))]),
                Message::Dictionary(vec![(
                    s("Tuple"),
                    Message::Array(vec![Message::Uint64(1), Message::Uint64(2)]),
                )]),
                Message::Dictionary(vec![(
                    s("Struct"),
                    Message::Dictionary(vec![
                        (s("a"), Message::Uint64(1)),
                        (s("b"), Message::Str(s("bar"))),
                    ]),
                )]),
            ]),
        ),
        (
            s("c"),
            Message::Array(vec![
                Message::Uint64(1),
                Message::Uint64(2),
                Message::Uint64(3),
                Message::Uint64(4),
                Message::Uint64(5),
            ]),
        ),
        (
            s("d"),
            Message::Dictionary(vec![
                (s("foo"), Message::Uint64(42)),
                (s("bar"), Message::Uint64(1337)),
            ]),
        ),
    ]);
    assert_round_trip(value, &shape, expected);
}

use llm_gateway::payload::{
    document_payload, json_to_qdrant_value, qdrant_value_to_json, JsonNumber, JsonValue,
    StructuredValue,
};

fn sample() -> JsonValue {
    JsonValue::Object(vec![
        ("a".to_string(), JsonValue::Number(JsonNumber::PosInt(1))),
        (
            "b".to_string(),
            JsonValue::Array(vec![
                JsonValue::Bool(true),
                JsonValue::Null,
                JsonValue::String("x".to_string()),
            ]),
        ),
        ("c".to_string(), JsonValue::Number(JsonNumber::Float(2.5f64.to_bits()))),
    ])
}

#[test]
fn sample_converts_by_kind() {
    let s = json_to_qdrant_value(&sample());
    let expected = StructuredValue::StructValue(vec![
        ("a".to_string(), StructuredValue::IntegerValue(1)),
        (
            "b".to_string(),
            StructuredValue::ListValue(vec![
                StructuredValue::BoolValue(true),
                StructuredValue::NullValue,
                StructuredValue::StringValue("x".to_string()),
            ]),
        ),
        ("c".to_string(), StructuredValue::DoubleValue(2.5f64.to_bits())),
    ]);
    assert_eq!(s, expected);
}

#[test]
fn sample_round_trips() {
    let v = sample();
    let back = qdrant_value_to_json(&json_to_qdrant_value(&v));
    assert_eq!(back, v);
}

#[test]
fn negative_integer_stays_integer() {
    let v = JsonValue::Number(JsonNumber::NegInt(-42));
    assert_eq!(json_to_qdrant_value(&v), StructuredValue::IntegerValue(-42));
    assert_eq!(qdrant_value_to_json(&StructuredValue::IntegerValue(-42)), v);
}

#[test]
fn largest_signed_integer_stays_integer() {
    let v = JsonValue::Number(JsonNumber::PosInt(i64::MAX as u64));
    assert_eq!(json_to_qdrant_value(&v), StructuredValue::IntegerValue(i64::MAX));
}

#[test]
fn integer_beyond_i64_becomes_double() {
    let big = i64::MAX as u64 + 1;
    let v = JsonValue::Number(JsonNumber::PosInt(big));
    assert_eq!(json_to_qdrant_value(&v), StructuredValue::DoubleValue((big as f64).to_bits()));
    let top = JsonValue::Number(JsonNumber::PosInt(u64::MAX));
    assert_eq!(json_to_qdrant_value(&top), StructuredValue::DoubleValue((u64::MAX as f64).to_bits()));
}

#[test]
fn empty_containers_convert() {
    assert_eq!(json_to_qdrant_value(&JsonValue::Array(vec![])), StructuredValue::ListValue(vec![]));
    assert_eq!(json_to_qdrant_value(&JsonValue::Object(vec![])), StructuredValue::StructValue(vec![]));
}

#[test]
fn nested_values_round_trip() {
    let v = JsonValue::Array(vec![
        JsonValue::Object(vec![(
            "inner".to_string(),
            JsonValue::Array(vec![JsonValue::Number(JsonNumber::PosInt(0)), JsonValue::Array(vec![])]),
        )]),
        JsonValue::Number(JsonNumber::Float((-0.125f64).to_bits())),
    ]);
    assert_eq!(qdrant_value_to_json(&json_to_qdrant_value(&v)), v);
}

#[test]
fn document_payload_leaves_out_embedding() {
    let doc = JsonValue::Object(vec![
        (
            "embedding".to_string(),
            JsonValue::Array(vec![JsonValue::Number(JsonNumber::Float(0.5f64.to_bits()))]),
        ),
        ("id".to_string(), JsonValue::Number(JsonNumber::PosInt(7))),
        ("text".to_string(), JsonValue::String("hello".to_string())),
    ]);
    let payload = document_payload(&doc).expect("a document is an object");
    assert_eq!(
        payload,
        vec![
            ("id".to_string(), StructuredValue::IntegerValue(7)),
            ("text".to_string(), StructuredValue::StringValue("hello".to_string())),
        ]
    );
}

#[test]
fn non_object_document_has_no_payload() {
    assert_eq!(document_payload(&JsonValue::Null), None);
    assert_eq!(document_payload(&JsonValue::Array(vec![])), None);
}

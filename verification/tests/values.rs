use opentelemetry_honeycomb::value::{
    otel_value_to_serde_json, AttributeArray, AttributeValue, FieldValue, Scalar,
};

fn text(s: &str) -> Scalar {
    Scalar::Text(s.to_string())
}

#[test]
fn scalars_keep_their_value() {
    assert_eq!(
        otel_value_to_serde_json(AttributeValue::Bool(true)),
        FieldValue::Scalar(Scalar::Bool(true))
    );
    assert_eq!(
        otel_value_to_serde_json(AttributeValue::I64(-7)),
        FieldValue::Scalar(Scalar::Signed(-7))
    );
    assert_eq!(
        otel_value_to_serde_json(AttributeValue::String("hot".to_string())),
        FieldValue::Scalar(text("hot"))
    );
    assert_eq!(
        otel_value_to_serde_json(AttributeValue::F64(2.5f64.to_bits())),
        FieldValue::Scalar(Scalar::Float(2.5f64.to_bits()))
    );
}

#[test]
fn doubles_agree_with_the_json_crate() {
    let samples = [
        0.0,
        -0.0,
        1.5,
        f64::MAX,
        f64::MIN,
        f64::MIN_POSITIVE,
        f64::from_bits(1),
        f64::INFINITY,
        f64::NEG_INFINITY,
        f64::NAN,
        f64::from_bits(0x7ff0_0000_0000_0001),
    ];
    for sample in samples.iter() {
        let expected = if serde_json::Number::from_f64(*sample).is_some() {
            FieldValue::Scalar(Scalar::Float(sample.to_bits()))
        } else {
            FieldValue::Null
        };
        assert_eq!(
            otel_value_to_serde_json(AttributeValue::F64(sample.to_bits())),
            expected
        );
    }
}

#[test]
fn lists_keep_their_order() {
    assert_eq!(
        otel_value_to_serde_json(AttributeValue::Array(AttributeArray::Bool(vec![
            true, false, true
        ]))),
        FieldValue::Array(vec![
            Scalar::Bool(true),
            Scalar::Bool(false),
            Scalar::Bool(true)
        ])
    );
    assert_eq!(
        otel_value_to_serde_json(AttributeValue::Array(AttributeArray::I64(vec![3, -1]))),
        FieldValue::Array(vec![Scalar::Signed(3), Scalar::Signed(-1)])
    );
    assert_eq!(
        otel_value_to_serde_json(AttributeValue::Array(AttributeArray::String(vec![
            "b".to_string(),
            "a".to_string()
        ]))),
        FieldValue::Array(vec![text("b"), text("a")])
    );
    assert_eq!(
        otel_value_to_serde_json(AttributeValue::Array(AttributeArray::Bool(vec![]))),
        FieldValue::Array(vec![])
    );
}

#[test]
fn lists_leave_out_what_json_cannot_write() {
    let bits = |d: f64| d.to_bits();
    assert_eq!(
        otel_value_to_serde_json(AttributeValue::Array(AttributeArray::F64(vec![
            bits(1.0),
            bits(f64::NAN),
            bits(2.0),
            bits(f64::INFINITY)
        ]))),
        FieldValue::Array(vec![Scalar::Float(bits(1.0)), Scalar::Float(bits(2.0))])
    );
}

#[test]
fn a_copied_attribute_is_the_same() {
    let value = AttributeValue::Array(AttributeArray::String(vec!["x".to_string()]));
    assert_eq!(
        otel_value_to_serde_json(value.clone()),
        otel_value_to_serde_json(value)
    );
}

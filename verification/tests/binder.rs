use sqlbatch::binder::{bind_param, bind_params, BindError};
use sqlbatch::values::{BoundParam, DynamicValue, NumberValue};

#[test]
fn text_binds_as_text() {
    let r = bind_param(&DynamicValue::Text("hello".to_string()));
    assert_eq!(r, Ok(BoundParam::Text("hello".to_string())));
}

#[test]
fn integer_number_binds_as_integer() {
    let r = bind_param(&DynamicValue::Number(NumberValue::Integer(5)));
    assert_eq!(r, Ok(BoundParam::Integer(5)));
}

#[test]
fn extreme_integers_bind_as_integers() {
    let r = bind_param(&DynamicValue::Number(NumberValue::Integer(i64::MAX)));
    assert_eq!(r, Ok(BoundParam::Integer(i64::MAX)));
    let r = bind_param(&DynamicValue::Number(NumberValue::Integer(i64::MIN)));
    assert_eq!(r, Ok(BoundParam::Integer(i64::MIN)));
}

#[test]
fn fractional_number_binds_as_float() {
    let bits = 9.5f64.to_bits();
    let r = bind_param(&DynamicValue::Number(NumberValue::Float(bits)));
    assert_eq!(r, Ok(BoundParam::Float(bits)));
}

#[test]
fn unrepresentable_number_fails_with_invalid_number() {
    let r = bind_param(&DynamicValue::Number(NumberValue::Unrepresentable));
    assert_eq!(r, Err(BindError::InvalidNumber));
}

#[test]
fn boolean_binds_as_boolean() {
    assert_eq!(
        bind_param(&DynamicValue::Boolean(true)),
        Ok(BoundParam::Boolean(true))
    );
    assert_eq!(
        bind_param(&DynamicValue::Boolean(false)),
        Ok(BoundParam::Boolean(false))
    );
}

#[test]
fn null_binds_as_null_text() {
    assert_eq!(bind_param(&DynamicValue::Null), Ok(BoundParam::NullText));
}

#[test]
fn unsupported_tag_fails_with_unsupported_type() {
    assert_eq!(
        bind_param(&DynamicValue::Other),
        Err(BindError::UnsupportedType)
    );
}

#[test]
fn list_binds_in_order() {
    let vs = vec![
        DynamicValue::Text("a".to_string()),
        DynamicValue::Number(NumberValue::Integer(7)),
        DynamicValue::Null,
    ];
    let r = bind_params(&vs);
    assert_eq!(
        r,
        Ok(vec![
            BoundParam::Text("a".to_string()),
            BoundParam::Integer(7),
            BoundParam::NullText,
        ])
    );
}

#[test]
fn list_fails_with_leftmost_error() {
    let vs = vec![
        DynamicValue::Text("a".to_string()),
        DynamicValue::Other,
        DynamicValue::Number(NumberValue::Unrepresentable),
    ];
    assert_eq!(bind_params(&vs), Err(BindError::UnsupportedType));
}

#[test]
fn empty_list_binds_to_empty() {
    let vs: Vec<DynamicValue> = Vec::new();
    assert_eq!(bind_params(&vs), Ok(Vec::new()));
}

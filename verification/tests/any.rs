use serde_json::{Number, Value};
use ts_consts::TsAny;

fn sample_object() -> Value {
    let mut inner = serde_json::Map::new();
    inner.insert("depth".to_string(), Value::from(2));
    inner.insert("tags".to_string(), Value::Array(vec![Value::from("a"), Value::Null]));
    let mut outer = serde_json::Map::new();
    outer.insert("name".to_string(), Value::String("stream".to_string()));
    outer.insert("ratio".to_string(), Value::from(1.5));
    outer.insert("on".to_string(), Value::Bool(true));
    outer.insert("inner".to_string(), Value::Object(inner));
    Value::Object(outer)
}

fn samples() -> Vec<Value> {
    vec![
        Value::Null,
        Value::Bool(false),
        Value::Bool(true),
        Value::Number(Number::from(0)),
        Value::from(-17),
        Value::from(u64::MAX),
        Value::from(0.25),
        Value::String(String::new()),
        Value::from("any"),
        Value::Array(Vec::new()),
        Value::Array(vec![Value::from(1), Value::from("two"), Value::Array(vec![Value::Null])]),
        Value::Object(serde_json::Map::new()),
        sample_object(),
    ]
}

#[test]
fn wrapped_value_comes_back() {
    for value in samples() {
        let wrapped = TsAny::from(value.clone());
        assert_eq!(Value::from(wrapped), value);
    }
}

#[test]
fn wrapped_value_comes_back_through_into() {
    for value in samples() {
        let wrapped: TsAny = value.clone().into();
        let back: Value = wrapped.into();
        assert_eq!(back, value);
    }
}

#[test]
fn wrapping_twice_keeps_the_value() {
    let value = sample_object();
    let once = Value::from(TsAny::from(value.clone()));
    let twice = Value::from(TsAny::from(once));
    assert_eq!(twice, value);
}

#[test]
fn cloned_wrapper_holds_the_same_value() {
    let value = sample_object();
    let wrapped = TsAny::from(value.clone());
    let copy = wrapped.clone();
    assert_eq!(Value::from(copy), value);
    assert_eq!(Value::from(wrapped), value);
}

#[test]
fn any_is_described_as_any() {
    assert_eq!(TsAny::decl(), "any");
    assert_eq!(TsAny::decl_concrete(), "any");
    assert_eq!(TsAny::inline(), "any");
    assert_eq!(TsAny::inline_flattened(), "(any)");
}

#[test]
fn any_is_named_any() {
    assert_eq!(TsAny::name(), "any");
}

#[test]
fn description_does_not_depend_on_wrapped_values() {
    let before = (TsAny::decl(), TsAny::decl_concrete(), TsAny::inline(), TsAny::inline_flattened());
    let wrapped = TsAny::from(sample_object());
    let during = (TsAny::decl(), TsAny::decl_concrete(), TsAny::inline(), TsAny::inline_flattened());
    let _ = Value::from(wrapped);
    let after = (TsAny::decl(), TsAny::decl_concrete(), TsAny::inline(), TsAny::inline_flattened());
    assert_eq!(before, during);
    assert_eq!(during, after);
    assert_eq!(after.3, "(any)");
}

#[test]
fn wrapper_can_be_printed_for_debugging() {
    let wrapped = TsAny::from(Value::Bool(true));
    assert_eq!(format!("{:?}", wrapped), "TsAny(Bool(true))");
}

use surreal_query_builder::{Binding, Value};

#[test]
fn fresh_binding_carries_value_and_derived_name() {
    let b = Binding::new(Value::Strand("Oyelowo".to_string()));
    assert_eq!(b.get_param(), "_param_00000000");
    assert_eq!(b.get_param_dollarised(), "$_param_00000000");
    assert_eq!(b.get_original_name(), "_param_00000000");
    assert_eq!(b.get_raw(), "'Oyelowo'");
    assert_eq!(b.get_description(), "");
}

#[test]
fn binding_attribute_setters_replace_one_attribute_each() {
    let b = Binding::new(Value::Int(42))
        .with_raw("42ms".to_string())
        .with_name("duration".to_string())
        .with_description("how long the call may take".to_string());
    assert_eq!(b.get_raw(), "42ms");
    assert_eq!(b.get_original_name(), "duration");
    assert_eq!(b.get_description(), "how long the call may take");
    assert_eq!(b.get_param(), "_param_00000000");
    assert_eq!(b.get_value(), &Value::Int(42));
}

#[test]
fn raw_text_of_scalars() {
    assert_eq!(Binding::new(Value::Null).get_raw(), "NULL");
    assert_eq!(Binding::new(Value::Bool(true)).get_raw(), "true");
    assert_eq!(Binding::new(Value::Bool(false)).get_raw(), "false");
    assert_eq!(Binding::new(Value::Int(0)).get_raw(), "0");
    assert_eq!(Binding::new(Value::Int(135605)).get_raw(), "135605");
    assert_eq!(Binding::new(Value::Int(-300)).get_raw(), "-300");
    assert_eq!(Binding::new(Value::Int(i64::MIN)).get_raw(), "-9223372036854775808");
    assert_eq!(
        Binding::new(Value::Thing("account".to_string(), "one".to_string())).get_raw(),
        "account:one"
    );
}

#[test]
fn raw_text_of_composites() {
    let arr = Value::Array(vec![
        Value::Int(1),
        Value::Strand("two".to_string()),
        Value::Bool(false),
    ]);
    assert_eq!(Binding::new(arr).get_raw(), "[1, 'two', false]");

    let doc = Value::Object(vec![
        ("weekly".to_string(), Value::Bool(false)),
        ("monthly".to_string(), Value::Bool(true)),
        ("tags".to_string(), Value::Array(vec![Value::Int(3)])),
    ]);
    assert_eq!(
        Binding::new(doc).get_raw(),
        "{ weekly: false, monthly: true, tags: [3] }"
    );

    let empty = Value::Array(vec![]);
    assert_eq!(Binding::new(empty).get_raw(), "[]");
}

#[test]
fn values_convert_from_plain_types() {
    assert_eq!(Value::from(42i64), Value::Int(42));
    assert_eq!(Value::from(true), Value::Bool(true));
    assert_eq!(Value::from("abc".to_string()), Value::Strand("abc".to_string()));
    assert_eq!(
        Value::from(vec![Value::Int(1)]),
        Value::Array(vec![Value::Int(1)])
    );
}

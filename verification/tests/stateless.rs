use fluent_builder::{FluentBuilder, Stack, TryIntoValue};

#[test]
fn stateless_override_default() {
    let builder = FluentBuilder::<String>::default();

    let result = builder.into_value(|| "default".to_owned());

    assert_eq!("default", result);
}

#[test]
fn stateless_override_default_value() {
    let builder = FluentBuilder::<String>::default().value("value".to_owned());

    let result = builder.into_value(|| "default".to_owned());

    assert_eq!("value", result);
}

#[test]
fn stateless_override_default_fluent() {
    let builder = FluentBuilder::<String>::default()
        .fluent_mut(|v| v.push_str("_f1"))
        .fluent_mut(|v| v.push_str("_f2"));

    let result = builder.into_value(|| "default".to_owned());

    assert_eq!("default_f2", result);
}

#[test]
fn imp_default_value_fluent() {
    let builder = FluentBuilder::<String>::default()
        .value("value".to_owned())
        .fluent_mut(|v| v.push_str("_f1"))
        .fluent_mut(|v| v.push_str("_f2"));

    let result = builder.into_value(|| "default".to_owned());

    assert_eq!("default_f2", result);
}

#[test]
fn value_take() {
    let builder = FluentBuilder::<String>::default().value("value".to_owned());

    let result = match builder.try_into_value() {
        TryIntoValue::Value(value) => value,
        _ => panic!("expected `TryIntoValue::Value`"),
    };

    assert_eq!("value", result);
}

#[test]
fn imp_default_fluent_value() {
    let builder = FluentBuilder::<String>::default()
        .fluent_mut(|v| v.push_str("_f1"))
        .fluent_mut(|v| v.push_str("_f2"))
        .value("value".to_owned());

    let result = builder.into_value(|| "default".to_owned());

    assert_eq!("value", result);
}

#[test]
fn stateless_stack_default() {
    let builder = FluentBuilder::<String, Stack>::default();

    let result = builder.into_value(|| "default".to_owned());

    assert_eq!("default", result);
}

#[test]
fn stateless_stack_default_value() {
    let builder = FluentBuilder::<String, Stack>::default().value("value".to_owned());

    let result = builder.into_value(|| "default".to_owned());

    assert_eq!("value", result);
}

#[test]
fn stateless_stack_default_fluent() {
    let builder = FluentBuilder::<String, Stack>::default()
        .fluent_mut(|v| v.push_str("_f1"))
        .fluent_mut(|v| v.push_str("_f2"));

    let result = builder.into_value(|| "default".to_owned());

    assert_eq!("default_f1_f2", result);
}

#[test]
fn default_value_fluent() {
    let builder = FluentBuilder::<String, Stack>::default()
        .value("value".to_owned())
        .fluent_mut(|v| v.push_str("_f1"))
        .fluent_mut(|v| v.push_str("_f2"));

    let result = builder.into_value(|| "default".to_owned());

    assert_eq!("value_f1_f2", result);
}

#[test]
fn default_fluent_value() {
    let builder = FluentBuilder::<String, Stack>::default()
        .fluent_mut(|v| v.push_str("_f1"))
        .fluent_mut(|v| v.push_str("_f2"))
        .value("value".to_owned());

    let result = builder.into_value(|| "default".to_owned());

    assert_eq!("value", result);
}

#[test]
fn value_fluent_take() {
    let builder = FluentBuilder::<String, Stack>::default()
        .value("value".to_owned())
        .fluent_mut(|v| v.push_str("_f1"))
        .fluent_mut(|v| v.push_str("_f2"));

    let result = match builder.try_into_value() {
        TryIntoValue::Value(value) => value,
        _ => panic!("expected `TryIntoValue::Value`"),
    };

    assert_eq!("value_f1_f2", result);
}

#[test]
fn seed_take_returns_builder() {
    let builder = FluentBuilder::<String, Stack>::default().fluent_mut(|v| v.push_str("_f1"));

    let result = match builder.try_into_value() {
        TryIntoValue::Builder(builder) => builder.into_value(|| "default".to_owned()),
        _ => panic!("expected `TryIntoValue::Builder`"),
    };

    assert_eq!("default_f1", result);
}

#[test]
fn new_behaves_like_default() {
    let result = FluentBuilder::<String>::new().into_value(|| "default".to_owned());

    assert_eq!("default", result);
}

#[test]
fn stack_fluent_by_value() {
    let builder = FluentBuilder::<String, Stack>::default()
        .fluent(|v| v + "_f1")
        .fluent(|v| v + "_f2");

    let result = builder.into_value(|| "default".to_owned());

    assert_eq!("default_f1_f2", result);
}

#[test]
fn override_fluent_by_value() {
    let builder = FluentBuilder::<String>::default()
        .fluent(|v| v + "_f1")
        .fluent(|v| v + "_f2");

    let result = builder.into_value(|| "default".to_owned());

    assert_eq!("default_f2", result);
}

use fluent_builder::{FluentBuilder, Inline, Stack};

#[test]
fn shared_override_default() {
    let builder = FluentBuilder::<String>::default().shared();

    let result = builder.into_value(|| "default".to_owned());

    assert_eq!("default", result);
}

#[test]
fn shared_override_default_value() {
    let builder = FluentBuilder::<String>::default()
        .value("value".to_owned())
        .shared();

    let result = builder.into_value(|| "default".to_owned());

    assert_eq!("value", result);
}

#[test]
fn shared_override_default_fluent() {
    let builder = FluentBuilder::<String>::default()
        .fluent_mut(|v| v.push_str("_f1"))
        .fluent_mut(|v| v.push_str("_f2"))
        .shared();

    let result = builder.into_value(|| "default".to_owned());

    assert_eq!("default_f2", result);
}

#[test]
fn shared_stack_default() {
    let builder = FluentBuilder::<String, Stack, Inline>::default().shared();

    let result = builder.into_value(|| "default".to_owned());

    assert_eq!("default", result);
}

#[test]
fn shared_stack_default_value() {
    let builder = FluentBuilder::<String, Stack, Inline>::default()
        .value("value".to_owned())
        .shared();

    let result = builder.into_value(|| "default".to_owned());

    assert_eq!("value", result);
}

#[test]
fn shared_stack_default_fluent() {
    let builder = FluentBuilder::<String, Stack>::default()
        .fluent_mut(|v| v.push_str("_f1"))
        .fluent_mut(|v| v.push_str("_f2"))
        .shared();

    let result = builder.into_value(|| "default".to_owned());

    assert_eq!("default_f1_f2", result);
}

fn transfer<T: Send>(value: T) -> T {
    value
}

#[test]
fn shared_builder_is_transferable() {
    let builder = FluentBuilder::<String, Stack>::default()
        .fluent_mut(|v| v.push_str("_f1"))
        .shared();

    let result = transfer(builder).into_value(|| "default".to_owned());

    assert_eq!("default_f1", result);
}

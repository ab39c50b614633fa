use fluent_builder::{Stack, StatefulFluentBuilder};

#[derive(Debug, PartialEq, Eq)]
struct Builder {
    required: String,
    optional: Option<String>,
}

#[test]
fn imp_from_seed() {
    let builder = StatefulFluentBuilder::<String, Builder>::from_seed("seed".to_owned());

    let result = builder.into_value(|seed| Builder {
        required: seed,
        optional: None,
    });

    let expected = Builder {
        required: "seed".to_owned(),
        optional: None,
    };

    assert_eq!(expected, result);
}

#[test]
fn imp_from_fluent() {
    let builder = StatefulFluentBuilder::<String, Builder>::from_fluent_mut(
        "seed".to_owned(),
        |v| v.optional = Some("fluent".to_owned()),
    );

    let result = builder.into_value(|seed| Builder {
        required: seed,
        optional: None,
    });

    let expected = Builder {
        required: "seed".to_owned(),
        optional: Some("fluent".to_owned()),
    };

    assert_eq!(expected, result);
}

#[test]
fn imp_from_value() {
    let builder = StatefulFluentBuilder::<String, Builder>::from_value(Builder {
        required: "seed".to_owned(),
        optional: None,
    });

    let result = builder.into_value(|seed| Builder {
        required: seed,
        optional: None,
    });

    let expected = Builder {
        required: "seed".to_owned(),
        optional: None,
    };

    assert_eq!(expected, result);
}

#[test]
fn imp_from_seed_value() {
    let builder = StatefulFluentBuilder::<String, Builder>::from_seed("seed".to_owned()).value(
        Builder {
            required: "value".to_owned(),
            optional: Some("value".to_owned()),
        },
    );

    let result = builder.into_value(|seed| Builder {
        required: seed,
        optional: None,
    });

    let expected = Builder {
        required: "value".to_owned(),
        optional: Some("value".to_owned()),
    };

    assert_eq!(expected, result);
}

#[test]
fn imp_from_seed_fluent() {
    let builder = StatefulFluentBuilder::<String, Builder>::from_seed("seed".to_owned())
        .fluent_mut("f1".to_owned(), |v| v.optional = Some("f1".to_owned()))
        .fluent_mut("f2".to_owned(), |v| v.optional = Some("f2".to_owned()));

    let result = builder.into_value(|seed| Builder {
        required: seed,
        optional: None,
    });

    let expected = Builder {
        required: "f2".to_owned(),
        optional: Some("f2".to_owned()),
    };

    assert_eq!(expected, result);
}

#[test]
fn imp_from_seed_value_fluent() {
    let builder = StatefulFluentBuilder::<String, Builder>::from_seed("seed".to_owned())
        .value(Builder {
            required: "value".to_owned(),
            optional: Some("value".to_owned()),
        })
        .fluent_mut("f1".to_owned(), |v| {
            if let Some(ref mut optional) = v.optional.as_mut() {
                optional.push_str("_f1");
            }
        })
        .fluent_mut("f2".to_owned(), |v| {
            if let Some(ref mut optional) = v.optional.as_mut() {
                optional.push_str("_f2");
            }
        });

    let result = builder.into_value(|seed| Builder {
        required: seed,
        optional: None,
    });

    let expected = Builder {
        required: "f2".to_owned(),
        optional: None,
    };

    assert_eq!(expected, result);
}

#[test]
fn imp_from_seed_fluent_value() {
    let builder = StatefulFluentBuilder::<String, Builder>::from_seed("seed".to_owned())
        .fluent_mut("f1".to_owned(), |v| v.optional = Some("f1".to_owned()))
        .fluent_mut("f2".to_owned(), |v| {
            if let Some(ref mut optional) = v.optional.as_mut() {
                optional.push_str("_f2");
            }
        })
        .value(Builder {
            required: "value".to_owned(),
            optional: Some("value".to_owned()),
        });

    let result = builder.into_value(|seed| Builder {
        required: seed,
        optional: None,
    });

    let expected = Builder {
        required: "value".to_owned(),
        optional: Some("value".to_owned()),
    };

    assert_eq!(expected, result);
}

#[test]
fn from_seed() {
    let builder = StatefulFluentBuilder::<String, Builder, Stack>::from_seed("seed".to_owned());

    let result = builder.into_value(|seed| Builder {
        required: seed,
        optional: None,
    });

    let expected = Builder {
        required: "seed".to_owned(),
        optional: None,
    };

    assert_eq!(expected, result);
}

#[test]
fn from_fluent() {
    let builder = StatefulFluentBuilder::<String, Builder, Stack>::from_fluent_mut(
        "seed".to_owned(),
        |v| v.optional = Some("fluent".to_owned()),
    );

    let result = builder.into_value(|seed| Builder {
        required: seed,
        optional: None,
    });

    let expected = Builder {
        required: "seed".to_owned(),
        optional: Some("fluent".to_owned()),
    };

    assert_eq!(expected, result);
}

#[test]
fn from_value() {
    let builder = StatefulFluentBuilder::<String, Builder, Stack>::from_value(Builder {
        required: "seed".to_owned(),
        optional: None,
    });

    let result = builder.into_value(|seed| Builder {
        required: seed,
        optional: None,
    });

    let expected = Builder {
        required: "seed".to_owned(),
        optional: None,
    };

    assert_eq!(expected, result);
}

#[test]
fn from_seed_value() {
    let builder = StatefulFluentBuilder::<String, Builder, Stack>::from_seed("seed".to_owned())
        .value(Builder {
            required: "value".to_owned(),
            optional: Some("value".to_owned()),
        });

    let result = builder.into_value(|seed| Builder {
        required: seed,
        optional: None,
    });

    let expected = Builder {
        required: "value".to_owned(),
        optional: Some("value".to_owned()),
    };

    assert_eq!(expected, result);
}

#[test]
fn from_seed_fluent() {
    let builder = StatefulFluentBuilder::<String, Builder, Stack>::from_seed("seed".to_owned())
        .fluent_mut("f1".to_owned(), |s, v| {
            v.required = s;
            v.optional = Some("f1".to_owned())
        })
        .fluent_mut("f2".to_owned(), |s, v| {
            v.required = s;
            if let Some(ref mut optional) = v.optional.as_mut() {
                optional.push_str("_f2");
            }
        });

    let result = builder.into_value(|seed| Builder {
        required: seed,
        optional: None,
    });

    let expected = Builder {
        required: "f2".to_owned(),
        optional: Some("f1_f2".to_owned()),
    };

    assert_eq!(expected, result);
}

#[test]
fn from_seed_value_fluent() {
    let builder = StatefulFluentBuilder::<String, Builder, Stack>::from_seed("seed".to_owned())
        .value(Builder {
            required: "value".to_owned(),
            optional: Some("value".to_owned()),
        })
        .fluent_mut("f1".to_owned(), |s, v| {
            v.required = s;
            if let Some(ref mut optional) = v.optional.as_mut() {
                optional.push_str("_f1");
            }
        })
        .fluent_mut("f2".to_owned(), |s, v| {
            v.required = s;
            if let Some(ref mut optional) = v.optional.as_mut() {
                optional.push_str("_f2");
            }
        });

    let result = builder.into_value(|seed| Builder {
        required: seed,
        optional: None,
    });

    let expected = Builder {
        required: "f2".to_owned(),
        optional: Some("value_f1_f2".to_owned()),
    };

    assert_eq!(expected, result);
}

#[test]
fn from_seed_fluent_value() {
    let builder = StatefulFluentBuilder::<String, Builder, Stack>::from_seed("seed".to_owned())
        .fluent_mut("f1".to_owned(), |s, v| {
            v.required = s;
            v.optional = Some("f1".to_owned())
        })
        .fluent_mut("f2".to_owned(), |s, v| {
            v.required = s;
            if let Some(ref mut optional) = v.optional.as_mut() {
                optional.push_str("_f2");
            }
        })
        .value(Builder {
            required: "value".to_owned(),
            optional: Some("value".to_owned()),
        });

    let result = builder.into_value(|seed| Builder {
        required: seed,
        optional: None,
    });

    let expected = Builder {
        required: "value".to_owned(),
        optional: Some("value".to_owned()),
    };

    assert_eq!(expected, result);
}

#[test]
fn stateful_stack_fluent_by_value() {
    let builder = StatefulFluentBuilder::<i32, String, Stack>::from_value("value".to_owned())
        .fluent(1, |i, s| format!("{} and more {}", s, i));

    let result = builder.into_value(|i| i.to_string());

    assert_eq!("value and more 1", result);
}

#[test]
fn stateful_seed_take_returns_builder() {
    let builder = StatefulFluentBuilder::<String, Builder>::from_seed("seed".to_owned());

    let result = match builder.try_into_value() {
        fluent_builder::TryIntoValue::Builder(builder) => builder.into_value(|seed| Builder {
            required: seed,
            optional: None,
        }),
        _ => panic!("expected `TryIntoValue::Builder`"),
    };

    let expected = Builder {
        required: "seed".to_owned(),
        optional: None,
    };

    assert_eq!(expected, result);
}

#[test]
fn stateful_boxed_keeps_stacked_steps() {
    let builder = StatefulFluentBuilder::<String, String, Stack>::from_seed("seed".to_owned())
        .fluent_mut("s1".to_owned(), |s, v| v.push_str(&s))
        .boxed()
        .fluent_mut("s2".to_owned(), |s, v| v.push_str(&s));

    let result = builder.into_value(|seed| seed);

    assert_eq!("seeds1s2", result);
}

#[test]
fn stateful_shared_keeps_stacked_steps() {
    let builder = StatefulFluentBuilder::<String, String, Stack>::from_seed("seed".to_owned())
        .fluent_mut("s1".to_owned(), |s, v| v.push_str(&s))
        .shared();

    let result = builder.into_value(|seed| seed);

    assert_eq!("seeds1", result);
}

#[test]
fn stateful_boxed_from_fluent() {
    let builder = StatefulFluentBuilder::<String, String, fluent_builder::Override, fluent_builder::Boxed>::from_fluent_mut(
        "seed".to_owned(),
        |v: &mut String| v.push_str("_fluent"),
    );

    let result = builder.into_value(|seed| seed);

    assert_eq!("seed_fluent", result);
}

#[test]
fn stateful_shared_from_fluent() {
    let builder = StatefulFluentBuilder::<String, String, fluent_builder::Override, fluent_builder::Shared>::from_fluent(
        "seed".to_owned(),
        |v: String| v + "_fluent",
    );

    let result = builder.into_value(|seed| seed);

    assert_eq!("seed_fluent", result);
}

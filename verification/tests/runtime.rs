use builder_gen::classify::{BuilderField, FieldType};
use builder_gen::diagnostic::{Diagnostic, DiagnosticKind, Origin};
use builder_gen::layout::{normalize, BuilderSpec};
use builder_gen::runtime::{setters_distinct, Builder, FieldValue, Record, RecordField};
use builder_gen::types::{Data, FieldSpec, Fields, GenericArg, RecordDecl, TypeExpr};

fn text() -> TypeExpr {
    TypeExpr::named("String")
}

fn of(name: &str, args: Vec<TypeExpr>) -> TypeExpr {
    TypeExpr::generic(name, args.into_iter().map(GenericArg::Type).collect())
}

fn person() -> BuilderSpec {
    let field = |name: &str, declared_type: TypeExpr, attributes: &[&str]| FieldSpec {
        name: name.to_string(),
        declared_type,
        attributes: attributes.iter().map(|a| a.to_string()).collect(),
    };
    normalize(RecordDecl {
        visibility: "pub".to_string(),
        name: "Person".to_string(),
        data: Data::Struct(Fields::Named(vec![
            field("name", text(), &[]),
            field("tags", of("Vec", vec![text()]), &["each = \"tag\""]),
            field("nickname", of("Option", vec![text()]), &[]),
        ])),
    })
    .unwrap()
}

fn spec_of(fields: Vec<(&str, FieldType)>) -> BuilderSpec {
    BuilderSpec {
        target_name: "T".to_string(),
        target_visibility: String::new(),
        fields: fields
            .into_iter()
            .map(|(ident, ty)| BuilderField { ident: ident.to_string(), ty })
            .collect(),
    }
}

fn missing(name: &str) -> Diagnostic {
    Diagnostic {
        kind: DiagnosticKind::MissingField,
        message: format!("value is not set: {}", name),
        origin: Origin::Field { name: name.to_string() },
    }
}

fn record(name: &str, fields: Vec<(&str, FieldValue<&'static str>)>) -> Record<&'static str> {
    Record {
        name: name.to_string(),
        fields: fields
            .into_iter()
            .map(|(name, value)| RecordField { name: name.to_string(), value })
            .collect(),
    }
}

#[test]
fn person_is_built_and_the_builder_drained() {
    let mut b: Builder<&'static str> = Builder::new(person());
    b.set("tag", "a").unwrap().set("tag", "b").unwrap().set("name", "Al").unwrap();
    assert_eq!(
        b.build(),
        Ok(record("Person", vec![
            ("name", FieldValue::Required("Al")),
            ("tags", FieldValue::Repeated(vec!["a", "b"])),
            ("nickname", FieldValue::Optional(None)),
        ]))
    );
    assert_eq!(b.build(), Err(missing("name")));
}

#[test]
fn new_builder_misses_its_plain_field() {
    let mut b: Builder<&'static str> = Builder::new(person());
    assert_eq!(b.build(), Err(missing("name")));
    assert_eq!(b.build().unwrap_err().to_string(), "value is not set: name");
}

#[test]
fn plain_field_is_missing_until_it_is_set() {
    let mut b: Builder<&'static str> = Builder::new(person());
    b.set("nickname", "Al").unwrap().set("tag", "x").unwrap();
    assert_eq!(b.build(), Err(missing("name")));
    b.set("name", "Alan").unwrap();
    assert!(b.build().is_ok());
}

#[test]
fn first_missing_field_in_declaration_order_is_named() {
    let fields = || vec![
        ("a", FieldType::Plain(text())),
        ("o", FieldType::Optional(text())),
        ("b", FieldType::Plain(text())),
        ("c", FieldType::Plain(text())),
    ];
    let mut b: Builder<&'static str> = Builder::new(spec_of(fields()));
    assert_eq!(b.build(), Err(missing("a")));
    b.set("c", "3").unwrap();
    assert_eq!(b.build(), Err(missing("a")));
    b.set("a", "1").unwrap();
    assert_eq!(b.build(), Err(missing("b")));
    b.set("b", "2").unwrap();
    assert_eq!(
        b.build(),
        Ok(record("T", vec![
            ("a", FieldValue::Required("1")),
            ("o", FieldValue::Optional(None)),
            ("b", FieldValue::Required("2")),
            ("c", FieldValue::Required("3")),
        ]))
    );
}

#[test]
fn failed_build_leaves_the_builder_as_it_was() {
    let mut b: Builder<&'static str> = Builder::new(spec_of(vec![
        ("a", FieldType::Plain(text())),
        ("b", FieldType::Plain(text())),
        ("r", FieldType::Repeated("one".to_string(), text())),
        ("o", FieldType::Optional(text())),
    ]));
    b.set("a", "1").unwrap().set("one", "x").unwrap().set("o", "y").unwrap();
    assert_eq!(b.build(), Err(missing("b")));
    assert_eq!(b.build(), Err(missing("b")));
    b.set("b", "2").unwrap();
    assert_eq!(
        b.build(),
        Ok(record("T", vec![
            ("a", FieldValue::Required("1")),
            ("b", FieldValue::Required("2")),
            ("r", FieldValue::Repeated(vec!["x"])),
            ("o", FieldValue::Optional(Some("y"))),
        ]))
    );
}

#[test]
fn optional_field_never_fails_the_build() {
    let spec = || spec_of(vec![("o", FieldType::Optional(text()))]);
    let mut unset: Builder<&'static str> = Builder::new(spec());
    assert_eq!(unset.build(), Ok(record("T", vec![("o", FieldValue::Optional(None))])));
    let mut set: Builder<&'static str> = Builder::new(spec());
    set.set("o", "v").unwrap();
    assert_eq!(set.build(), Ok(record("T", vec![("o", FieldValue::Optional(Some("v")))])));
}

#[test]
fn setter_overwrites_what_was_set_before() {
    let mut b: Builder<&'static str> = Builder::new(person());
    b.set("name", "Al").unwrap().set("name", "Bo").unwrap();
    b.set("nickname", "x").unwrap().set("nickname", "y").unwrap();
    assert_eq!(
        b.build(),
        Ok(record("Person", vec![
            ("name", FieldValue::Required("Bo")),
            ("tags", FieldValue::Repeated(vec![])),
            ("nickname", FieldValue::Optional(Some("y"))),
        ]))
    );
}

#[test]
fn accumulator_appends_in_call_order_and_keeps_duplicates() {
    let mut b: Builder<u32> = Builder::new(spec_of(vec![
        ("items", FieldType::Repeated("item".to_string(), TypeExpr::named("u32"))),
    ]));
    for value in [3, 1, 3, 2, 1] {
        b.set("item", value).unwrap();
    }
    assert_eq!(
        b.build(),
        Ok(Record {
            name: "T".to_string(),
            fields: vec![RecordField {
                name: "items".to_string(),
                value: FieldValue::Repeated(vec![3, 1, 3, 2, 1]),
            }],
        })
    );
}

#[test]
fn repeated_field_that_was_not_called_is_empty() {
    let mut b: Builder<u32> = Builder::new(spec_of(vec![
        ("items", FieldType::Repeated("item".to_string(), TypeExpr::named("u32"))),
    ]));
    let built = b.build().unwrap();
    assert_eq!(built.fields[0].value, FieldValue::Repeated(vec![]));
}

#[test]
fn second_build_starts_from_nothing() {
    let mut b: Builder<&'static str> = Builder::new(person());
    b.set("name", "Al").unwrap().set("nickname", "A").unwrap().set("tag", "t").unwrap();
    assert!(b.build().is_ok());
    assert_eq!(b.build(), Err(missing("name")));
    b.set("name", "Bo").unwrap();
    assert_eq!(
        b.build(),
        Ok(record("Person", vec![
            ("name", FieldValue::Required("Bo")),
            ("tags", FieldValue::Repeated(vec![])),
            ("nickname", FieldValue::Optional(None)),
        ]))
    );
}

#[test]
fn record_without_plain_field_is_built_again_and_again() {
    let mut b: Builder<&'static str> = Builder::new(spec_of(vec![
        ("o", FieldType::Optional(text())),
        ("r", FieldType::Repeated("one".to_string(), text())),
    ]));
    b.set("o", "v").unwrap().set("one", "w").unwrap();
    assert!(b.build().is_ok());
    let empty = record("T", vec![
        ("o", FieldValue::Optional(None)),
        ("r", FieldValue::Repeated(vec![])),
    ]);
    assert_eq!(b.build(), Ok(empty));
}

#[test]
fn repeated_field_is_set_by_its_accumulator_alone() {
    let mut b: Builder<&'static str> = Builder::new(person());
    assert!(b.has_setter("tag"));
    assert!(!b.has_setter("tags"));
    assert!(b.set("tags", "x").is_none());
    b.set("name", "Al").unwrap();
    let built = b.build().unwrap();
    assert_eq!(built.fields[1].value, FieldValue::Repeated(vec![]));
}

#[test]
fn unknown_setter_changes_nothing() {
    let mut b: Builder<&'static str> = Builder::new(person());
    b.set("name", "Al").unwrap();
    assert!(b.set("age", "7").is_none());
    assert!(!b.has_setter("age"));
    assert_eq!(
        b.build(),
        Ok(record("Person", vec![
            ("name", FieldValue::Required("Al")),
            ("tags", FieldValue::Repeated(vec![])),
            ("nickname", FieldValue::Optional(None)),
        ]))
    );
}

#[test]
fn setter_name_reaches_the_first_field_that_has_it() {
    let mut b: Builder<&'static str> = Builder::new(spec_of(vec![
        ("x", FieldType::Optional(text())),
        ("xs", FieldType::Repeated("x".to_string(), text())),
    ]));
    b.set("x", "1").unwrap().set("x", "2").unwrap();
    assert_eq!(
        b.build(),
        Ok(record("T", vec![
            ("x", FieldValue::Optional(Some("2"))),
            ("xs", FieldValue::Repeated(vec![])),
        ]))
    );
}

#[test]
fn record_without_fields_is_built() {
    let mut b: Builder<&'static str> = Builder::new(spec_of(vec![]));
    assert_eq!(b.build(), Ok(record("T", vec![])));
}

#[test]
fn accumulator_appends_to_what_the_field_holds() {
    let mut b: Builder<&'static str> = Builder::new(spec_of(vec![
        ("o", FieldType::Optional(text())),
        ("t", FieldType::Repeated("acc".to_string(), text())),
        ("p", FieldType::Plain(text())),
    ]));
    b.set("acc", "x1").unwrap().set("acc", "x2").unwrap();
    b.set("acc", "v1").unwrap().set("o", "a").unwrap().set("acc", "v2").unwrap();
    b.set("p", "b").unwrap().set("o", "c").unwrap().set("acc", "v1").unwrap();
    let built = b.build().unwrap();
    assert_eq!(built.fields[1].value, FieldValue::Repeated(vec!["x1", "x2", "v1", "v2", "v1"]));
}

#[test]
fn repeated_field_is_empty_when_only_plain_fields_are_set() {
    let mut b: Builder<&'static str> = Builder::new(spec_of(vec![
        ("p", FieldType::Plain(text())),
        ("t", FieldType::Repeated("acc".to_string(), text())),
        ("q", FieldType::Plain(text())),
    ]));
    b.set("p", "1").unwrap().set("q", "2").unwrap();
    assert_eq!(
        b.build(),
        Ok(record("T", vec![
            ("p", FieldValue::Required("1")),
            ("t", FieldValue::Repeated(vec![])),
            ("q", FieldValue::Required("2")),
        ]))
    );
}

#[test]
fn no_stale_value_comes_back_after_a_build() {
    let mut b: Builder<&'static str> = Builder::new(spec_of(vec![
        ("p", FieldType::Plain(text())),
        ("o", FieldType::Optional(text())),
        ("t", FieldType::Repeated("acc".to_string(), text())),
    ]));
    b.set("p", "1").unwrap().set("o", "old").unwrap().set("acc", "old").unwrap();
    assert!(b.build().is_ok());
    b.set("p", "2").unwrap();
    assert_eq!(
        b.build(),
        Ok(record("T", vec![
            ("p", FieldValue::Required("2")),
            ("o", FieldValue::Optional(None)),
            ("t", FieldValue::Repeated(vec![])),
        ]))
    );
}

#[test]
fn distinct_setters_are_told_from_shared_ones() {
    assert!(setters_distinct(&person().fields));
    assert!(setters_distinct(&vec![]));
    let shared = spec_of(vec![
        ("x", FieldType::Optional(text())),
        ("y", FieldType::Plain(text())),
        ("xs", FieldType::Repeated("x".to_string(), text())),
    ]);
    assert!(!setters_distinct(&shared.fields));
    let twice = spec_of(vec![("a", FieldType::Plain(text())), ("a", FieldType::Plain(text()))]);
    assert!(!setters_distinct(&twice.fields));
    let apart = spec_of(vec![
        ("x", FieldType::Optional(text())),
        ("xs", FieldType::Repeated("one".to_string(), text())),
    ]);
    assert!(setters_distinct(&apart.fields));
}

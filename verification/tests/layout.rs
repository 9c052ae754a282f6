use builder_gen::classify::{BuilderField, FieldType};
use builder_gen::diagnostic::{Diagnostic, DiagnosticKind, Origin};
use builder_gen::layout::{
    expand, generate, make_build_fn, make_initializer, make_setters, make_storage, normalize,
    setters_for, storage_for, Assignment, BuildMethod, BuilderSpec, Extraction, GeneratedApi,
    InitialValue, Initializer, MethodSpec, Mutation, RequiredCheck, SlotType, StorageField,
};
use builder_gen::types::{Data, FieldSpec, Fields, GenericArg, RecordDecl, TypeExpr};

fn text() -> TypeExpr {
    TypeExpr::named("String")
}

fn of(name: &str, args: Vec<TypeExpr>) -> TypeExpr {
    TypeExpr::generic(name, args.into_iter().map(GenericArg::Type).collect())
}

fn field(name: &str, declared_type: TypeExpr, attributes: &[&str]) -> FieldSpec {
    FieldSpec {
        name: name.to_string(),
        declared_type,
        attributes: attributes.iter().map(|a| a.to_string()).collect(),
    }
}

fn person() -> RecordDecl {
    RecordDecl {
        visibility: "pub".to_string(),
        name: "Person".to_string(),
        data: Data::Struct(Fields::Named(vec![
            field("name", text(), &[]),
            field("tags", of("Vec", vec![text()]), &["each = \"tag\""]),
            field("nickname", of("Option", vec![text()]), &[]),
        ])),
    }
}

fn person_fields() -> Vec<BuilderField> {
    vec![
        BuilderField { ident: "name".to_string(), ty: FieldType::Plain(text()) },
        BuilderField {
            ident: "tags".to_string(),
            ty: FieldType::Repeated("tag".to_string(), text()),
        },
        BuilderField { ident: "nickname".to_string(), ty: FieldType::Optional(text()) },
    ]
}

fn person_storage() -> Vec<StorageField> {
    vec![
        StorageField { name: "name".to_string(), slot: SlotType::Optional(text()) },
        StorageField { name: "tags".to_string(), slot: SlotType::Sequence(text()) },
        StorageField { name: "nickname".to_string(), slot: SlotType::Optional(text()) },
    ]
}

fn person_initializers() -> Vec<Initializer> {
    vec![
        Initializer { name: "name".to_string(), value: InitialValue::Absent },
        Initializer { name: "tags".to_string(), value: InitialValue::Empty },
        Initializer { name: "nickname".to_string(), value: InitialValue::Absent },
    ]
}

fn person_setters() -> Vec<MethodSpec> {
    vec![
        MethodSpec {
            name: "name".to_string(),
            parameter_type: text(),
            field: "name".to_string(),
            mutation: Mutation::Overwrite,
        },
        MethodSpec {
            name: "tag".to_string(),
            parameter_type: text(),
            field: "tags".to_string(),
            mutation: Mutation::Append,
        },
        MethodSpec {
            name: "nickname".to_string(),
            parameter_type: text(),
            field: "nickname".to_string(),
            mutation: Mutation::Overwrite,
        },
    ]
}

fn person_build() -> BuildMethod {
    BuildMethod {
        target: "Person".to_string(),
        checks: vec![RequiredCheck {
            field: "name".to_string(),
            message: "value is not set: name".to_string(),
        }],
        assignments: vec![
            Assignment { field: "name".to_string(), value: Extraction::Checked },
            Assignment { field: "tags".to_string(), value: Extraction::Drained },
            Assignment { field: "nickname".to_string(), value: Extraction::Taken },
        ],
    }
}

#[test]
fn storage_of_each_kind() {
    let fields = person_fields();
    assert_eq!(storage_for(&fields[0]), (SlotType::Optional(text()), InitialValue::Absent));
    assert_eq!(storage_for(&fields[1]), (SlotType::Sequence(text()), InitialValue::Empty));
    assert_eq!(storage_for(&fields[2]), (SlotType::Optional(text()), InitialValue::Absent));
}

#[test]
fn setters_of_each_kind() {
    let fields = person_fields();
    let expected = person_setters();
    for i in 0..3 {
        assert_eq!(setters_for(&fields[i]), vec![MethodSpec {
            name: expected[i].name.clone(),
            parameter_type: expected[i].parameter_type.clone(),
            field: expected[i].field.clone(),
            mutation: expected[i].mutation,
        }]);
    }
}

#[test]
fn storage_follows_declaration_order() {
    assert_eq!(make_storage(&person_fields()), person_storage());
    assert_eq!(make_storage(&vec![]), vec![]);
}

#[test]
fn initializers_follow_declaration_order() {
    assert_eq!(make_initializer(&person_fields()), person_initializers());
    assert_eq!(make_initializer(&vec![]), vec![]);
}

#[test]
fn setters_follow_declaration_order() {
    assert_eq!(make_setters(&person_fields()), person_setters());
    assert_eq!(make_setters(&vec![]), vec![]);
}

#[test]
fn build_checks_plain_fields_and_assigns_all() {
    assert_eq!(make_build_fn("Person", &person_fields()), person_build());
}

#[test]
fn build_of_two_plain_fields_checks_both_in_order() {
    let fields = vec![
        BuilderField { ident: "b".to_string(), ty: FieldType::Plain(text()) },
        BuilderField { ident: "o".to_string(), ty: FieldType::Optional(text()) },
        BuilderField { ident: "a".to_string(), ty: FieldType::Plain(text()) },
    ];
    let build = make_build_fn("T", &fields);
    assert_eq!(build.checks, vec![
        RequiredCheck { field: "b".to_string(), message: "value is not set: b".to_string() },
        RequiredCheck { field: "a".to_string(), message: "value is not set: a".to_string() },
    ]);
    assert_eq!(build.assignments.len(), 3);
}

#[test]
fn build_of_no_fields_is_empty() {
    assert_eq!(
        make_build_fn("Empty", &vec![]),
        BuildMethod { target: "Empty".to_string(), checks: vec![], assignments: vec![] }
    );
}

#[test]
fn record_is_brought_into_normal_form() {
    assert_eq!(
        normalize(person()),
        Ok(BuilderSpec {
            target_name: "Person".to_string(),
            target_visibility: "pub".to_string(),
            fields: person_fields(),
        })
    );
}

#[test]
fn layout_of_the_whole_record() {
    let expected = GeneratedApi {
        visibility: "pub".to_string(),
        target_name: "Person".to_string(),
        builder_name: "PersonBuilder".to_string(),
        storage_fields: person_storage(),
        initializer_expressions: person_initializers(),
        setter_methods: person_setters(),
        build_method: person_build(),
    };
    assert_eq!(expand(person()), Ok(expected));
}

#[test]
fn layout_is_that_of_the_normal_form() {
    let spec = normalize(person()).unwrap();
    assert_eq!(Ok(generate(&spec)), expand(person()));
}

#[test]
fn layout_of_a_record_without_fields() {
    let decl = RecordDecl {
        visibility: String::new(),
        name: "Empty".to_string(),
        data: Data::Struct(Fields::Named(vec![])),
    };
    let api = expand(decl).unwrap();
    assert_eq!(api.visibility, "");
    assert_eq!(api.builder_name, "EmptyBuilder");
    assert!(api.storage_fields.is_empty());
    assert!(api.initializer_expressions.is_empty());
    assert!(api.setter_methods.is_empty());
    assert!(api.build_method.checks.is_empty());
    assert!(api.build_method.assignments.is_empty());
}

#[test]
fn tuple_struct_is_refused() {
    let decl = RecordDecl {
        visibility: "pub".to_string(),
        name: "Pair".to_string(),
        data: Data::Struct(Fields::Unnamed),
    };
    assert_eq!(
        expand(decl),
        Err(Diagnostic {
            kind: DiagnosticKind::UnsupportedShape,
            message: "expected named fields".to_string(),
            origin: Origin::Record { name: "Pair".to_string() },
        })
    );
}

#[test]
fn enum_is_refused() {
    let decl = RecordDecl { visibility: "pub".to_string(), name: "Kind".to_string(), data: Data::Enum };
    assert_eq!(
        expand(decl),
        Err(Diagnostic {
            kind: DiagnosticKind::UnsupportedShape,
            message: "expected struct".to_string(),
            origin: Origin::Record { name: "Kind".to_string() },
        })
    );
}

#[test]
fn invalid_directive_stops_the_layout() {
    let decl = RecordDecl {
        visibility: "pub".to_string(),
        name: "Person".to_string(),
        data: Data::Struct(Fields::Named(vec![
            field("name", text(), &[]),
            field("tags", of("Vec", vec![text()]), &["each = 5"]),
        ])),
    };
    assert_eq!(
        expand(decl),
        Err(Diagnostic {
            kind: DiagnosticKind::InvalidDirective,
            message: "expected `each = \"...\"`".to_string(),
            origin: Origin::Attribute { field: "tags".to_string(), text: "each = 5".to_string() },
        })
    );
}

#[test]
fn first_failure_in_declaration_order_is_reported() {
    let decl = RecordDecl {
        visibility: "pub".to_string(),
        name: "Person".to_string(),
        data: Data::Struct(Fields::Named(vec![
            field("ok", text(), &[]),
            field("first", text(), &["each = \"x\""]),
            field("second", text(), &["each = 5"]),
        ])),
    };
    let d = expand(decl).unwrap_err();
    assert_eq!(d.kind, DiagnosticKind::MalformedType);
    assert_eq!(d.origin, Origin::Type { field: "first".to_string(), text: "String".to_string() });
}

#[test]
fn field_is_classified_the_same_wherever_it_stands() {
    let a = || field("a", of("Option", vec![text()]), &[]);
    let b = || field("b", of("Vec", vec![text()]), &["each = \"x\""]);
    let decl = |fields: Vec<FieldSpec>| RecordDecl {
        visibility: String::new(),
        name: "R".to_string(),
        data: Data::Struct(Fields::Named(fields)),
    };
    let ab = normalize(decl(vec![a(), b()])).unwrap();
    let ba = normalize(decl(vec![b(), a()])).unwrap();
    assert_eq!(ab.fields[0], ba.fields[1]);
    assert_eq!(ab.fields[1], ba.fields[0]);
    assert_eq!(Ok(BuilderField { ident: ab.fields[0].ident.clone(), ty: ab.fields[0].ty.clone() }),
        BuilderField::try_from(&a()));
}

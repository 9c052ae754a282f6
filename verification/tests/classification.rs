use builder_gen::attribute::{
    block_from, directive_from, is_blank_text, literal_content, parse_block, parse_directive,
    split_directive, Directive,
};
use builder_gen::classify::{is_optional_wrapper, BuilderField, FieldType};
use builder_gen::diagnostic::{Diagnostic, DiagnosticKind, Origin};
use builder_gen::helper::{extract_inner_ty, extract_struct_fields};
use builder_gen::types::{Data, FieldSpec, Fields, GenericArg, TypeExpr};

fn text() -> TypeExpr {
    TypeExpr::named("String")
}

fn of(name: &str, args: Vec<TypeExpr>) -> TypeExpr {
    TypeExpr::generic(name, args.into_iter().map(GenericArg::Type).collect())
}

fn field(name: &str, declared_type: TypeExpr, attributes: &[&str]) -> FieldSpec {
    FieldSpec {
        name: name.to_string(),
        declared_type,
        attributes: attributes.iter().map(|a| a.to_string()).collect(),
    }
}

fn invalid(field: &str, text: &str) -> Diagnostic {
    Diagnostic {
        kind: DiagnosticKind::InvalidDirective,
        message: "expected `each = \"...\"`".to_string(),
        origin: Origin::Attribute { field: field.to_string(), text: text.to_string() },
    }
}

#[test]
fn named_type_is_written_as_its_name() {
    let ty = TypeExpr::named("u32");
    assert_eq!(ty.source, "u32");
    assert_eq!(ty.name, "u32");
    assert!(ty.args.is_empty());
}

#[test]
fn generic_type_is_written_with_its_arguments() {
    let one = of("Vec", vec![text()]);
    assert_eq!(one.source, "Vec<String>");
    assert_eq!(one.name, "Vec");
    assert_eq!(one.args, vec![GenericArg::Type(text())]);

    let two = of("HashMap", vec![text(), one.clone()]);
    assert_eq!(two.source, "HashMap<String, Vec<String>>");

    let none = of("Unit", vec![]);
    assert_eq!(none.source, "Unit");
}

#[test]
fn generic_argument_that_is_no_type_is_written_as_it_is() {
    let cow = TypeExpr::generic(
        "Cow",
        vec![GenericArg::Other("'a".to_string()), GenericArg::Type(TypeExpr::named("str"))],
    );
    assert_eq!(cow.source, "Cow<'a, str>");
    assert_eq!(cow.args[0].source(), "'a");
    assert_eq!(cow.args[1].source(), "str");
    assert_eq!(cow.clone(), cow);
    assert_eq!(cow.args[0].clone(), GenericArg::Other("'a".to_string()));
}

#[test]
fn clone_of_a_type_is_equal_to_it() {
    let ty = of("Option", vec![of("Vec", vec![text()])]);
    assert_eq!(ty.clone(), ty);
}

#[test]
fn split_returns_what_follows_the_equals_sign() {
    assert_eq!(split_directive("each = \"tag\""), Some(" \"tag\"".to_string()));
    assert_eq!(split_directive("each=5"), Some("5".to_string()));
    assert_eq!(split_directive(" \t each \n= a = b"), Some(" a = b".to_string()));
    assert_eq!(split_directive("each="), Some(String::new()));
}

#[test]
fn split_leaves_out_one_trailing_comma() {
    assert_eq!(split_directive("each = \"tag\","), Some(" \"tag\"".to_string()));
    assert_eq!(split_directive("each = \"tag\" , \n"), Some(" \"tag\" ".to_string()));
    assert_eq!(split_directive("each = \"tag\",,"), Some(" \"tag\",".to_string()));
    assert_eq!(split_directive("each = \"a\", x"), Some(" \"a\", x".to_string()));
    assert_eq!(split_directive("each = \"tag\"  "), Some(" \"tag\"  ".to_string()));
    assert_eq!(split_directive("each =,"), Some(String::new()));
    assert_eq!(split_directive("each = , "), Some(" ".to_string()));
}

#[test]
fn split_refuses_anything_but_the_keyword() {
    assert_eq!(split_directive(""), None);
    assert_eq!(split_directive("each"), None);
    assert_eq!(split_directive("= \"tag\""), None);
    assert_eq!(split_directive("eac = \"tag\""), None);
    assert_eq!(split_directive("each2 = \"tag\""), None);
    assert_eq!(split_directive("an each = \"tag\""), None);
    assert_eq!(split_directive("each x = \"tag\""), None);
    assert_eq!(split_directive("other = \"tag\""), None);
    assert_eq!(split_directive("Each = \"tag\""), None);
}

#[test]
fn blank_text_is_told_from_other_text() {
    assert!(is_blank_text(""));
    assert!(is_blank_text(" \t\r\n "));
    assert!(!is_blank_text(" x "));
    assert!(!is_blank_text("="));
}

#[test]
fn block_with_identifier_names_the_accumulator() {
    assert_eq!(parse_block("tags", "each = \"tag\""), Directive::Each("tag".to_string()));
    assert_eq!(parse_block("tags", "  each=\"t_1\"  "), Directive::Each("t_1".to_string()));
}

#[test]
fn literal_content_is_read_with_its_escapes_resolved() {
    assert_eq!(parse_block("tags", "each = \"t\\u{61}g\""), Directive::Each("tag".to_string()));
    assert_eq!(parse_block("tags", "each = r\"tag\""), Directive::Each("tag".to_string()));
}

#[test]
fn identifier_is_read_without_the_blanks_around_it() {
    assert_eq!(parse_block("tags", "each = \" tag \""), Directive::Each("tag".to_string()));
}

#[test]
fn one_comma_may_follow_the_literal() {
    assert_eq!(parse_block("tags", "each = \"tag\","), Directive::Each("tag".to_string()));
    assert_eq!(parse_block("tags", "each = \"tag\" , "), Directive::Each("tag".to_string()));
}

#[test]
fn literal_with_a_suffix_is_refused() {
    let text = "each = \"tag\"u8";
    assert_eq!(parse_block("tags", text), Directive::Invalid(invalid("tags", text)));
    assert_eq!(literal_content(Some(("tag".to_string(), "u8".to_string()))), None);
    assert_eq!(literal_content(Some(("tag".to_string(), String::new()))), Some("tag".to_string()));
    assert_eq!(literal_content(None), None);
}

#[test]
fn block_follows_the_reading_it_is_given() {
    let text = "each = \"tag\"";
    assert_eq!(
        block_from("tags", text, Some("other".to_string())),
        Directive::Each("other".to_string())
    );
    assert_eq!(block_from("tags", text, None), Directive::Invalid(invalid("tags", text)));
    assert_eq!(block_from("tags", " ", Some("x".to_string())), Directive::Absent);
    assert_eq!(block_from("tags", " ", None), Directive::Absent);
    assert_eq!(
        block_from("tags", "other = 1", Some("x".to_string())),
        Directive::Invalid(invalid("tags", "other = 1"))
    );
}

#[test]
fn blocks_follow_the_reading_they_are_given() {
    let one = vec!["each = \"a\"".to_string()];
    let two = vec!["each = \"a\"".to_string(), "more".to_string()];
    assert_eq!(directive_from("f", &vec![], Some("x".to_string())), Directive::Absent);
    assert_eq!(directive_from("f", &one, Some("x".to_string())), Directive::Each("x".to_string()));
    assert_eq!(directive_from("f", &one, None), Directive::Invalid(invalid("f", "each = \"a\"")));
    assert_eq!(
        directive_from("f", &two, Some("x".to_string())),
        Directive::Invalid(invalid("f", "more"))
    );
    assert_eq!(directive_from("f", &two, None), Directive::Invalid(invalid("f", "each = \"a\"")));
}

#[test]
fn blank_block_holds_no_directive() {
    assert_eq!(parse_block("tags", ""), Directive::Absent);
    assert_eq!(parse_block("tags", "  \n"), Directive::Absent);
}

#[test]
fn block_that_is_no_directive_is_invalid() {
    for text in [
        "each = 5",
        "each = tag",
        "each",
        "each = \"\"",
        "each = \"two words\"",
        "each = \"1tag\"",
        "each = \"fn\"",
        "each = \"tag\",,",
        "each = ,",
        "each = \"a\", each = \"b\"",
        "other = \"tag\"",
        "= \"tag\"",
        "each(\"tag\")",
    ] {
        assert_eq!(parse_block("tags", text), Directive::Invalid(invalid("tags", text)), "{}", text);
    }
}

#[test]
fn field_without_block_has_no_directive() {
    assert_eq!(parse_directive("tags", &vec![]), Directive::Absent);
}

#[test]
fn only_block_is_read() {
    assert_eq!(
        parse_directive("tags", &vec!["each = \"a\"".to_string()]),
        Directive::Each("a".to_string())
    );
    assert_eq!(parse_directive("tags", &vec![" ".to_string()]), Directive::Absent);
}

#[test]
fn second_block_is_refused() {
    let blocks = vec!["each = \"a\"".to_string(), "each = \"b\"".to_string()];
    assert_eq!(parse_directive("tags", &blocks), Directive::Invalid(invalid("tags", "each = \"b\"")));
    let blanks = vec![String::new(), String::new(), "each = \"c\"".to_string()];
    assert_eq!(parse_directive("tags", &blanks), Directive::Invalid(invalid("tags", "")));
}

#[test]
fn refused_first_block_is_reported_before_a_second_one() {
    let blocks = vec!["each = 5".to_string(), "each = \"b\"".to_string()];
    assert_eq!(parse_directive("tags", &blocks), Directive::Invalid(invalid("tags", "each = 5")));
}

#[test]
fn optional_wrapper_is_told_by_name_and_one_argument() {
    assert!(is_optional_wrapper(&of("Option", vec![text()])));
    assert!(!is_optional_wrapper(&TypeExpr::named("Option")));
    assert!(!is_optional_wrapper(&of("Option", vec![text(), text()])));
    assert!(!is_optional_wrapper(&of("Vec", vec![text()])));
    assert!(!is_optional_wrapper(&of("option", vec![text()])));
}

#[test]
fn inner_type_is_the_single_argument() {
    let inner = of("Vec", vec![text()]);
    let ty = of("Option", vec![inner.clone()]);
    assert_eq!(extract_inner_ty("f", &ty), Ok(&inner));
}

#[test]
fn inner_type_of_other_shapes_is_malformed() {
    for ty in [TypeExpr::named("Vec"), of("HashMap", vec![text(), text()])] {
        let expected = Diagnostic {
            kind: DiagnosticKind::MalformedType,
            message: "unexpected path arguments".to_string(),
            origin: Origin::Type { field: "f".to_string(), text: ty.source.clone() },
        };
        assert_eq!(extract_inner_ty("f", &ty), Err(expected));
    }
}

#[test]
fn inner_type_that_is_no_type_is_malformed() {
    let ty = TypeExpr::generic("Option", vec![GenericArg::Other("'a".to_string())]);
    let expected = Diagnostic {
        kind: DiagnosticKind::MalformedType,
        message: "unexpected generic argument".to_string(),
        origin: Origin::Type { field: "f".to_string(), text: "'a".to_string() },
    };
    assert_eq!(extract_inner_ty("f", &ty), Err(expected.clone()));
    assert_eq!(BuilderField::try_from(&field("f", ty, &[])), Err(expected));

    let list = TypeExpr::generic("Vec", vec![GenericArg::Other("3".to_string())]);
    let got = BuilderField::try_from(&field("f", list, &["each = \"x\""]));
    assert_eq!(got.unwrap_err().message, "unexpected generic argument");

    let plain = TypeExpr::generic("Ref", vec![GenericArg::Other("'a".to_string())]);
    let got = BuilderField::try_from(&field("f", plain.clone(), &[]));
    assert_eq!(got, Ok(BuilderField { ident: "f".to_string(), ty: FieldType::Plain(plain) }));
}

#[test]
fn named_fields_are_extracted_in_order() {
    let fields = vec![field("a", text(), &[]), field("b", text(), &["each = \"x\""])];
    assert_eq!(extract_struct_fields("R", Data::Struct(Fields::Named(fields.clone()))), Ok(fields));
    assert_eq!(extract_struct_fields("R", Data::Struct(Fields::Named(vec![]))), Ok(vec![]));
}

#[test]
fn other_shapes_are_unsupported() {
    let named = Diagnostic {
        kind: DiagnosticKind::UnsupportedShape,
        message: "expected named fields".to_string(),
        origin: Origin::Record { name: "Pair".to_string() },
    };
    assert_eq!(extract_struct_fields("Pair", Data::Struct(Fields::Unnamed)), Err(named.clone()));
    assert_eq!(extract_struct_fields("Pair", Data::Struct(Fields::Unit)), Err(named));
    let structure = Diagnostic {
        kind: DiagnosticKind::UnsupportedShape,
        message: "expected struct".to_string(),
        origin: Origin::Record { name: "Kind".to_string() },
    };
    assert_eq!(extract_struct_fields("Kind", Data::Enum), Err(structure.clone()));
    assert_eq!(extract_struct_fields("Kind", Data::Union), Err(structure));
}

#[test]
fn field_of_another_type_is_plain() {
    let got = BuilderField::try_from(&field("name", text(), &[]));
    assert_eq!(got, Ok(BuilderField { ident: "name".to_string(), ty: FieldType::Plain(text()) }));
}

#[test]
fn field_in_the_optional_wrapper_is_optional() {
    let declared = of("Option", vec![text()]);
    let got = BuilderField::try_from(&field("nickname", declared, &[]));
    assert_eq!(
        got,
        Ok(BuilderField { ident: "nickname".to_string(), ty: FieldType::Optional(text()) })
    );
}

#[test]
fn field_with_each_is_repeated() {
    let declared = of("Vec", vec![text()]);
    let got = BuilderField::try_from(&field("tags", declared, &["each = \"tag\""]));
    assert_eq!(
        got,
        Ok(BuilderField {
            ident: "tags".to_string(),
            ty: FieldType::Repeated("tag".to_string(), text()),
        })
    );
}

#[test]
fn each_wins_over_the_optional_wrapper() {
    let declared = of("Option", vec![text()]);
    let got = BuilderField::try_from(&field("maybe", declared, &["each = \"one\""]));
    assert_eq!(
        got,
        Ok(BuilderField {
            ident: "maybe".to_string(),
            ty: FieldType::Repeated("one".to_string(), text()),
        })
    );
}

#[test]
fn each_on_a_type_without_single_argument_is_malformed() {
    for declared in [text(), of("HashMap", vec![text(), text()])] {
        let expected = Diagnostic {
            kind: DiagnosticKind::MalformedType,
            message: "unexpected path arguments".to_string(),
            origin: Origin::Type { field: "tags".to_string(), text: declared.source.clone() },
        };
        let got = BuilderField::try_from(&field("tags", declared, &["each = \"tag\""]));
        assert_eq!(got, Err(expected));
    }
}

#[test]
fn each_with_a_number_is_an_invalid_directive() {
    let declared = of("Vec", vec![text()]);
    let got = BuilderField::try_from(&field("tags", declared, &["each = 5"]));
    assert_eq!(got, Err(invalid("tags", "each = 5")));
    assert_eq!(got.unwrap_err().to_string(), "expected `each = \"...\"`");
}

#[test]
fn wrapper_with_two_arguments_is_plain() {
    let declared = of("Option", vec![text(), TypeExpr::named("u8")]);
    let got = BuilderField::try_from(&field("pair", declared.clone(), &[]));
    assert_eq!(got, Ok(BuilderField { ident: "pair".to_string(), ty: FieldType::Plain(declared) }));
}

#[test]
fn wrapper_without_argument_is_plain() {
    let declared = TypeExpr::named("Option");
    let got = BuilderField::try_from(&field("bare", declared.clone(), &[]));
    assert_eq!(got, Ok(BuilderField { ident: "bare".to_string(), ty: FieldType::Plain(declared) }));
}

#[test]
fn classification_follows_the_directive_it_is_given() {
    let declared = of("Option", vec![text()]);
    let spec = field("f", declared, &["ignored here"]);
    assert_eq!(
        BuilderField::classify(&spec, Directive::Absent),
        Ok(BuilderField { ident: "f".to_string(), ty: FieldType::Optional(text()) })
    );
    assert_eq!(
        BuilderField::classify(&spec, Directive::Each("one".to_string())),
        Ok(BuilderField { ident: "f".to_string(), ty: FieldType::Repeated("one".to_string(), text()) })
    );
    let d = invalid("f", "anything");
    assert_eq!(BuilderField::classify(&spec, Directive::Invalid(d.clone())), Err(d));
}

#[test]
fn equal_fields_are_classified_alike() {
    let make = || field("tags", of("Vec", vec![text()]), &["each = \"tag\""]);
    let first = BuilderField::try_from(&make());
    let _ = BuilderField::try_from(&field("other", text(), &["each = 5"]));
    let second = BuilderField::try_from(&make());
    assert_eq!(first, second);
}

#[test]
fn new_field_holds_what_it_is_given() {
    let f = BuilderField::new("x".to_string(), FieldType::Plain(text()));
    assert_eq!(f.ident, "x");
    assert_eq!(f.ty, FieldType::Plain(text()));
    assert_eq!(f.clone(), f);
}

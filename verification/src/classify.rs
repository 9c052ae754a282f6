//! Classification: what kind of builder field a declared field becomes.
//!
//! A field with an `each` directive is repeated, whatever its type is called.
//! Without a directive, a field whose type is called `Option` and is applied
//! to exactly one argument is optional. Every other field is plain. Where a
//! repeated or an optional field's one argument is no type, a lifetime say,
//! the classification fails.
//!
//! The optional wrapper is recognised by its name alone. A type of the user's
//! own that happens to be called `Option` cannot be told apart from the
//! standard one and is taken for it.

use vstd::prelude::*;
use crate::attribute::{
    blocks_reading_decides, directive_given, parse_directive, Directive, DirectiveModel,
};
use crate::diagnostic::{Diagnostic, DiagnosticModel};
use crate::helper::{extract_inner_ty, inner_type};
use crate::text::same_text;
use crate::types::{lemma_args_model, FieldSpec, FieldSpecModel, TypeExpr, TypeModel};

verus! {

/// The kind of a builder field, with the type that its setter takes.
#[derive(Debug, PartialEq, Eq)]
pub enum FieldType {
    /// Required: the declared type.
    Plain(TypeExpr),
    /// May be left out: the type inside the optional wrapper.
    Optional(TypeExpr),
    /// Filled one element at a time: the accumulator's name and the element
    /// type.
    Repeated(String, TypeExpr),
}

/// The model of a [`FieldType`].
pub ghost enum FieldTypeModel {
    Plain(TypeModel),
    Optional(TypeModel),
    Repeated(Seq<char>, TypeModel),
}

impl View for FieldType {
    type V = FieldTypeModel;

    open spec fn view(&self) -> FieldTypeModel {
        match self {
            FieldType::Plain(ty) => FieldTypeModel::Plain(ty@),
            FieldType::Optional(ty) => FieldTypeModel::Optional(ty@),
            FieldType::Repeated(each, ty) => FieldTypeModel::Repeated(each@, ty@),
        }
    }
}

impl Clone for FieldType {
    fn clone(&self) -> (r: Self)
        ensures
            r@ == self@,
    {
        match self {
            FieldType::Plain(ty) => FieldType::Plain(ty.clone()),
            FieldType::Optional(ty) => FieldType::Optional(ty.clone()),
            FieldType::Repeated(each, ty) => FieldType::Repeated(each.clone(), ty.clone()),
        }
    }
}

/// A classified field: its name and its kind.
#[derive(Debug, PartialEq, Eq)]
pub struct BuilderField {
    pub ident: String,
    pub ty: FieldType,
}

/// The model of a [`BuilderField`].
pub ghost struct BuilderFieldModel {
    pub ident: Seq<char>,
    pub ty: FieldTypeModel,
}

impl View for BuilderField {
    type V = BuilderFieldModel;

    open spec fn view(&self) -> BuilderFieldModel {
        BuilderFieldModel { ident: self.ident@, ty: self.ty@ }
    }
}

impl DeepView for BuilderField {
    type V = BuilderFieldModel;

    open spec fn deep_view(&self) -> BuilderFieldModel {
        self@
    }
}

impl Clone for BuilderField {
    fn clone(&self) -> (r: Self)
        ensures
            r@ == self@,
    {
        BuilderField { ident: self.ident.clone(), ty: self.ty.clone() }
    }
}

/// Whether a type has the shape of the optional wrapper: it is called
/// `Option` and is applied to exactly one argument.
pub open spec fn optional_wrapper(ty: TypeModel) -> bool {
    ty.name == "Option"@ && ty.args.len() == 1
}

/// The kind of a field, given the directive that its attribute text holds.
///
/// An invalid directive fails with its own diagnostic. `each` makes the field
/// repeated, with the single argument of the declared type as the element
/// type. Without a directive the optional wrapper makes the field optional,
/// with its argument as the type, and anything else makes it plain. Taking
/// the single argument fails with `MalformedType` where the type has no
/// argument or several, or one that is no type.
pub open spec fn classify(field: FieldSpecModel, directive: DirectiveModel) -> Result<
    BuilderFieldModel,
    DiagnosticModel,
> {
    match directive {
        DirectiveModel::Invalid(d) => Err(d),
        DirectiveModel::Each(each) => match inner_type(field.name, field.declared_type) {
            Ok(element) => Ok(
                BuilderFieldModel { ident: field.name, ty: FieldTypeModel::Repeated(each, element) },
            ),
            Err(d) => Err(d),
        },
        DirectiveModel::Absent => if optional_wrapper(field.declared_type) {
            match inner_type(field.name, field.declared_type) {
                Ok(inner) => Ok(
                    BuilderFieldModel { ident: field.name, ty: FieldTypeModel::Optional(inner) },
                ),
                Err(d) => Err(d),
            }
        } else {
            Ok(
                BuilderFieldModel {
                    ident: field.name,
                    ty: FieldTypeModel::Plain(field.declared_type),
                },
            )
        },
    }
}

/// The outcome for a field hangs on what is read from its attribute text.
pub open spec fn field_reading_decides(field: FieldSpecModel) -> bool {
    blocks_reading_decides(field.attributes)
}

/// The kind of a field, given what was read as the accumulator's name from
/// its attribute text: [`classify`] on the directive that follows from the
/// reading. The outcome depends on the field and the reading alone.
pub open spec fn classified(field: FieldSpecModel, read: Option<Seq<char>>) -> Result<
    BuilderFieldModel,
    DiagnosticModel,
> {
    classify(field, directive_given(field.name, field.attributes, read))
}

/// The model of a classification's outcome.
pub open spec fn outcome_view(r: Result<BuilderField, Diagnostic>) -> Result<
    BuilderFieldModel,
    DiagnosticModel,
> {
    match r {
        Ok(field) => Ok(field@),
        Err(d) => Err(d@),
    }
}

/// Whether `ty` has the shape of the optional wrapper.
pub fn is_optional_wrapper(ty: &TypeExpr) -> (r: bool)
    ensures
        r == optional_wrapper(ty@),
{
    proof {
        lemma_args_model(*ty);
    }
    same_text(ty.name.as_str(), "Option") && ty.args.len() == 1
}

impl BuilderField {
    pub fn new(ident: String, ty: FieldType) -> (r: Self)
        ensures
            r.ident == ident,
            r.ty == ty,
    {
        BuilderField { ident, ty }
    }

    /// Classifies `field`, given the directive read from its attribute text.
    pub fn classify(field: &FieldSpec, directive: Directive) -> (r: Result<Self, Diagnostic>)
        ensures
            outcome_view(r) == classify(field@, directive@),
    {
        let ident = field.name.clone();
        match directive {
            Directive::Invalid(d) => Err(d),
            Directive::Each(each) => {
                match extract_inner_ty(field.name.as_str(), &field.declared_type) {
                    Ok(element) => Ok(
                        BuilderField::new(ident, FieldType::Repeated(each, element.clone())),
                    ),
                    Err(d) => Err(d),
                }
            },
            Directive::Absent => {
                if is_optional_wrapper(&field.declared_type) {
                    match extract_inner_ty(field.name.as_str(), &field.declared_type) {
                        Ok(inner) => Ok(
                            BuilderField::new(ident, FieldType::Optional(inner.clone())),
                        ),
                        Err(d) => Err(d),
                    }
                } else {
                    Ok(BuilderField::new(ident, FieldType::Plain(field.declared_type.clone())))
                }
            },
        }
    }

    /// Classifies `field`: reads the directive in its attribute text, then
    /// decides the kind.
    ///
    /// The outcome is that of [`BuilderField::classify`] on the directive
    /// that follows from what `syn` read. Where no reading decides (no
    /// attribute block, a blank one, one that does not assign to `each`) it
    /// is the outcome for nothing read, and so a function of the field.
    pub fn try_from(field: &FieldSpec) -> (r: Result<Self, Diagnostic>)
        ensures
            !field_reading_decides(field@) ==> outcome_view(r) == classified(field@, None),
            exists|read: Option<Seq<char>>| outcome_view(r) == classified(field@, read),
    {
        let directive = parse_directive(field.name.as_str(), &field.attributes);
        let ghost read = choose|read: Option<Seq<char>>|
            directive@ == directive_given(field@.name, field@.attributes, read);
        let r = BuilderField::classify(field, directive);
        assert(outcome_view(r) == classified(field@, read));
        r
    }
}

} // verus!

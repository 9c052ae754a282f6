//! Two questions about a declaration's shape: which type a generic type is
//! applied to, and which named fields a declaration has.

use vstd::prelude::*;
use crate::diagnostic::{
    expected_named_fields, expected_struct, malformed_type, unexpected_argument, Diagnostic,
    DiagnosticModel,
};
use crate::types::{
    lemma_args_model, ArgModel, Data, DataModel, FieldSpec, FieldSpecModel, Fields, FieldsModel,
    GenericArg, TypeExpr, TypeModel,
};

verus! {

/// The type that `ty` is applied to, where it is applied to exactly one
/// argument and that argument is a type; otherwise the failure that names
/// the field `field` and what was found.
pub open spec fn inner_type(field: Seq<char>, ty: TypeModel) -> Result<TypeModel, DiagnosticModel> {
    if ty.args.len() == 1 {
        match ty.args[0] {
            ArgModel::Type(inner) => Ok(inner),
            ArgModel::Other(text) => Err(unexpected_argument(field, text)),
        }
    } else {
        Err(malformed_type(field, ty.source))
    }
}

/// The named fields of the declaration `record`, where it is a struct that
/// has them; otherwise the failure that says what was expected.
pub open spec fn struct_fields(record: Seq<char>, data: DataModel) -> Result<
    Seq<FieldSpecModel>,
    DiagnosticModel,
> {
    match data {
        DataModel::Struct(FieldsModel::Named(fields)) => Ok(fields),
        DataModel::Struct(_) => Err(expected_named_fields(record)),
        _ => Err(expected_struct(record)),
    }
}

/// Unwraps one layer of a generic type: the single type argument of `ty`.
///
/// Fails with `MalformedType` where `ty` has no argument or more than one
/// ("unexpected path arguments") and where its one argument is no type
/// ("unexpected generic argument"). `field` is the field that `ty` was
/// declared for; it is named in the failure.
pub fn extract_inner_ty<'a>(field: &str, ty: &'a TypeExpr) -> (r: Result<&'a TypeExpr, Diagnostic>)
    ensures
        match r {
            Ok(inner) => inner_type(field@, ty@) == Ok::<TypeModel, DiagnosticModel>(inner@),
            Err(d) => inner_type(field@, ty@) == Err::<TypeModel, DiagnosticModel>(d@),
        },
{
    proof {
        lemma_args_model(*ty);
    }
    if ty.args.len() == 1 {
        match &ty.args[0] {
            GenericArg::Type(inner) => Ok(inner),
            GenericArg::Other(text) => Err(Diagnostic::unexpected_argument(field, text.as_str())),
        }
    } else {
        Err(Diagnostic::malformed_type(field, ty.source.as_str()))
    }
}

/// The named fields of the declaration `record`, in declaration order.
///
/// Fails with `UnsupportedShape` where the declaration is a struct without
/// named fields ("expected named fields") or no struct at all ("expected
/// struct"). The failure names the record.
pub fn extract_struct_fields(record: &str, data: Data) -> (r: Result<Vec<FieldSpec>, Diagnostic>)
    ensures
        match r {
            Ok(fields) => struct_fields(record@, data@) == Ok::<
                Seq<FieldSpecModel>,
                DiagnosticModel,
            >(fields.deep_view()),
            Err(d) => struct_fields(record@, data@) == Err::<Seq<FieldSpecModel>, DiagnosticModel>(
                d@,
            ),
        },
{
    match data {
        Data::Struct(fields) => match fields {
            Fields::Named(named) => Ok(named),
            _ => Err(Diagnostic::expected_named_fields(record)),
        },
        _ => Err(Diagnostic::expected_struct(record)),
    }
}

} // verus!

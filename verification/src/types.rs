//! What the generator is told about a record: its fields, their declared
//! types and the attribute text attached to them.
//!
//! Each type here has a mathematical model, reached by `@`, in which text is a
//! `Seq<char>` and a list is a `Seq`. Contracts are stated over the models.

use vstd::prelude::*;
use crate::text::{joined, owned};

verus! {

/// The shape of a type: a name and the generic arguments it is applied to.
///
/// `name` is the outer name alone, without a path before it and without
/// arguments. `source` is the type as it was written; nothing in this crate
/// reads it, it is carried along for whoever prints the type again.
#[derive(Debug, PartialEq, Eq)]
pub struct TypeExpr {
    pub source: String,
    pub name: String,
    pub args: Vec<GenericArg>,
}

/// One generic argument of a type.
#[derive(Debug, PartialEq, Eq)]
pub enum GenericArg {
    /// A type.
    Type(TypeExpr),
    /// Anything else, a lifetime or a constant, as it was written.
    Other(String),
}

/// The model of a [`TypeExpr`].
pub ghost struct TypeModel {
    pub source: Seq<char>,
    pub name: Seq<char>,
    pub args: Seq<ArgModel>,
}

/// The model of a [`GenericArg`].
pub ghost enum ArgModel {
    Type(TypeModel),
    Other(Seq<char>),
}

/// The model of `t`, argument by argument.
pub open spec fn type_model(t: TypeExpr) -> TypeModel
    decreases t,
{
    TypeModel {
        source: t.source@,
        name: t.name@,
        args: Seq::new(
            t.args.len() as nat,
            |i: int|
                if 0 <= i < t.args.len() {
                    arg_model(t.args[i])
                } else {
                    arbitrary()
                },
        ),
    }
}

/// The model of `a`.
pub open spec fn arg_model(a: GenericArg) -> ArgModel
    decreases a,
{
    match a {
        GenericArg::Type(t) => ArgModel::Type(type_model(t)),
        GenericArg::Other(text) => ArgModel::Other(text@),
    }
}

impl View for TypeExpr {
    type V = TypeModel;

    open spec fn view(&self) -> TypeModel {
        type_model(*self)
    }
}

impl DeepView for TypeExpr {
    type V = TypeModel;

    open spec fn deep_view(&self) -> TypeModel {
        type_model(*self)
    }
}

impl View for GenericArg {
    type V = ArgModel;

    open spec fn view(&self) -> ArgModel {
        arg_model(*self)
    }
}

impl DeepView for GenericArg {
    type V = ArgModel;

    open spec fn deep_view(&self) -> ArgModel {
        arg_model(*self)
    }
}

/// How a generic argument is written.
pub open spec fn arg_source(a: ArgModel) -> Seq<char> {
    match a {
        ArgModel::Type(t) => t.source,
        ArgModel::Other(text) => text,
    }
}

/// The sources of `args`, separated by a comma and a space.
pub open spec fn listed(args: Seq<ArgModel>) -> Seq<char>
    decreases args.len(),
{
    if args.len() == 0 {
        Seq::empty()
    } else if args.len() == 1 {
        arg_source(args[0])
    } else {
        listed(args.drop_last()) + ", "@ + arg_source(args.last())
    }
}

/// How a type with this name and these arguments is written.
pub open spec fn rendered(name: Seq<char>, args: Seq<ArgModel>) -> Seq<char> {
    if args.len() == 0 {
        name
    } else {
        name + "<"@ + listed(args) + ">"@
    }
}

/// The models of a type's arguments agree with the deep view of the list.
pub proof fn lemma_args_model(t: TypeExpr)
    ensures
        t@.args == t.args.deep_view(),
        t@.args.len() == t.args.len(),
        forall|i: int| 0 <= i < t.args.len() ==> (#[trigger] t@.args[i]) == t.args[i]@,
{
    assert(t@.args =~= t.args.deep_view());
}

impl Clone for TypeExpr {
    fn clone(&self) -> (r: Self)
        ensures
            r@ == self@,
        decreases self,
    {
        let mut args: Vec<GenericArg> = Vec::new();
        let mut i: usize = 0;
        while i < self.args.len()
            invariant
                i <= self.args.len(),
                args.len() == i,
                forall|k: int| 0 <= k < i ==> args[k]@ == self.args[k]@,
            decreases self.args.len() - i,
        {
            let a = match &self.args[i] {
                GenericArg::Type(t) => GenericArg::Type(t.clone()),
                GenericArg::Other(text) => GenericArg::Other(text.clone()),
            };
            args.push(a);
            i += 1;
        }
        let r = TypeExpr { source: self.source.clone(), name: self.name.clone(), args };
        assert(r@.args =~= self@.args);
        r
    }
}

impl Clone for GenericArg {
    fn clone(&self) -> (r: Self)
        ensures
            r@ == self@,
    {
        match self {
            GenericArg::Type(t) => GenericArg::Type(t.clone()),
            GenericArg::Other(text) => GenericArg::Other(text.clone()),
        }
    }
}

impl GenericArg {
    /// The argument as it is written.
    pub fn source(&self) -> (s: &String)
        ensures
            s@ == arg_source(self@),
    {
        match self {
            GenericArg::Type(t) => &t.source,
            GenericArg::Other(text) => text,
        }
    }
}

impl TypeExpr {
    /// A type without arguments, written as its name.
    pub fn named(name: &str) -> (r: TypeExpr)
        ensures
            r@ == (TypeModel { source: name@, name: name@, args: Seq::empty() }),
    {
        let r = TypeExpr { source: owned(name), name: owned(name), args: Vec::new() };
        assert(r@.args =~= Seq::empty());
        r
    }

    /// The type `name` applied to `args`, written in the usual way:
    /// the name, then the arguments between angle brackets.
    pub fn generic(name: &str, args: Vec<GenericArg>) -> (r: TypeExpr)
        ensures
            r@ == (TypeModel {
                source: rendered(name@, args.deep_view()),
                name: name@,
                args: args.deep_view(),
            }),
    {
        let ghost models = args.deep_view();
        let mut source = owned(name);
        if args.len() > 0 {
            let mut list = args[0].source().clone();
            assert(models.take(1) =~= seq![models[0]]);
            let mut i: usize = 1;
            while i < args.len()
                invariant
                    1 <= i <= args.len(),
                    models == args.deep_view(),
                    list@ == listed(models.take(i as int)),
                decreases args.len() - i,
            {
                proof {
                    assert(models.take(i + 1).drop_last() =~= models.take(i as int));
                    assert(models.take(i + 1).last() == args[i as int]@);
                }
                list = joined(list.as_str(), ", ");
                list = joined(list.as_str(), args[i].source().as_str());
                i += 1;
            }
            assert(models.take(args.len() as int) =~= models);
            source = joined(source.as_str(), "<");
            source = joined(source.as_str(), list.as_str());
            source = joined(source.as_str(), ">");
        }
        let r = TypeExpr { source, name: owned(name), args };
        assert(r@.args =~= models);
        r
    }
}

/// One field of a record, as it was declared.
///
/// `attributes` holds the text of each attribute block on the field that is
/// addressed to the generator, in the order in which they were written: what
/// stands between the parentheses, not the attribute's own name.
#[derive(Debug, Clone, PartialEq, Eq)]
pub struct FieldSpec {
    pub name: String,
    pub declared_type: TypeExpr,
    pub attributes: Vec<String>,
}

/// The model of a [`FieldSpec`].
pub ghost struct FieldSpecModel {
    pub name: Seq<char>,
    pub declared_type: TypeModel,
    pub attributes: Seq<Seq<char>>,
}

impl View for FieldSpec {
    type V = FieldSpecModel;

    open spec fn view(&self) -> FieldSpecModel {
        FieldSpecModel {
            name: self.name@,
            declared_type: self.declared_type@,
            attributes: self.attributes.deep_view(),
        }
    }
}

impl DeepView for FieldSpec {
    type V = FieldSpecModel;

    open spec fn deep_view(&self) -> FieldSpecModel {
        self@
    }
}

/// The fields of a struct, by the way they were declared.
#[derive(Debug, Clone, PartialEq, Eq)]
pub enum Fields {
    /// Fields with names, in declaration order.
    Named(Vec<FieldSpec>),
    /// Fields of a tuple struct.
    Unnamed,
    /// No fields at all.
    Unit,
}

/// The model of [`Fields`].
pub ghost enum FieldsModel {
    Named(Seq<FieldSpecModel>),
    Unnamed,
    Unit,
}

impl View for Fields {
    type V = FieldsModel;

    open spec fn view(&self) -> FieldsModel {
        match self {
            Fields::Named(fields) => FieldsModel::Named(fields.deep_view()),
            Fields::Unnamed => FieldsModel::Unnamed,
            Fields::Unit => FieldsModel::Unit,
        }
    }
}

/// What kind of declaration the generator was applied to.
#[derive(Debug, Clone, PartialEq, Eq)]
pub enum Data {
    Struct(Fields),
    Enum,
    Union,
}

/// The model of [`Data`].
pub ghost enum DataModel {
    Struct(FieldsModel),
    Enum,
    Union,
}

impl View for Data {
    type V = DataModel;

    open spec fn view(&self) -> DataModel {
        match self {
            Data::Struct(fields) => DataModel::Struct(fields@),
            Data::Enum => DataModel::Enum,
            Data::Union => DataModel::Union,
        }
    }
}

/// A declaration handed to the generator: its visibility as written (empty
/// for a private item), its name and its body.
#[derive(Debug, Clone, PartialEq, Eq)]
pub struct RecordDecl {
    pub visibility: String,
    pub name: String,
    pub data: Data,
}

/// The model of a [`RecordDecl`].
pub ghost struct RecordDeclModel {
    pub visibility: Seq<char>,
    pub name: Seq<char>,
    pub data: DataModel,
}

impl View for RecordDecl {
    type V = RecordDeclModel;

    open spec fn view(&self) -> RecordDeclModel {
        RecordDeclModel { visibility: self.visibility@, name: self.name@, data: self.data@ }
    }
}

} // verus!

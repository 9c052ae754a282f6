//! The layout of a builder: what the generator hands to whoever prints code.
//!
//! For a record `R` with classified fields the layout describes a companion
//! type `RBuilder`: one storage slot per field with its initial value, one
//! setter per field, and the `build` operation. Everything follows the
//! declaration order of the fields.

use vstd::prelude::*;
use crate::classify::{
    classified, field_reading_decides, BuilderField, BuilderFieldModel, FieldType, FieldTypeModel,
};
use crate::diagnostic::{missing_message, Diagnostic, DiagnosticModel};
use crate::helper::{extract_struct_fields, struct_fields};
use crate::text::{joined, owned};
use crate::types::{FieldSpec, FieldSpecModel, RecordDecl, RecordDeclModel, TypeExpr, TypeModel};

verus! {

/// A generation request in normal form: the record's name and visibility and
/// its classified fields, in declaration order.
#[derive(Debug, PartialEq, Eq)]
pub struct BuilderSpec {
    pub target_name: String,
    pub target_visibility: String,
    pub fields: Vec<BuilderField>,
}

/// The model of a [`BuilderSpec`].
pub ghost struct BuilderSpecModel {
    pub target_name: Seq<char>,
    pub target_visibility: Seq<char>,
    pub fields: Seq<BuilderFieldModel>,
}

impl View for BuilderSpec {
    type V = BuilderSpecModel;

    open spec fn view(&self) -> BuilderSpecModel {
        BuilderSpecModel {
            target_name: self.target_name@,
            target_visibility: self.target_visibility@,
            fields: self.fields.deep_view(),
        }
    }
}

/// The type of a storage slot.
#[derive(Debug, PartialEq, Eq)]
pub enum SlotType {
    /// Absent, or one value of the type.
    Optional(TypeExpr),
    /// Any number of values of the type, in order.
    Sequence(TypeExpr),
}

/// The model of a [`SlotType`].
pub ghost enum SlotTypeModel {
    Optional(TypeModel),
    Sequence(TypeModel),
}

impl View for SlotType {
    type V = SlotTypeModel;

    open spec fn view(&self) -> SlotTypeModel {
        match self {
            SlotType::Optional(ty) => SlotTypeModel::Optional(ty@),
            SlotType::Sequence(ty) => SlotTypeModel::Sequence(ty@),
        }
    }
}

/// What a storage slot holds in a new builder.
#[derive(Debug, Clone, Copy, PartialEq, Eq, Structural)]
pub enum InitialValue {
    /// Nothing.
    Absent,
    /// The empty sequence.
    Empty,
}

/// A field of the builder's storage.
#[derive(Debug, PartialEq, Eq)]
pub struct StorageField {
    pub name: String,
    pub slot: SlotType,
}

/// The model of a [`StorageField`].
pub ghost struct StorageFieldModel {
    pub name: Seq<char>,
    pub slot: SlotTypeModel,
}

impl View for StorageField {
    type V = StorageFieldModel;

    open spec fn view(&self) -> StorageFieldModel {
        StorageFieldModel { name: self.name@, slot: self.slot@ }
    }
}

impl DeepView for StorageField {
    type V = StorageFieldModel;

    open spec fn deep_view(&self) -> StorageFieldModel {
        self@
    }
}

/// The initial value of one storage field.
#[derive(Debug, PartialEq, Eq)]
pub struct Initializer {
    pub name: String,
    pub value: InitialValue,
}

/// The model of an [`Initializer`].
pub ghost struct InitializerModel {
    pub name: Seq<char>,
    pub value: InitialValue,
}

impl View for Initializer {
    type V = InitializerModel;

    open spec fn view(&self) -> InitializerModel {
        InitializerModel { name: self.name@, value: self.value }
    }
}

impl DeepView for Initializer {
    type V = InitializerModel;

    open spec fn deep_view(&self) -> InitializerModel {
        self@
    }
}

/// What a setter does to its storage slot.
#[derive(Debug, Clone, Copy, PartialEq, Eq, Structural)]
pub enum Mutation {
    /// Puts the value in the slot, in place of what was there.
    Overwrite,
    /// Adds the value at the end of the sequence in the slot.
    Append,
}

/// A setter: its name, the type of the value it takes, the storage field it
/// changes and how. Every setter changes the builder in place and hands the
/// builder back, so that calls can be chained.
#[derive(Debug, PartialEq, Eq)]
pub struct MethodSpec {
    pub name: String,
    pub parameter_type: TypeExpr,
    pub field: String,
    pub mutation: Mutation,
}

/// The model of a [`MethodSpec`].
pub ghost struct MethodSpecModel {
    pub name: Seq<char>,
    pub parameter_type: TypeModel,
    pub field: Seq<char>,
    pub mutation: Mutation,
}

impl View for MethodSpec {
    type V = MethodSpecModel;

    open spec fn view(&self) -> MethodSpecModel {
        MethodSpecModel {
            name: self.name@,
            parameter_type: self.parameter_type@,
            field: self.field@,
            mutation: self.mutation,
        }
    }
}

impl DeepView for MethodSpec {
    type V = MethodSpecModel;

    open spec fn deep_view(&self) -> MethodSpecModel {
        self@
    }
}

/// A check that `build` makes before it assembles anything: the storage
/// field must hold a value, or `build` fails with this message.
#[derive(Debug, PartialEq, Eq)]
pub struct RequiredCheck {
    pub field: String,
    pub message: String,
}

/// The model of a [`RequiredCheck`].
pub ghost struct RequiredCheckModel {
    pub field: Seq<char>,
    pub message: Seq<char>,
}

impl View for RequiredCheck {
    type V = RequiredCheckModel;

    open spec fn view(&self) -> RequiredCheckModel {
        RequiredCheckModel { field: self.field@, message: self.message@ }
    }
}

impl DeepView for RequiredCheck {
    type V = RequiredCheckModel;

    open spec fn deep_view(&self) -> RequiredCheckModel {
        self@
    }
}

/// Where the value of a record field comes from when `build` assembles the
/// record. Each way leaves the storage slot as it is in a new builder.
#[derive(Debug, Clone, Copy, PartialEq, Eq, Structural)]
pub enum Extraction {
    /// The value that the required check found.
    Checked,
    /// Whatever the slot holds, a value or nothing.
    Taken,
    /// The whole sequence in the slot.
    Drained,
}

/// The assignment of one record field in `build`.
#[derive(Debug, PartialEq, Eq)]
pub struct Assignment {
    pub field: String,
    pub value: Extraction,
}

/// The model of an [`Assignment`].
pub ghost struct AssignmentModel {
    pub field: Seq<char>,
    pub value: Extraction,
}

impl View for Assignment {
    type V = AssignmentModel;

    open spec fn view(&self) -> AssignmentModel {
        AssignmentModel { field: self.field@, value: self.value }
    }
}

impl DeepView for Assignment {
    type V = AssignmentModel;

    open spec fn deep_view(&self) -> AssignmentModel {
        self@
    }
}

/// The `build` operation: the record it makes, the checks it runs first, in
/// order, and the assignments that assemble the record once every check has
/// passed.
#[derive(Debug, PartialEq, Eq)]
pub struct BuildMethod {
    pub target: String,
    pub checks: Vec<RequiredCheck>,
    pub assignments: Vec<Assignment>,
}

/// The model of a [`BuildMethod`].
pub ghost struct BuildMethodModel {
    pub target: Seq<char>,
    pub checks: Seq<RequiredCheckModel>,
    pub assignments: Seq<AssignmentModel>,
}

impl View for BuildMethod {
    type V = BuildMethodModel;

    open spec fn view(&self) -> BuildMethodModel {
        BuildMethodModel {
            target: self.target@,
            checks: self.checks.deep_view(),
            assignments: self.assignments.deep_view(),
        }
    }
}

/// The layout of a builder.
#[derive(Debug, PartialEq, Eq)]
pub struct GeneratedApi {
    /// The visibility of the builder and of all its operations: that of the
    /// record.
    pub visibility: String,
    pub target_name: String,
    pub builder_name: String,
    pub storage_fields: Vec<StorageField>,
    pub initializer_expressions: Vec<Initializer>,
    pub setter_methods: Vec<MethodSpec>,
    pub build_method: BuildMethod,
}

/// The model of a [`GeneratedApi`].
pub ghost struct GeneratedApiModel {
    pub visibility: Seq<char>,
    pub target_name: Seq<char>,
    pub builder_name: Seq<char>,
    pub storage_fields: Seq<StorageFieldModel>,
    pub initializer_expressions: Seq<InitializerModel>,
    pub setter_methods: Seq<MethodSpecModel>,
    pub build_method: BuildMethodModel,
}

impl View for GeneratedApi {
    type V = GeneratedApiModel;

    open spec fn view(&self) -> GeneratedApiModel {
        GeneratedApiModel {
            visibility: self.visibility@,
            target_name: self.target_name@,
            builder_name: self.builder_name@,
            storage_fields: self.storage_fields.deep_view(),
            initializer_expressions: self.initializer_expressions.deep_view(),
            setter_methods: self.setter_methods.deep_view(),
            build_method: self.build_method@,
        }
    }
}

/// The storage of a field: plain and optional fields are both kept as an
/// optional value that starts absent, a repeated field as a sequence that
/// starts empty.
pub open spec fn storage_of(field: BuilderFieldModel) -> (SlotTypeModel, InitialValue) {
    match field.ty {
        FieldTypeModel::Plain(ty) => (SlotTypeModel::Optional(ty), InitialValue::Absent),
        FieldTypeModel::Optional(ty) => (SlotTypeModel::Optional(ty), InitialValue::Absent),
        FieldTypeModel::Repeated(_, element) => (
            SlotTypeModel::Sequence(element),
            InitialValue::Empty,
        ),
    }
}

/// The storage field of a field. It has the field's name.
pub open spec fn storage_field_of(field: BuilderFieldModel) -> StorageFieldModel {
    StorageFieldModel { name: field.ident, slot: storage_of(field).0 }
}

/// The initializer of a field's storage.
pub open spec fn initializer_of(field: BuilderFieldModel) -> InitializerModel {
    InitializerModel { name: field.ident, value: storage_of(field).1 }
}

/// The setter of a field. That of a plain or an optional field has the
/// field's name, takes a bare value of the field's type (for an optional
/// field, the type inside the wrapper) and overwrites. That of a repeated
/// field has the accumulator's name, takes one element and appends.
pub open spec fn setter_of(field: BuilderFieldModel) -> MethodSpecModel {
    match field.ty {
        FieldTypeModel::Plain(ty) => MethodSpecModel {
            name: field.ident,
            parameter_type: ty,
            field: field.ident,
            mutation: Mutation::Overwrite,
        },
        FieldTypeModel::Optional(ty) => MethodSpecModel {
            name: field.ident,
            parameter_type: ty,
            field: field.ident,
            mutation: Mutation::Overwrite,
        },
        FieldTypeModel::Repeated(each, element) => MethodSpecModel {
            name: each,
            parameter_type: element,
            field: field.ident,
            mutation: Mutation::Append,
        },
    }
}

/// The check that `build` makes for a field: one for a plain field, none for
/// the others.
pub open spec fn check_of(field: BuilderFieldModel) -> Option<RequiredCheckModel> {
    match field.ty {
        FieldTypeModel::Plain(_) => Some(
            RequiredCheckModel { field: field.ident, message: missing_message(field.ident) },
        ),
        _ => None,
    }
}

/// The assignment of a field in `build`.
pub open spec fn assignment_of(field: BuilderFieldModel) -> AssignmentModel {
    AssignmentModel {
        field: field.ident,
        value: match field.ty {
            FieldTypeModel::Plain(_) => Extraction::Checked,
            FieldTypeModel::Optional(_) => Extraction::Taken,
            FieldTypeModel::Repeated(_, _) => Extraction::Drained,
        },
    }
}

/// The checks of `build`: those of the plain fields, in declaration order.
pub open spec fn checks_of(fields: Seq<BuilderFieldModel>) -> Seq<RequiredCheckModel> {
    fields.filter_map(|field: BuilderFieldModel| check_of(field))
}

/// The `build` operation of a record called `target` with these fields.
pub open spec fn build_method_of(
    target: Seq<char>,
    fields: Seq<BuilderFieldModel>,
) -> BuildMethodModel {
    BuildMethodModel {
        target,
        checks: checks_of(fields),
        assignments: fields.map_values(|field: BuilderFieldModel| assignment_of(field)),
    }
}

/// The name of the builder of the record called `target`.
pub open spec fn builder_name_of(target: Seq<char>) -> Seq<char> {
    target + "Builder"@
}

/// The layout of the builder for a request in normal form.
pub open spec fn generated(spec: BuilderSpecModel) -> GeneratedApiModel {
    GeneratedApiModel {
        visibility: spec.target_visibility,
        target_name: spec.target_name,
        builder_name: builder_name_of(spec.target_name),
        storage_fields: spec.fields.map_values(|field: BuilderFieldModel| storage_field_of(field)),
        initializer_expressions: spec.fields.map_values(
            |field: BuilderFieldModel| initializer_of(field),
        ),
        setter_methods: spec.fields.map_values(|field: BuilderFieldModel| setter_of(field)),
        build_method: build_method_of(spec.target_name, spec.fields),
    }
}

/// The field at `i` is the first whose classification fails, given what was
/// read from the attribute text of each field.
pub open spec fn is_first_failure(
    fields: Seq<FieldSpecModel>,
    reads: Seq<Option<Seq<char>>>,
    i: int,
) -> bool {
    &&& 0 <= i < fields.len()
    &&& classified(fields[i], reads[i]) is Err
    &&& forall|k: int| 0 <= k < i ==> classified(fields[k], reads[k]) is Ok
}

/// The classified fields of a record, each classified on its own, given what
/// was read from the attribute text of each; where a classification fails,
/// the failure of the first field that does.
pub open spec fn classified_all(
    fields: Seq<FieldSpecModel>,
    reads: Seq<Option<Seq<char>>>,
) -> Result<Seq<BuilderFieldModel>, DiagnosticModel> {
    if exists|i: int| is_first_failure(fields, reads, i) {
        let i = choose|i: int| is_first_failure(fields, reads, i);
        Err(classified(fields[i], reads[i])->Err_0)
    } else {
        Ok(Seq::new(fields.len(), |i: int| classified(fields[i], reads[i])->Ok_0))
    }
}

/// The fields that a declaration hands to classification: its named fields,
/// none where it has none.
pub open spec fn fields_of(decl: RecordDeclModel) -> Seq<FieldSpecModel> {
    match struct_fields(decl.name, decl.data) {
        Ok(fields) => fields,
        Err(_) => Seq::empty(),
    }
}

/// `reads` holds one reading for each field of the declaration, and nothing
/// for a field on which no reading decides.
pub open spec fn readings_for(decl: RecordDeclModel, reads: Seq<Option<Seq<char>>>) -> bool {
    readings_of(fields_of(decl), reads)
}

/// The outcome for no field of the declaration hangs on a reading.
pub open spec fn no_reading_decides(decl: RecordDeclModel) -> bool {
    forall|i: int|
        0 <= i < fields_of(decl).len() ==> !field_reading_decides(#[trigger] fields_of(decl)[i])
}

/// Nothing read, for each field of the declaration.
pub open spec fn nothing_read(decl: RecordDeclModel) -> Seq<Option<Seq<char>>> {
    Seq::new(fields_of(decl).len(), |i: int| None)
}

/// The normal form of a declaration, given what was read from the attribute
/// text of each field: a failure where it is no struct with named fields or
/// where a field's classification fails, the first failure in declaration
/// order.
pub open spec fn normalized(decl: RecordDeclModel, reads: Seq<Option<Seq<char>>>) -> Result<
    BuilderSpecModel,
    DiagnosticModel,
> {
    match struct_fields(decl.name, decl.data) {
        Ok(fields) => match classified_all(fields, reads) {
            Ok(classified) => Ok(
                BuilderSpecModel {
                    target_name: decl.name,
                    target_visibility: decl.visibility,
                    fields: classified,
                },
            ),
            Err(d) => Err(d),
        },
        Err(d) => Err(d),
    }
}

/// The layout of the builder for a declaration, given what was read from
/// the attribute text of each field, or the first failure.
pub open spec fn expanded(decl: RecordDeclModel, reads: Seq<Option<Seq<char>>>) -> Result<
    GeneratedApiModel,
    DiagnosticModel,
> {
    match normalized(decl, reads) {
        Ok(spec) => Ok(generated(spec)),
        Err(d) => Err(d),
    }
}

/// The storage slot of a field and its initial value.
pub fn storage_for(field: &BuilderField) -> (r: (SlotType, InitialValue))
    ensures
        (r.0@, r.1) == storage_of(field@),
{
    match &field.ty {
        FieldType::Plain(ty) => (SlotType::Optional(ty.clone()), InitialValue::Absent),
        FieldType::Optional(ty) => (SlotType::Optional(ty.clone()), InitialValue::Absent),
        FieldType::Repeated(_, element) => (SlotType::Sequence(element.clone()), InitialValue::Empty),
    }
}

/// The setters of a field: one for each kind of field.
pub fn setters_for(field: &BuilderField) -> (r: Vec<MethodSpec>)
    ensures
        r.deep_view() == seq![setter_of(field@)],
{
    let setter = match &field.ty {
        FieldType::Plain(ty) => MethodSpec {
            name: field.ident.clone(),
            parameter_type: ty.clone(),
            field: field.ident.clone(),
            mutation: Mutation::Overwrite,
        },
        FieldType::Optional(ty) => MethodSpec {
            name: field.ident.clone(),
            parameter_type: ty.clone(),
            field: field.ident.clone(),
            mutation: Mutation::Overwrite,
        },
        FieldType::Repeated(each, element) => MethodSpec {
            name: each.clone(),
            parameter_type: element.clone(),
            field: field.ident.clone(),
            mutation: Mutation::Append,
        },
    };
    let mut r: Vec<MethodSpec> = Vec::new();
    r.push(setter);
    assert(r.deep_view() =~= seq![setter_of(field@)]);
    r
}

/// The storage fields of the builder, one per field, in declaration order.
pub fn make_storage(fields: &Vec<BuilderField>) -> (r: Vec<StorageField>)
    ensures
        r.deep_view() == fields.deep_view().map_values(
            |field: BuilderFieldModel| storage_field_of(field),
        ),
{
    let mut r: Vec<StorageField> = Vec::new();
    let mut i: usize = 0;
    while i < fields.len()
        invariant
            i <= fields.len(),
            r.len() == i,
            forall|k: int| 0 <= k < i ==> r[k]@ == storage_field_of(fields[k]@),
        decreases fields.len() - i,
    {
        let (slot, _) = storage_for(&fields[i]);
        r.push(StorageField { name: fields[i].ident.clone(), slot });
        i += 1;
    }
    assert(r.deep_view() =~= fields.deep_view().map_values(
        |field: BuilderFieldModel| storage_field_of(field),
    ));
    r
}

/// The initial values of the builder's storage, one per field, in
/// declaration order.
pub fn make_initializer(fields: &Vec<BuilderField>) -> (r: Vec<Initializer>)
    ensures
        r.deep_view() == fields.deep_view().map_values(
            |field: BuilderFieldModel| initializer_of(field),
        ),
{
    let mut r: Vec<Initializer> = Vec::new();
    let mut i: usize = 0;
    while i < fields.len()
        invariant
            i <= fields.len(),
            r.len() == i,
            forall|k: int| 0 <= k < i ==> r[k]@ == initializer_of(fields[k]@),
        decreases fields.len() - i,
    {
        let (_, value) = storage_for(&fields[i]);
        r.push(Initializer { name: fields[i].ident.clone(), value });
        i += 1;
    }
    assert(r.deep_view() =~= fields.deep_view().map_values(
        |field: BuilderFieldModel| initializer_of(field),
    ));
    r
}

/// The setters of the builder, one per field, in declaration order.
pub fn make_setters(fields: &Vec<BuilderField>) -> (r: Vec<MethodSpec>)
    ensures
        r.deep_view() == fields.deep_view().map_values(
            |field: BuilderFieldModel| setter_of(field),
        ),
{
    let mut r: Vec<MethodSpec> = Vec::new();
    let mut i: usize = 0;
    while i < fields.len()
        invariant
            i <= fields.len(),
            r.len() == i,
            forall|k: int| 0 <= k < i ==> r[k]@ == setter_of(fields[k]@),
        decreases fields.len() - i,
    {
        let mut setters = setters_for(&fields[i]);
        assert(setters.deep_view().len() == 1);
        assert(setters.deep_view()[0] == setters[0]@);
        let setter = setters.pop().unwrap();
        r.push(setter);
        i += 1;
    }
    assert(r.deep_view() =~= fields.deep_view().map_values(
        |field: BuilderFieldModel| setter_of(field),
    ));
    r
}

/// The `build` operation of the record called `target`: a check for every
/// plain field, then an assignment for every field, both in declaration
/// order.
pub fn make_build_fn(target: &str, fields: &Vec<BuilderField>) -> (r: BuildMethod)
    ensures
        r@ == build_method_of(target@, fields.deep_view()),
{
    let ghost models = fields.deep_view();
    let ghost check = |field: BuilderFieldModel| check_of(field);
    let mut checks: Vec<RequiredCheck> = Vec::new();
    let mut assignments: Vec<Assignment> = Vec::new();
    let mut i: usize = 0;
    assert(models.take(0).filter_map(check) =~= Seq::empty());
    while i < fields.len()
        invariant
            i <= fields.len(),
            models == fields.deep_view(),
            check == |field: BuilderFieldModel| check_of(field),
            checks.deep_view() == models.take(i as int).filter_map(check),
            assignments.len() == i,
            forall|k: int| 0 <= k < i ==> assignments[k]@ == assignment_of(fields[k]@),
        decreases fields.len() - i,
    {
        let field = &fields[i];
        let ghost before = checks.deep_view();
        proof {
            models.lemma_filter_map_take_succ(check, i as int);
        }
        let value = match &field.ty {
            FieldType::Plain(_) => {
                let message = joined("value is not set: ", field.ident.as_str());
                checks.push(RequiredCheck { field: field.ident.clone(), message });
                assert(checks.deep_view() =~= before + seq![check_of(field@)->Some_0]);
                Extraction::Checked
            },
            FieldType::Optional(_) => Extraction::Taken,
            FieldType::Repeated(_, _) => Extraction::Drained,
        };
        assignments.push(Assignment { field: field.ident.clone(), value });
        i += 1;
    }
    assert(models.take(fields.len() as int) =~= models);
    assert(assignments.deep_view() =~= models.map_values(
        |field: BuilderFieldModel| assignment_of(field),
    ));
    BuildMethod { target: owned(target), checks, assignments }
}

/// The layout of the builder for a request in normal form.
pub fn generate(spec: &BuilderSpec) -> (api: GeneratedApi)
    ensures
        api@ == generated(spec@),
{
    GeneratedApi {
        visibility: spec.target_visibility.clone(),
        target_name: spec.target_name.clone(),
        builder_name: joined(spec.target_name.as_str(), "Builder"),
        storage_fields: make_storage(&spec.fields),
        initializer_expressions: make_initializer(&spec.fields),
        setter_methods: make_setters(&spec.fields),
        build_method: make_build_fn(spec.target_name.as_str(), &spec.fields),
    }
}

/// The model of a normalisation's outcome.
pub open spec fn spec_outcome(r: Result<BuilderSpec, Diagnostic>) -> Result<
    BuilderSpecModel,
    DiagnosticModel,
> {
    match r {
        Ok(spec) => Ok(spec@),
        Err(d) => Err(d@),
    }
}

/// The model of an expansion's outcome.
pub open spec fn api_outcome(r: Result<GeneratedApi, Diagnostic>) -> Result<
    GeneratedApiModel,
    DiagnosticModel,
> {
    match r {
        Ok(api) => Ok(api@),
        Err(d) => Err(d@),
    }
}

/// The model of the outcome of classifying all fields.
pub open spec fn fields_outcome(r: Result<Vec<BuilderField>, Diagnostic>) -> Result<
    Seq<BuilderFieldModel>,
    DiagnosticModel,
> {
    match r {
        Ok(fields) => Ok(fields.deep_view()),
        Err(d) => Err(d@),
    }
}

/// `reads` holds one reading for each of `fields`, and nothing for a field
/// on which no reading decides.
pub open spec fn readings_of(fields: Seq<FieldSpecModel>, reads: Seq<Option<Seq<char>>>) -> bool {
    &&& reads.len() == fields.len()
    &&& forall|i: int|
        0 <= i < reads.len() && !field_reading_decides(fields[i]) ==> (#[trigger] reads[i]) is None
}

/// Classifies the fields of a record in declaration order and stops at the
/// first failure.
fn classify_all(fields: &Vec<FieldSpec>) -> (r: Result<Vec<BuilderField>, Diagnostic>)
    ensures
        exists|reads: Seq<Option<Seq<char>>>|
            readings_of(fields.deep_view(), reads) && fields_outcome(r) == classified_all(
                fields.deep_view(),
                reads,
            ),
{
    let ghost models = fields.deep_view();
    let ghost mut reads: Seq<Option<Seq<char>>> = Seq::empty();
    let mut out: Vec<BuilderField> = Vec::new();
    let n: usize = fields.len();
    let mut i: usize = 0;
    while i < n
        invariant
            i <= n == fields.len(),
            models == fields.deep_view(),
            out.len() == i,
            reads.len() == i,
            forall|k: int|
                0 <= k < i && !field_reading_decides(models[k]) ==> (#[trigger] reads[k]) is None,
            forall|k: int|
                0 <= k < i ==> (#[trigger] classified(models[k], reads[k])) == Ok::<
                    BuilderFieldModel,
                    DiagnosticModel,
                >(out[k]@),
        decreases n - i,
    {
        assert(models[i as int] == fields[i as int]@);
        let result = BuilderField::try_from(&fields[i]);
        let ghost read = if field_reading_decides(models[i as int]) {
            choose|read: Option<Seq<char>>|
                crate::classify::outcome_view(result) == classified(models[i as int], read)
        } else {
            None
        };
        let ghost before = reads;
        proof {
            reads = reads.push(read);
            assert forall|k: int| 0 <= k < i implies reads[k] == before[k] by {}
        }
        match result {
            Ok(field) => {
                out.push(field);
            },
            Err(d) => {
                proof {
                    let rest = Seq::new((n - i - 1) as nat, |k: int| None::<Seq<char>>);
                    let all = reads + rest;
                    assert forall|k: int| 0 <= k <= i implies all[k] == reads[k] by {}
                    assert(readings_of(models, all));
                    assert(is_first_failure(models, all, i as int));
                    assert forall|other: int| is_first_failure(models, all, other) implies other
                        == i by {}
                    assert(fields_outcome(Err(d)) == classified_all(models, all));
                }
                return Err(d);
            },
        }
        i += 1;
    }
    proof {
        assert forall|other: int| !is_first_failure(models, reads, other) by {}
        assert(out.deep_view() =~= Seq::new(
            models.len(),
            |k: int| classified(models[k], reads[k])->Ok_0,
        ));
        assert(readings_of(models, reads));
        assert(fields_outcome(Ok(out)) == classified_all(models, reads));
    }
    Ok(out)
}

/// Brings a declaration into normal form: checks its shape, then classifies
/// its fields in declaration order. The first failure ends the request.
///
/// The outcome is the normal form for what `syn` read from the attribute
/// text of each field. Where no reading decides (no field has a block that
/// assigns to `each`) it is the normal form for nothing read, and so a
/// function of the declaration.
pub fn normalize(input: RecordDecl) -> (r: Result<BuilderSpec, Diagnostic>)
    ensures
        no_reading_decides(input@) ==> spec_outcome(r) == normalized(input@, nothing_read(input@)),
        exists|reads: Seq<Option<Seq<char>>>|
            readings_for(input@, reads) && spec_outcome(r) == normalized(input@, reads),
{
    let ghost decl = input@;
    let fields = match extract_struct_fields(input.name.as_str(), input.data) {
        Ok(fields) => fields,
        Err(d) => {
            proof {
                let reads = Seq::<Option<Seq<char>>>::empty();
                assert(readings_for(decl, reads));
                assert(spec_outcome(Err(d)) == normalized(decl, reads));
                assert(nothing_read(decl) =~= reads);
            }
            return Err(d);
        },
    };
    let classified = classify_all(&fields);
    let ghost reads = choose|reads: Seq<Option<Seq<char>>>|
        readings_of(fields.deep_view(), reads) && fields_outcome(classified) == classified_all(
            fields.deep_view(),
            reads,
        );
    let r = match classified {
        Ok(classified) => Ok(
            BuilderSpec {
                target_name: input.name,
                target_visibility: input.visibility,
                fields: classified,
            },
        ),
        Err(d) => Err(d),
    };
    proof {
        assert(fields_of(decl) == fields.deep_view());
        assert(readings_for(decl, reads));
        assert(spec_outcome(r) == normalized(decl, reads));
        if no_reading_decides(decl) {
            assert(reads =~= nothing_read(decl));
        }
    }
    r
}

/// Lays out the builder for a declaration.
///
/// Fails with `UnsupportedShape` unless the declaration is a struct with
/// named fields, and with the first field's failure where a field cannot be
/// classified. On a failure nothing is laid out.
///
/// The outcome is the layout for what `syn` read from the attribute text of
/// each field. Where no reading decides it is the layout for nothing read,
/// and so a function of the declaration.
pub fn expand(input: RecordDecl) -> (r: Result<GeneratedApi, Diagnostic>)
    ensures
        no_reading_decides(input@) ==> api_outcome(r) == expanded(input@, nothing_read(input@)),
        exists|reads: Seq<Option<Seq<char>>>|
            readings_for(input@, reads) && api_outcome(r) == expanded(input@, reads),
{
    let ghost decl = input@;
    let normal = normalize(input);
    let ghost reads = choose|reads: Seq<Option<Seq<char>>>|
        readings_for(decl, reads) && spec_outcome(normal) == normalized(decl, reads);
    let r = match normal {
        Ok(spec) => Ok(generate(&spec)),
        Err(d) => Err(d),
    };
    proof {
        assert(api_outcome(r) == expanded(decl, reads));
        if no_reading_decides(decl) {
            assert(reads =~= nothing_read(decl));
        }
    }
    r
}

} // verus!

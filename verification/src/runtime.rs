//! What a generated builder does, run on values.
//!
//! A [`Builder`] holds one storage slot per field of a [`BuilderSpec`]. A
//! setter is called by its name and changes one slot; `build` checks the
//! required fields, assembles a [`Record`] and leaves every slot as it is in
//! a new builder. The values are of any type `T`: the builder moves them
//! and never looks inside.
//!
//! A builder is one value with one owner. Its operations take it by `&mut`,
//! so two of them never run at once.

use vstd::prelude::*;
use crate::classify::{BuilderField, BuilderFieldModel, FieldType, FieldTypeModel};
use crate::diagnostic::{missing_field, Diagnostic, DiagnosticModel};
use crate::layout::{setter_of, BuilderSpec};
use crate::text::same_text;

verus! {

/// A storage slot: an optional value, or a sequence of values.
#[derive(Debug, PartialEq, Eq)]
pub enum Slot<T> {
    Single(Option<T>),
    Many(Vec<T>),
}

/// The model of a [`Slot`].
pub ghost enum SlotModel<T> {
    Single(Option<T>),
    Many(Seq<T>),
}

impl<T> View for Slot<T> {
    type V = SlotModel<T>;

    open spec fn view(&self) -> SlotModel<T> {
        match self {
            Slot::Single(value) => SlotModel::Single(*value),
            Slot::Many(values) => SlotModel::Many(values@),
        }
    }
}

impl<T> DeepView for Slot<T> {
    type V = SlotModel<T>;

    open spec fn deep_view(&self) -> SlotModel<T> {
        self@
    }
}

/// The value of one field of a built record.
#[derive(Debug, PartialEq, Eq)]
pub enum FieldValue<T> {
    /// The value of a plain field.
    Required(T),
    /// The value of an optional field, or none.
    Optional(Option<T>),
    /// The elements of a repeated field, in the order in which they were
    /// given.
    Repeated(Vec<T>),
}

/// The model of a [`FieldValue`].
pub ghost enum FieldValueModel<T> {
    Required(T),
    Optional(Option<T>),
    Repeated(Seq<T>),
}

impl<T> View for FieldValue<T> {
    type V = FieldValueModel<T>;

    open spec fn view(&self) -> FieldValueModel<T> {
        match self {
            FieldValue::Required(value) => FieldValueModel::Required(*value),
            FieldValue::Optional(value) => FieldValueModel::Optional(*value),
            FieldValue::Repeated(values) => FieldValueModel::Repeated(values@),
        }
    }
}

/// One field of a built record.
#[derive(Debug, PartialEq, Eq)]
pub struct RecordField<T> {
    pub name: String,
    pub value: FieldValue<T>,
}

/// The model of a [`RecordField`].
pub ghost struct RecordFieldModel<T> {
    pub name: Seq<char>,
    pub value: FieldValueModel<T>,
}

impl<T> View for RecordField<T> {
    type V = RecordFieldModel<T>;

    open spec fn view(&self) -> RecordFieldModel<T> {
        RecordFieldModel { name: self.name@, value: self.value@ }
    }
}

impl<T> DeepView for RecordField<T> {
    type V = RecordFieldModel<T>;

    open spec fn deep_view(&self) -> RecordFieldModel<T> {
        self@
    }
}

/// A built record: its name and its fields, in declaration order.
#[derive(Debug, PartialEq, Eq)]
pub struct Record<T> {
    pub name: String,
    pub fields: Vec<RecordField<T>>,
}

/// The model of a [`Record`].
pub ghost struct RecordModel<T> {
    pub name: Seq<char>,
    pub fields: Seq<RecordFieldModel<T>>,
}

impl<T> View for Record<T> {
    type V = RecordModel<T>;

    open spec fn view(&self) -> RecordModel<T> {
        RecordModel { name: self.name@, fields: self.fields.deep_view() }
    }
}

/// The slot of a field in a new builder: nothing for a plain or an optional
/// field, the empty sequence for a repeated one.
pub open spec fn fresh_slot<T>(ty: FieldTypeModel) -> SlotModel<T> {
    match ty {
        FieldTypeModel::Repeated(_, _) => SlotModel::Many(Seq::empty()),
        _ => SlotModel::Single(None),
    }
}

/// The slots of a new builder.
pub open spec fn fresh<T>(fields: Seq<BuilderFieldModel>) -> Seq<SlotModel<T>> {
    Seq::new(fields.len(), |i: int| fresh_slot(fields[i].ty))
}

/// A slot has the form that its field's kind asks for.
pub open spec fn fits<T>(ty: FieldTypeModel, slot: SlotModel<T>) -> bool {
    (ty is Repeated) == (slot is Many)
}

/// There is one slot per field, each of the form that its field asks for.
pub open spec fn well_formed<T>(fields: Seq<BuilderFieldModel>, slots: Seq<SlotModel<T>>) -> bool {
    &&& slots.len() == fields.len()
    &&& forall|i: int| 0 <= i < fields.len() ==> fits(fields[i].ty, #[trigger] slots[i])
}

/// The field at `i` is the first whose setter is called `name`.
pub open spec fn is_setter_at(fields: Seq<BuilderFieldModel>, name: Seq<char>, i: int) -> bool {
    &&& 0 <= i < fields.len()
    &&& setter_of(fields[i]).name == name
    &&& forall|k: int| 0 <= k < i ==> setter_of(fields[k]).name != name
}

/// The field that a call of the setter `name` changes: the first whose
/// setter has that name.
pub open spec fn setter_index(fields: Seq<BuilderFieldModel>, name: Seq<char>) -> Option<int> {
    if exists|i: int| is_setter_at(fields, name, i) {
        Some(choose|i: int| is_setter_at(fields, name, i))
    } else {
        None
    }
}

/// A slot after its setter was called with `value`: a single slot holds the
/// value, in place of what it held; a sequence has the value at its end.
pub open spec fn stored<T>(slot: SlotModel<T>, value: T) -> SlotModel<T> {
    match slot {
        SlotModel::Single(_) => SlotModel::Single(Some(value)),
        SlotModel::Many(values) => SlotModel::Many(values.push(value)),
    }
}

/// The slots after the setter `name` was called with `value`. Where no
/// setter has that name, nothing changes.
pub open spec fn after_set<T>(
    fields: Seq<BuilderFieldModel>,
    slots: Seq<SlotModel<T>>,
    name: Seq<char>,
    value: T,
) -> Seq<SlotModel<T>> {
    match setter_index(fields, name) {
        Some(i) => slots.update(i, stored(slots[i], value)),
        None => slots,
    }
}

/// The field at `i` is plain and its slot holds nothing.
pub open spec fn is_missing<T>(
    fields: Seq<BuilderFieldModel>,
    slots: Seq<SlotModel<T>>,
    i: int,
) -> bool {
    &&& 0 <= i < fields.len()
    &&& fields[i].ty is Plain
    &&& slots[i] == SlotModel::<T>::Single(None)
}

/// The field at `i` is the first, in declaration order, that is plain and
/// not set.
pub open spec fn is_first_missing<T>(
    fields: Seq<BuilderFieldModel>,
    slots: Seq<SlotModel<T>>,
    i: int,
) -> bool {
    &&& is_missing(fields, slots, i)
    &&& forall|k: int| 0 <= k < i ==> !is_missing(fields, slots, k)
}

/// The first plain field that is not set, if there is one.
pub open spec fn first_missing<T>(
    fields: Seq<BuilderFieldModel>,
    slots: Seq<SlotModel<T>>,
) -> Option<int> {
    if exists|i: int| is_first_missing(fields, slots, i) {
        Some(choose|i: int| is_first_missing(fields, slots, i))
    } else {
        None
    }
}

/// The value that a field of the given kind gets from its slot.
pub open spec fn extracted<T>(ty: FieldTypeModel, slot: SlotModel<T>) -> FieldValueModel<T> {
    match ty {
        FieldTypeModel::Plain(_) => FieldValueModel::Required(slot->Single_0->Some_0),
        FieldTypeModel::Optional(_) => FieldValueModel::Optional(slot->Single_0),
        FieldTypeModel::Repeated(_, _) => FieldValueModel::Repeated(slot->Many_0),
    }
}

/// The record assembled from the slots: every field, in declaration order,
/// with the value from its slot.
pub open spec fn assembled<T>(
    target: Seq<char>,
    fields: Seq<BuilderFieldModel>,
    slots: Seq<SlotModel<T>>,
) -> RecordModel<T> {
    RecordModel {
        name: target,
        fields: Seq::new(
            fields.len(),
            |i: int|
                RecordFieldModel {
                    name: fields[i].ident,
                    value: extracted(fields[i].ty, slots[i]),
                },
        ),
    }
}

/// The model of a [`Builder`]: the record's name and visibility, the fields
/// and the slots.
pub ghost struct BuilderModel<T> {
    pub target: Seq<char>,
    pub visibility: Seq<char>,
    pub fields: Seq<BuilderFieldModel>,
    pub slots: Seq<SlotModel<T>>,
}

/// What `build` returns: the failure that names the first plain field that
/// is not set, or, where every plain field is set, the assembled record.
pub open spec fn built<T>(
    target: Seq<char>,
    fields: Seq<BuilderFieldModel>,
    slots: Seq<SlotModel<T>>,
) -> Result<RecordModel<T>, DiagnosticModel> {
    match first_missing(fields, slots) {
        Some(i) => Err(missing_field(fields[i].ident)),
        None => Ok(assembled(target, fields, slots)),
    }
}

/// The field at `i` is reached by the name of its setter: no field declared
/// before it has a setter of the same name.
pub open spec fn reached(fields: Seq<BuilderFieldModel>, i: int) -> bool {
    is_setter_at(fields, setter_of(fields[i]).name, i)
}

/// Every field is reached by the name of its setter: no two setters share
/// a name.
pub open spec fn all_reached(fields: Seq<BuilderFieldModel>) -> bool {
    forall|i: int| 0 <= i < fields.len() ==> reached(fields, i)
}

/// The slots after `build`: those of a new builder where it succeeded,
/// unchanged where it failed.
pub open spec fn after_build<T>(
    fields: Seq<BuilderFieldModel>,
    slots: Seq<SlotModel<T>>,
) -> Seq<SlotModel<T>> {
    if first_missing(fields, slots) is None {
        fresh(fields)
    } else {
        slots
    }
}

/// The model of what `build` returns.
pub open spec fn record_outcome<T>(r: Result<Record<T>, Diagnostic>) -> Result<
    RecordModel<T>,
    DiagnosticModel,
> {
    match r {
        Ok(record) => Ok(record@),
        Err(d) => Err(d@),
    }
}

/// A builder for the record that a [`BuilderSpec`] describes.
#[derive(Debug)]
pub struct Builder<T> {
    spec: BuilderSpec,
    slots: Vec<Slot<T>>,
}

impl<T> View for Builder<T> {
    type V = BuilderModel<T>;

    closed spec fn view(&self) -> BuilderModel<T> {
        BuilderModel {
            target: self.spec@.target_name,
            visibility: self.spec@.target_visibility,
            fields: self.spec@.fields,
            slots: self.slots.deep_view(),
        }
    }
}

/// The name of a field's setter.
fn setter_name(field: &BuilderField) -> (name: &String)
    ensures
        name@ == setter_of(field@).name,
{
    match &field.ty {
        FieldType::Repeated(each, _) => each,
        _ => &field.ident,
    }
}

/// Whether no two of the setters of `fields` share a name, so that every
/// field is reached by the name of its setter.
pub fn setters_distinct(fields: &Vec<BuilderField>) -> (r: bool)
    ensures
        r == all_reached(fields.deep_view()),
{
    let ghost models = fields.deep_view();
    let mut i: usize = 0;
    while i < fields.len()
        invariant
            i <= fields.len(),
            models == fields.deep_view(),
            forall|k: int| 0 <= k < i ==> reached(models, k),
        decreases fields.len() - i,
    {
        assert(models[i as int] == fields[i as int]@);
        let mut j: usize = 0;
        while j < i
            invariant
                j <= i < fields.len(),
                models == fields.deep_view(),
                models[i as int] == fields[i as int]@,
                forall|k: int| 0 <= k < j ==> setter_of(models[k]).name != setter_of(
                    models[i as int],
                ).name,
            decreases i - j,
        {
            assert(models[j as int] == fields[j as int]@);
            if same_text(setter_name(&fields[j]).as_str(), setter_name(&fields[i]).as_str()) {
                assert(!reached(models, i as int));
                return false;
            }
            j += 1;
        }
        assert(reached(models, i as int));
        i += 1;
    }
    true
}

impl<T> Builder<T> {
    /// The builder has one slot per field, each of the form that its field
    /// asks for. Every operation keeps it so.
    pub open spec fn wf(&self) -> bool {
        well_formed(self@.fields, self@.slots)
    }

    /// A builder in which nothing is set.
    pub fn new(spec: BuilderSpec) -> (b: Self)
        ensures
            b@ == (BuilderModel {
                target: spec@.target_name,
                visibility: spec@.target_visibility,
                fields: spec@.fields,
                slots: fresh::<T>(spec@.fields),
            }),
            b.wf(),
    {
        let mut slots: Vec<Slot<T>> = Vec::new();
        let mut i: usize = 0;
        while i < spec.fields.len()
            invariant
                i <= spec.fields.len(),
                slots.len() == i,
                forall|k: int| 0 <= k < i ==> slots[k]@ == fresh_slot::<T>(spec.fields[k]@.ty),
            decreases spec.fields.len() - i,
        {
            let slot = match &spec.fields[i].ty {
                FieldType::Repeated(_, _) => Slot::Many(Vec::new()),
                _ => Slot::Single(None),
            };
            slots.push(slot);
            i += 1;
        }
        assert(slots.deep_view() =~= fresh::<T>(spec@.fields));
        Builder { spec, slots }
    }

    /// The index of the first field whose setter is called `name`.
    fn find_setter(&self, name: &str) -> (r: Option<usize>)
        requires
            self.wf(),
        ensures
            match r {
                Some(i) => setter_index(self@.fields, name@) == Some(i as int) && i
                    < self.slots.len(),
                None => setter_index(self@.fields, name@) is None,
            },
    {
        let ghost fields = self@.fields;
        assert(self.slots.deep_view().len() == self.slots.len());
        let mut i: usize = 0;
        while i < self.spec.fields.len()
            invariant
                i <= self.spec.fields.len(),
                fields == self.spec.fields.deep_view(),
                fields.len() == self.slots.len(),
                forall|k: int| 0 <= k < i ==> setter_of(fields[k]).name != name@,
            decreases self.spec.fields.len() - i,
        {
            assert(fields[i as int] == self.spec.fields[i as int]@);
            if same_text(setter_name(&self.spec.fields[i]).as_str(), name) {
                assert(is_setter_at(fields, name@, i as int));
                assert forall|other: int| is_setter_at(fields, name@, other) implies other
                    == i by {}
                return Some(i);
            }
            i += 1;
        }
        assert forall|other: int| !is_setter_at(fields, name@, other) by {}
        None
    }

    /// Whether the builder has a setter called `name`.
    pub fn has_setter(&self, name: &str) -> (r: bool)
        requires
            self.wf(),
        ensures
            r == (setter_index(self@.fields, name@) is Some),
    {
        self.find_setter(name).is_some()
    }

    /// Calls the setter `name` with `value` and hands the builder back, so
    /// that calls can be chained.
    ///
    /// The setter of a plain or an optional field puts the value in the
    /// field's slot, in place of what was there. The setter of a repeated
    /// field adds the value at the end of what the slot holds. No other slot
    /// changes. Where the builder has no setter of that name, nothing changes
    /// and `None` is returned.
    pub fn set(&mut self, name: &str, value: T) -> (r: Option<&mut Self>)
        requires
            old(self).wf(),
        ensures
            match r {
                Some(b) => {
                    &&& setter_index(old(self)@.fields, name@) is Some
                    &&& b@ == (BuilderModel {
                        slots: after_set(old(self)@.fields, old(self)@.slots, name@, value),
                        ..old(self)@
                    })
                    &&& b.wf()
                    &&& *final(self) == *final(b)
                },
                None => {
                    &&& setter_index(old(self)@.fields, name@) is None
                    &&& final(self)@ == old(self)@
                },
            },
    {
        match self.find_setter(name) {
            Some(i) => {
                let ghost before = self.slots.deep_view();
                match &mut self.slots[i] {
                    Slot::Single(slot) => {
                        *slot = Some(value);
                    },
                    Slot::Many(values) => {
                        values.push(value);
                    },
                }
                assert(self.slots.deep_view() =~= before.update(
                    i as int,
                    stored(before[i as int], value),
                ));
                Some(self)
            },
            None => None,
        }
    }

    /// The index of the first plain field that is not set.
    fn find_missing(&self) -> (r: Option<usize>)
        requires
            self.wf(),
        ensures
            match r {
                Some(i) => first_missing(self@.fields, self@.slots) == Some(i as int) && i
                    < self.spec.fields.len(),
                None => {
                    &&& first_missing(self@.fields, self@.slots) is None
                    &&& forall|k: int| !is_missing(self@.fields, self@.slots, k)
                },
            },
    {
        let ghost fields = self@.fields;
        let ghost slots = self@.slots;
        let mut i: usize = 0;
        while i < self.spec.fields.len()
            invariant
                i <= self.spec.fields.len(),
                fields == self.spec.fields.deep_view(),
                slots == self.slots.deep_view(),
                fields.len() == self.slots.len(),
                forall|k: int| 0 <= k < i ==> !is_missing(fields, slots, k),
            decreases self.spec.fields.len() - i,
        {
            assert(fields[i as int] == self.spec.fields[i as int]@);
            assert(slots[i as int] == self.slots[i as int]@);
            let unset = match (&self.spec.fields[i].ty, &self.slots[i]) {
                (FieldType::Plain(_), Slot::Single(None)) => true,
                _ => false,
            };
            if unset {
                assert(is_first_missing(fields, slots, i as int));
                assert forall|other: int| is_first_missing(fields, slots, other) implies other
                    == i by {}
                return Some(i);
            }
            i += 1;
        }
        assert forall|other: int| !is_first_missing(fields, slots, other) by {}
        None
    }

    /// Builds the record.
    ///
    /// Fails with `MissingField` where a plain field is not set; the failure
    /// names the first such field in declaration order, and the builder is
    /// left as it was. Otherwise every field gets the value from its slot:
    /// a plain field its value, an optional field its value or none, a
    /// repeated field its elements in the order in which they were given.
    /// After a success every slot is as in a new builder.
    ///
    /// `build` may be called any number of times.
    pub fn build(&mut self) -> (r: Result<Record<T>, Diagnostic>)
        requires
            old(self).wf(),
        ensures
            final(self).wf(),
            record_outcome(r) == built(old(self)@.target, old(self)@.fields, old(self)@.slots),
            final(self)@ == (BuilderModel {
                slots: after_build(old(self)@.fields, old(self)@.slots),
                ..old(self)@
            }),
    {
        match self.find_missing() {
            Some(i) => {
                assert(self@.fields[i as int] == self.spec.fields[i as int]@);
                return Err(Diagnostic::missing_field(self.spec.fields[i].ident.as_str()));
            },
            None => {},
        }
        let ghost fields = self@.fields;
        let ghost before = self@.slots;
        let n: usize = self.spec.fields.len();
        let mut out: Vec<RecordField<T>> = Vec::new();
        let mut i: usize = 0;
        while i < n
            invariant
                i <= n == self.spec.fields.len(),
                self.spec == old(self).spec,
                fields == self.spec.fields.deep_view(),
                before == old(self).slots.deep_view(),
                well_formed(fields, before),
                forall|k: int| 0 <= k < n ==> !is_missing(fields, before, k),
                self.slots.len() == n,
                forall|k: int| 0 <= k < i ==> self.slots[k]@ == fresh_slot::<T>(fields[k].ty),
                forall|k: int| i <= k < n ==> self.slots[k]@ == before[k],
                out.len() == i,
                forall|k: int|
                    0 <= k < i ==> out[k]@ == (RecordFieldModel {
                        name: fields[k].ident,
                        value: extracted(fields[k].ty, before[k]),
                    }),
            decreases n - i,
        {
            assert(fields[i as int] == self.spec.fields[i as int]@);
            assert(!is_missing(fields, before, i as int));
            let mut slot = match &self.spec.fields[i].ty {
                FieldType::Repeated(_, _) => Slot::Many(Vec::new()),
                _ => Slot::Single(None),
            };
            core::mem::swap(&mut self.slots[i], &mut slot);
            let value = match (&self.spec.fields[i].ty, slot) {
                (FieldType::Plain(_), Slot::Single(Some(value))) => FieldValue::Required(value),
                (FieldType::Optional(_), Slot::Single(value)) => FieldValue::Optional(value),
                (FieldType::Repeated(_, _), Slot::Many(values)) => FieldValue::Repeated(values),
                _ => vstd::pervasive::unreached(),
            };
            out.push(RecordField { name: self.spec.fields[i].ident.clone(), value });
            i += 1;
        }
        assert(self.slots.deep_view() =~= fresh::<T>(fields));
        let record = Record { name: self.spec.target_name.clone(), fields: out };
        assert(record@.fields =~= assembled(old(self)@.target, fields, before).fields);
        Ok(record)
    }
}

} // verus!

//! What holds of every builder, whatever is called on it.
//!
//! The laws speak of a builder that received any sequence of calls, setters
//! and `build` in any order, from the moment it was created or from any
//! state it was in. They are stated over the same functions as the contracts
//! of [`crate::runtime::Builder`], so each of them holds of every run of the
//! executable builder.
//!
//! A setter is called by its name, and a call reaches the first field whose
//! setter has that name. The laws about a single field therefore ask that the
//! field is reached by the name of its setter: that no field declared before
//! it has a setter of the same name. In a builder that can be written out as
//! code no two setters share a name, and every field is reached;
//! [`crate::runtime::setters_distinct`] tells whether that is so.

use vstd::prelude::*;
use crate::classify::{classified, BuilderFieldModel};
use crate::diagnostic::{missing_field, DiagnosticModel};
use crate::helper::struct_fields;
use crate::layout::{
    assignment_of, check_of, classified_all, is_first_failure, normalized, setter_of, storage_of,
    Extraction, InitialValue, Mutation,
};
use crate::runtime::{
    after_build, after_set, all_reached, assembled, built, extracted, first_missing, fits, fresh,
    fresh_slot, is_first_missing, is_missing, is_setter_at, reached, setter_index, stored,
    well_formed, FieldValueModel, RecordModel, SlotModel,
};
use crate::types::{FieldSpecModel, RecordDeclModel};

verus! {

/// One call on a builder.
pub ghost enum Call<T> {
    /// The setter `name`, called with `value`.
    Setter { name: Seq<char>, value: T },
    /// `build`.
    Build,
}

/// The slots after one call.
pub open spec fn after_call<T>(
    fields: Seq<BuilderFieldModel>,
    slots: Seq<SlotModel<T>>,
    call: Call<T>,
) -> Seq<SlotModel<T>> {
    match call {
        Call::Setter { name, value } => after_set(fields, slots, name, value),
        Call::Build => after_build(fields, slots),
    }
}

/// The slots of a builder that held `start` and then received `calls`, in
/// order.
pub open spec fn after_calls_from<T>(
    fields: Seq<BuilderFieldModel>,
    start: Seq<SlotModel<T>>,
    calls: Seq<Call<T>>,
) -> Seq<SlotModel<T>>
    decreases calls.len(),
{
    if calls.len() == 0 {
        start
    } else {
        after_call(fields, after_calls_from(fields, start, calls.drop_last()), calls.last())
    }
}

/// The slots of a builder that was created and then received `calls`, in
/// order.
pub open spec fn after_calls<T>(fields: Seq<BuilderFieldModel>, calls: Seq<Call<T>>) -> Seq<
    SlotModel<T>,
> {
    after_calls_from(fields, fresh(fields), calls)
}

/// Some `build` among `calls` succeeded, on a builder that held `start`
/// before them.
pub open spec fn drained<T>(
    fields: Seq<BuilderFieldModel>,
    start: Seq<SlotModel<T>>,
    calls: Seq<Call<T>>,
) -> bool
    decreases calls.len(),
{
    if calls.len() == 0 {
        false
    } else {
        match calls.last() {
            Call::Setter { .. } => drained(fields, start, calls.drop_last()),
            Call::Build => first_missing(
                fields,
                after_calls_from(fields, start, calls.drop_last()),
            ) is None || drained(fields, start, calls.drop_last()),
        }
    }
}

/// The values that the setter `name` was called with among `calls`, on a
/// builder that held `start` before them: those since the last `build` that
/// succeeded, and all of them if none did; in call order.
pub open spec fn given_from<T>(
    fields: Seq<BuilderFieldModel>,
    start: Seq<SlotModel<T>>,
    calls: Seq<Call<T>>,
    name: Seq<char>,
) -> Seq<T>
    decreases calls.len(),
{
    if calls.len() == 0 {
        Seq::empty()
    } else {
        let earlier = given_from(fields, start, calls.drop_last(), name);
        match calls.last() {
            Call::Setter { name: called, value } => if called == name {
                earlier.push(value)
            } else {
                earlier
            },
            Call::Build => if first_missing(
                fields,
                after_calls_from(fields, start, calls.drop_last()),
            ) is None {
                Seq::empty()
            } else {
                earlier
            },
        }
    }
}

/// The values that the setter `name` was called with since the builder was
/// created or, if a `build` succeeded since, since the last `build` that
/// did; in call order.
pub open spec fn given<T>(
    fields: Seq<BuilderFieldModel>,
    calls: Seq<Call<T>>,
    name: Seq<char>,
) -> Seq<T> {
    given_from(fields, fresh(fields), calls, name)
}

/// The value of a call of the setter `name`, and nothing for any other
/// call.
pub open spec fn value_for<T>(call: Call<T>, name: Seq<char>) -> Option<T> {
    match call {
        Call::Setter { name: called, value } => if called == name {
            Some(value)
        } else {
            None
        },
        Call::Build => None,
    }
}

/// The values that the setter `name` was called with among `calls`, in call
/// order.
pub open spec fn values_of<T>(calls: Seq<Call<T>>, name: Seq<char>) -> Seq<T> {
    calls.filter_map(|call: Call<T>| value_for(call, name))
}

/// None of `calls` is `build`.
pub open spec fn only_setters<T>(calls: Seq<Call<T>>) -> bool {
    forall|k: int| 0 <= k < calls.len() ==> (#[trigger] calls[k]) is Setter
}

/// None of `calls` is a call of the setter `name`.
pub open spec fn never_called<T>(calls: Seq<Call<T>>, name: Seq<char>) -> bool {
    forall|k: int| 0 <= k < calls.len() ==> value_for(#[trigger] calls[k], name) is None
}

/// Every plain field is reached by its own name.
pub open spec fn plain_fields_reached(fields: Seq<BuilderFieldModel>) -> bool {
    forall|k: int|
        0 <= k < fields.len() && (#[trigger] fields[k]).ty is Plain ==> reached(fields, k)
}

/// Where no two setters share a name, every plain field is reached.
pub proof fn lemma_all_reached(fields: Seq<BuilderFieldModel>)
    requires
        all_reached(fields),
    ensures
        plain_fields_reached(fields),
{
}

/// `first_missing` finds the field at `i` exactly when that field is the
/// first plain field that is not set.
pub proof fn lemma_first_missing<T>(
    fields: Seq<BuilderFieldModel>,
    slots: Seq<SlotModel<T>>,
    i: int,
)
    ensures
        first_missing(fields, slots) == Some(i) <==> is_first_missing(fields, slots, i),
{
    if is_first_missing(fields, slots, i) {
        let found = choose|k: int| is_first_missing(fields, slots, k);
        assert(found == i) by {
            if found < i {
                assert(!is_missing(fields, slots, found));
            } else if i < found {
                assert(!is_missing(fields, slots, i));
            }
        }
    }
}

/// Where some plain field is not set, there is a first such field.
pub proof fn lemma_some_missing<T>(
    fields: Seq<BuilderFieldModel>,
    slots: Seq<SlotModel<T>>,
    i: int,
)
    requires
        is_missing(fields, slots, i),
    ensures
        first_missing(fields, slots) is Some,
    decreases i,
{
    if exists|k: int| 0 <= k < i && is_missing(fields, slots, k) {
        let k = choose|k: int| 0 <= k < i && is_missing(fields, slots, k);
        lemma_some_missing(fields, slots, k);
    } else {
        assert(is_first_missing(fields, slots, i));
        lemma_first_missing(fields, slots, i);
    }
}

/// A call changes a field that is reached by the name of its setter exactly
/// when it is a call of that setter.
pub proof fn lemma_setter_reaches(fields: Seq<BuilderFieldModel>, name: Seq<char>, i: int)
    requires
        reached(fields, i),
    ensures
        setter_index(fields, name) == Some(i) <==> setter_of(fields[i]).name == name,
{
    if setter_of(fields[i]).name == name {
        assert(is_setter_at(fields, name, i));
        let found = choose|k: int| is_setter_at(fields, name, k);
        assert(found == i);
    }
}

/// A setter keeps the slots well formed.
pub proof fn lemma_set_well_formed<T>(
    fields: Seq<BuilderFieldModel>,
    slots: Seq<SlotModel<T>>,
    name: Seq<char>,
    value: T,
)
    requires
        well_formed(fields, slots),
    ensures
        well_formed(fields, after_set(fields, slots, name, value)),
{
    match setter_index(fields, name) {
        Some(i) => {
            assert(is_setter_at(fields, name, i));
            let after = slots.update(i, stored(slots[i], value));
            assert forall|k: int| 0 <= k < fields.len() implies fits(
                fields[k].ty,
                #[trigger] after[k],
            ) by {
                assert(fits(fields[k].ty, slots[k]));
            }
        },
        None => {},
    }
}

/// The slots of a new builder are well formed.
pub proof fn lemma_fresh_well_formed<T>(fields: Seq<BuilderFieldModel>)
    ensures
        well_formed(fields, fresh::<T>(fields)),
{
}

/// Whatever is called on a builder, its slots stay well formed.
pub proof fn lemma_calls_well_formed<T>(
    fields: Seq<BuilderFieldModel>,
    start: Seq<SlotModel<T>>,
    calls: Seq<Call<T>>,
)
    requires
        well_formed(fields, start),
    ensures
        well_formed(fields, after_calls_from(fields, start, calls)),
    decreases calls.len(),
{
    if calls.len() > 0 {
        lemma_calls_well_formed(fields, start, calls.drop_last());
        let before = after_calls_from(fields, start, calls.drop_last());
        match calls.last() {
            Call::Setter { name, value } => {
                lemma_set_well_formed(fields, before, name, value);
            },
            Call::Build => {
                lemma_fresh_well_formed::<T>(fields);
            },
        }
    }
}

/// Among calls without a `build`, the values given to a setter are those it
/// was called with, and nothing was drained.
pub proof fn lemma_given_without_build<T>(
    fields: Seq<BuilderFieldModel>,
    start: Seq<SlotModel<T>>,
    calls: Seq<Call<T>>,
    name: Seq<char>,
)
    requires
        only_setters(calls),
    ensures
        given_from(fields, start, calls, name) == values_of(calls, name),
        !drained(fields, start, calls),
    decreases calls.len(),
{
    reveal_with_fuel(Seq::filter_map, 2);
    if calls.len() > 0 {
        assert(calls.last() is Setter);
        lemma_given_without_build(fields, start, calls.drop_last(), name);
        assert(values_of(calls, name) =~= given_from(fields, start, calls, name));
    }
}

/// A setter that was never called was given nothing.
pub proof fn lemma_given_never_called<T>(
    fields: Seq<BuilderFieldModel>,
    start: Seq<SlotModel<T>>,
    calls: Seq<Call<T>>,
    name: Seq<char>,
)
    requires
        never_called(calls, name),
    ensures
        given_from(fields, start, calls, name).len() == 0,
    decreases calls.len(),
{
    if calls.len() > 0 {
        assert(value_for(calls.last(), name) is None);
        lemma_given_never_called(fields, start, calls.drop_last(), name);
    }
}

/// What the slot of a plain or an optional field holds after any calls: the
/// value of the last call of its setter since the last `build` that
/// succeeded; where there was no such call, nothing if a `build` succeeded,
/// and else what the slot held before the calls.
pub proof fn lemma_single_slot<T>(
    fields: Seq<BuilderFieldModel>,
    start: Seq<SlotModel<T>>,
    calls: Seq<Call<T>>,
    i: int,
)
    requires
        reached(fields, i),
        !(fields[i].ty is Repeated),
        well_formed(fields, start),
    ensures
        ({
            let values = given_from(fields, start, calls, setter_of(fields[i]).name);
            after_calls_from(fields, start, calls)[i] == SlotModel::Single(
                if values.len() > 0 {
                    Some(values.last())
                } else if drained(fields, start, calls) {
                    None
                } else {
                    start[i]->Single_0
                },
            )
        }),
    decreases calls.len(),
{
    let name = setter_of(fields[i]).name;
    if calls.len() > 0 {
        lemma_single_slot(fields, start, calls.drop_last(), i);
        lemma_calls_well_formed(fields, start, calls.drop_last());
        match calls.last() {
            Call::Setter { name: called, value } => {
                lemma_setter_reaches(fields, called, i);
                if called != name {
                    match setter_index(fields, called) {
                        Some(k) => {
                            assert(is_setter_at(fields, called, k));
                        },
                        None => {},
                    }
                }
            },
            Call::Build => {},
        }
    }
}

/// What the slot of a repeated field holds after any calls: the values that
/// its accumulator was called with since the last `build` that succeeded, in
/// call order, after what the slot held before the calls if no `build`
/// succeeded.
pub proof fn lemma_many_slot<T>(
    fields: Seq<BuilderFieldModel>,
    start: Seq<SlotModel<T>>,
    calls: Seq<Call<T>>,
    i: int,
)
    requires
        reached(fields, i),
        fields[i].ty is Repeated,
        well_formed(fields, start),
    ensures
        ({
            let values = given_from(fields, start, calls, setter_of(fields[i]).name);
            let kept = if drained(fields, start, calls) {
                Seq::empty()
            } else {
                start[i]->Many_0
            };
            after_calls_from(fields, start, calls)[i] == SlotModel::Many(kept + values)
        }),
    decreases calls.len(),
{
    let name = setter_of(fields[i]).name;
    if calls.len() == 0 {
        assert(start[i]->Many_0 + Seq::<T>::empty() =~= start[i]->Many_0);
    } else {
        let earlier = calls.drop_last();
        lemma_many_slot(fields, start, earlier, i);
        lemma_calls_well_formed(fields, start, earlier);
        let values = given_from(fields, start, earlier, name);
        let kept = if drained(fields, start, earlier) {
            Seq::empty()
        } else {
            start[i]->Many_0
        };
        match calls.last() {
            Call::Setter { name: called, value } => {
                lemma_setter_reaches(fields, called, i);
                if called != name {
                    match setter_index(fields, called) {
                        Some(k) => {
                            assert(is_setter_at(fields, called, k));
                        },
                        None => {},
                    }
                } else {
                    assert((kept + values).push(value) =~= kept + values.push(value));
                }
            },
            Call::Build => {
                assert(Seq::<T>::empty() + Seq::<T>::empty() =~= Seq::<T>::empty());
            },
        }
    }
}

/// Required fields. After any calls on a new builder, a plain field is
/// missing exactly when its setter was not called since the builder was
/// created or last built with success; and `build` fails with the failure
/// that names that field exactly when, in addition, the setter of every
/// plain field declared before it was called since.
pub proof fn law_required_fields<T>(
    target: Seq<char>,
    fields: Seq<BuilderFieldModel>,
    calls: Seq<Call<T>>,
    i: int,
)
    requires
        0 <= i < fields.len(),
        fields[i].ty is Plain,
        plain_fields_reached(fields),
    ensures
        ({
            let slots = after_calls(fields, calls);
            let unset = given(fields, calls, fields[i].ident).len() == 0;
            let earlier_set = forall|k: int|
                0 <= k < i && fields[k].ty is Plain ==> given(
                    fields,
                    calls,
                    (#[trigger] fields[k]).ident,
                ).len() > 0;
            &&& is_missing(fields, slots, i) <==> unset
            &&& first_missing(fields, slots) == Some(i) <==> unset && earlier_set
            &&& built(target, fields, slots) == Err::<RecordModel<T>, DiagnosticModel>(
                missing_field(fields[i].ident),
            ) <==> unset && earlier_set
        }),
{
    let start = fresh::<T>(fields);
    let slots = after_calls(fields, calls);
    lemma_single_slot(fields, start, calls, i);
    lemma_first_missing(fields, slots, i);
    assert forall|k: int| 0 <= k < i && fields[k].ty is Plain implies (is_missing(fields, slots, k)
        <==> given(fields, calls, (#[trigger] fields[k]).ident).len() == 0) by {
        lemma_single_slot(fields, start, calls, k);
    }
    if built(target, fields, slots) == Err::<RecordModel<T>, DiagnosticModel>(
        missing_field(fields[i].ident),
    ) {
        // `build` failed on a plain field of the same name, and no two plain
        // fields share a name.
        let found = first_missing(fields, slots)->Some_0;
        assert(is_first_missing(fields, slots, found));
        assert(missing_field(fields[found].ident).origin == missing_field(fields[i].ident).origin);
        assert(setter_of(fields[found]).name == setter_of(fields[i]).name);
        assert(found == i);
    }
}

/// `build` succeeds exactly when the setter of every plain field was called
/// since the builder was created or last built with success.
pub proof fn law_build_succeeds<T>(
    target: Seq<char>,
    fields: Seq<BuilderFieldModel>,
    calls: Seq<Call<T>>,
)
    requires
        plain_fields_reached(fields),
    ensures
        built(target, fields, after_calls(fields, calls)) is Ok <==> forall|k: int|
            0 <= k < fields.len() && fields[k].ty is Plain ==> given(
                fields,
                calls,
                (#[trigger] fields[k]).ident,
            ).len() > 0,
{
    let start = fresh::<T>(fields);
    let slots = after_calls(fields, calls);
    assert forall|k: int| 0 <= k < fields.len() && fields[k].ty is Plain implies (is_missing(
        fields,
        slots,
        k,
    ) <==> given(fields, calls, (#[trigger] fields[k]).ident).len() == 0) by {
        lemma_single_slot(fields, start, calls, k);
    }
    if first_missing(fields, slots) is Some {
        let found = first_missing(fields, slots)->Some_0;
        assert(is_first_missing(fields, slots, found));
        assert(fields[found].ty is Plain);
    } else {
        assert forall|k: int| 0 <= k < fields.len() && fields[k].ty is Plain implies !is_missing(
            fields,
            slots,
            k,
        ) by {
            if is_missing(fields, slots, k) {
                lemma_some_missing(fields, slots, k);
            }
        }
    }
}

/// Optional and repeated fields never make `build` fail. Whether `build`
/// succeeds, and on which field it fails, does not depend on what the slot
/// of a field that is not plain holds.
pub proof fn law_only_plain_fields_fail<T>(
    fields: Seq<BuilderFieldModel>,
    slots: Seq<SlotModel<T>>,
    i: int,
    slot: SlotModel<T>,
)
    requires
        0 <= i < fields.len(),
        slots.len() == fields.len(),
        !(fields[i].ty is Plain),
    ensures
        first_missing(fields, slots) != Some(i),
        first_missing(fields, slots.update(i, slot)) == first_missing(fields, slots),
{
    let changed = slots.update(i, slot);
    lemma_first_missing(fields, slots, i);
    assert forall|k: int| is_missing(fields, changed, k) == is_missing(fields, slots, k) by {}
    match first_missing(fields, slots) {
        Some(k) => {
            assert(is_first_missing(fields, changed, k));
            lemma_first_missing(fields, changed, k);
        },
        None => {
            if first_missing(fields, changed) is Some {
                let k = first_missing(fields, changed)->Some_0;
                assert(is_first_missing(fields, slots, k));
                lemma_first_missing(fields, slots, k);
            }
        },
    }
}

/// Optional fields. After any calls on a new builder, the slot of an
/// optional field holds the value of the last call of its setter since the
/// builder was created or last built with success, and nothing where there
/// was no such call; a record built then has just that in the field.
pub proof fn law_optional_fields<T>(
    target: Seq<char>,
    fields: Seq<BuilderFieldModel>,
    calls: Seq<Call<T>>,
    i: int,
)
    requires
        reached(fields, i),
        fields[i].ty is Optional,
    ensures
        ({
            let slots = after_calls(fields, calls);
            let values = given(fields, calls, fields[i].ident);
            &&& first_missing(fields, slots) != Some(i)
            &&& assembled(target, fields, slots).fields[i].value == FieldValueModel::Optional(
                if values.len() == 0 {
                    None
                } else {
                    Some(values.last())
                },
            )
        }),
{
    let slots = after_calls(fields, calls);
    lemma_single_slot(fields, fresh::<T>(fields), calls, i);
    lemma_first_missing(fields, slots, i);
}

/// Repeated fields. After any calls on a new builder, the slot of a
/// repeated field holds the values that its accumulator was called with
/// since the builder was created or last built with success: one element per
/// call, in call order, and none where there was no call. A record built
/// then has just these in the field.
pub proof fn law_repeated_fields<T>(
    target: Seq<char>,
    fields: Seq<BuilderFieldModel>,
    calls: Seq<Call<T>>,
    i: int,
)
    requires
        reached(fields, i),
        fields[i].ty is Repeated,
    ensures
        ({
            let slots = after_calls(fields, calls);
            let values = given(fields, calls, fields[i].ty->Repeated_0);
            &&& slots[i] == SlotModel::Many(values)
            &&& first_missing(fields, slots) != Some(i)
            &&& assembled(target, fields, slots).fields[i].value == FieldValueModel::Repeated(
                values,
            )
        }),
{
    let start = fresh::<T>(fields);
    let values = given(fields, calls, fields[i].ty->Repeated_0);
    lemma_many_slot(fields, start, calls, i);
    lemma_first_missing(fields, after_calls(fields, calls), i);
    assert(Seq::<T>::empty() + values =~= values);
}

/// The accumulator appends. Let a repeated field hold `xs`, in a builder in
/// any state, and let setters be called in any order and any number of
/// times, without a `build`. Then the field holds `xs` followed by the values
/// that its accumulator was called with, one element per call and in call
/// order: nothing is overwritten, dropped, reordered or left out as a
/// duplicate, and calls of other setters change nothing in it.
pub proof fn law_accumulator_appends<T>(
    fields: Seq<BuilderFieldModel>,
    start: Seq<SlotModel<T>>,
    calls: Seq<Call<T>>,
    i: int,
)
    requires
        well_formed(fields, start),
        reached(fields, i),
        fields[i].ty is Repeated,
        only_setters(calls),
    ensures
        ({
            let added = values_of(calls, fields[i].ty->Repeated_0);
            let slot = after_calls_from(fields, start, calls)[i];
            &&& slot == SlotModel::Many(start[i]->Many_0 + added)
            &&& slot->Many_0.len() == start[i]->Many_0.len() + added.len()
        }),
{
    lemma_many_slot(fields, start, calls, i);
    lemma_given_without_build(fields, start, calls, fields[i].ty->Repeated_0);
}

/// A repeated field that was left alone is empty, not absent. Let every
/// plain field of a new builder be set and the accumulator of a repeated
/// field never be called. Then `build` succeeds, and the record has the
/// empty sequence in that field.
pub proof fn law_uncalled_repeated_is_empty<T>(
    target: Seq<char>,
    fields: Seq<BuilderFieldModel>,
    calls: Seq<Call<T>>,
    i: int,
)
    requires
        plain_fields_reached(fields),
        reached(fields, i),
        fields[i].ty is Repeated,
        never_called(calls, fields[i].ty->Repeated_0),
        forall|k: int|
            0 <= k < fields.len() && fields[k].ty is Plain ==> given(
                fields,
                calls,
                (#[trigger] fields[k]).ident,
            ).len() > 0,
    ensures
        ({
            let outcome = built(target, fields, after_calls(fields, calls));
            &&& outcome is Ok
            &&& outcome->Ok_0.fields[i].value == FieldValueModel::<T>::Repeated(Seq::empty())
        }),
{
    law_build_succeeds(target, fields, calls);
    law_repeated_fields(target, fields, calls, i);
    lemma_given_never_called(fields, fresh::<T>(fields), calls, fields[i].ty->Repeated_0);
    assert(given(fields, calls, fields[i].ty->Repeated_0) =~= Seq::<T>::empty());
}

/// The field at `i` is the first plain field.
pub open spec fn is_first_plain(fields: Seq<BuilderFieldModel>, i: int) -> bool {
    &&& 0 <= i < fields.len()
    &&& fields[i].ty is Plain
    &&& forall|k: int| 0 <= k < i ==> !((#[trigger] fields[k]).ty is Plain)
}

/// `build` drains the builder. After a `build` that succeeded the slots are
/// those of a new builder: every plain field is missing, every optional
/// field holds nothing and every repeated field is empty. A second `build`
/// right after it fails on the first plain field; where the record has no
/// plain field it succeeds, with nothing in the optional and the repeated
/// fields.
pub proof fn law_build_drains<T>(
    target: Seq<char>,
    fields: Seq<BuilderFieldModel>,
    slots: Seq<SlotModel<T>>,
)
    requires
        well_formed(fields, slots),
        built(target, fields, slots) is Ok,
    ensures
        ({
            let again = after_build(fields, slots);
            &&& again == fresh::<T>(fields)
            &&& forall|i: int|
                0 <= i < fields.len() ==> #[trigger] again[i] == fresh_slot::<T>(fields[i].ty)
            &&& forall|i: int|
                0 <= i < fields.len() && (#[trigger] fields[i]).ty is Plain ==> is_missing(
                    fields,
                    again,
                    i,
                )
            &&& forall|i: int|
                is_first_plain(fields, i) ==> built(target, fields, again) == Err::<
                    RecordModel<T>,
                    DiagnosticModel,
                >(missing_field(fields[i].ident))
            &&& (forall|i: int| 0 <= i < fields.len() ==> !((#[trigger] fields[i]).ty is Plain))
                ==> built(target, fields, again) == Ok::<RecordModel<T>, DiagnosticModel>(
                assembled(target, fields, fresh::<T>(fields)),
            )
        }),
{
    let again = fresh::<T>(fields);
    assert forall|i: int| is_first_plain(fields, i) implies first_missing(fields, again) == Some(
        i,
    ) by {
        assert(is_first_missing(fields, again, i));
        lemma_first_missing(fields, again, i);
    }
    if forall|i: int| 0 <= i < fields.len() ==> !((#[trigger] fields[i]).ty is Plain) {
        if first_missing(fields, again) is Some {
            let k = first_missing(fields, again)->Some_0;
            assert(is_missing(fields, again, k));
            assert(fields[k].ty is Plain);
        }
    }
}

/// No stale value comes back. Let `build` succeed, and let any calls follow
/// among which the setter of an optional or a repeated field is not. Then
/// that field is as in a new builder, whatever it held before the `build`,
/// and a record built then has nothing in it, or the empty sequence.
pub proof fn law_no_stale_values<T>(
    target: Seq<char>,
    fields: Seq<BuilderFieldModel>,
    slots: Seq<SlotModel<T>>,
    calls: Seq<Call<T>>,
    i: int,
)
    requires
        well_formed(fields, slots),
        built(target, fields, slots) is Ok,
        reached(fields, i),
        !(fields[i].ty is Plain),
        never_called(calls, setter_of(fields[i]).name),
    ensures
        ({
            let after = after_calls_from(fields, after_build(fields, slots), calls);
            &&& after[i] == fresh_slot::<T>(fields[i].ty)
            &&& fields[i].ty is Optional ==> assembled(target, fields, after).fields[i].value
                == FieldValueModel::<T>::Optional(None)
            &&& fields[i].ty is Repeated ==> assembled(target, fields, after).fields[i].value
                == FieldValueModel::<T>::Repeated(Seq::empty())
            &&& built(target, fields, after) matches Ok(record) ==> record.fields[i].value
                == extracted(fields[i].ty, fresh_slot::<T>(fields[i].ty))
        }),
{
    let start = fresh::<T>(fields);
    let name = setter_of(fields[i]).name;
    lemma_given_never_called(fields, start, calls, name);
    assert(given_from(fields, start, calls, name) =~= Seq::<T>::empty());
    if fields[i].ty is Repeated {
        lemma_many_slot(fields, start, calls, i);
        assert(Seq::<T>::empty() + Seq::<T>::empty() =~= Seq::<T>::empty());
    } else {
        lemma_single_slot(fields, start, calls, i);
    }
}

/// The slot that an initial value of the layout stands for.
pub open spec fn initial_slot<T>(value: InitialValue) -> SlotModel<T> {
    match value {
        InitialValue::Absent => SlotModel::Single(None),
        InitialValue::Empty => SlotModel::Many(Seq::empty()),
    }
}

/// What a mutation of the layout makes of a slot.
pub open spec fn mutated<T>(mutation: Mutation, slot: SlotModel<T>, value: T) -> SlotModel<T> {
    match mutation {
        Mutation::Overwrite => SlotModel::Single(Some(value)),
        Mutation::Append => SlotModel::Many(slot->Many_0.push(value)),
    }
}

/// What an extraction of the layout takes from a slot.
pub open spec fn taken<T>(extraction: Extraction, slot: SlotModel<T>) -> FieldValueModel<T> {
    match extraction {
        Extraction::Checked => FieldValueModel::Required(slot->Single_0->Some_0),
        Extraction::Taken => FieldValueModel::Optional(slot->Single_0),
        Extraction::Drained => FieldValueModel::Repeated(slot->Many_0),
    }
}

/// The layout describes what the builder does. For every field, the slot
/// of a new builder is the initial value that the layout gives and has the
/// form of the layout's slot type; the setter does to the slot what the
/// layout's mutation says; `build` can miss the field exactly when the layout
/// has a check for it, and then fails with the message of that check; and
/// the record gets from the slot what the layout's assignment says.
pub proof fn law_layout_describes_builder<T>(field: BuilderFieldModel, slot: SlotModel<T>, value: T)
    requires
        fits(field.ty, slot),
    ensures
        fresh_slot::<T>(field.ty) == initial_slot::<T>(storage_of(field).1),
        storage_of(field).0 is Sequence <==> fresh_slot::<T>(field.ty) is Many,
        stored(slot, value) == mutated(setter_of(field).mutation, slot, value),
        check_of(field) is Some <==> field.ty is Plain,
        check_of(field) matches Some(check) ==> check.field == field.ident && check.message
            == missing_field(field.ident).message,
        extracted(field.ty, slot) == taken(assignment_of(field).value, slot),
{
}

/// Classification looks at one field at a time. In the normal form of a
/// declaration every field is classified as it would be alone, from the
/// field and what was read from its own attribute text: neither the fields
/// around it nor their order change its kind.
pub proof fn law_classification_per_field(
    decl: RecordDeclModel,
    reads: Seq<Option<Seq<char>>>,
    i: int,
)
    requires
        normalized(decl, reads) is Ok,
        0 <= i < normalized(decl, reads)->Ok_0.fields.len(),
    ensures
        struct_fields(decl.name, decl.data) is Ok,
        normalized(decl, reads)->Ok_0.fields.len() == struct_fields(
            decl.name,
            decl.data,
        )->Ok_0.len(),
        classified(struct_fields(decl.name, decl.data)->Ok_0[i], reads[i]) == Ok::<
            BuilderFieldModel,
            DiagnosticModel,
        >(normalized(decl, reads)->Ok_0.fields[i]),
{
    let fields = struct_fields(decl.name, decl.data)->Ok_0;
    assert(classified_all(fields, reads) is Ok);
    if classified(fields[i], reads[i]) is Err {
        lemma_least_failure(fields, reads, i);
    }
}

/// Where the classification of some field fails, there is a first field
/// whose classification fails.
proof fn lemma_least_failure(fields: Seq<FieldSpecModel>, reads: Seq<Option<Seq<char>>>, i: int)
    requires
        0 <= i < fields.len(),
        classified(fields[i], reads[i]) is Err,
    ensures
        exists|k: int| is_first_failure(fields, reads, k),
    decreases i,
{
    if exists|k: int| 0 <= k < i && classified(fields[k], reads[k]) is Err {
        let k = choose|k: int| 0 <= k < i && classified(fields[k], reads[k]) is Err;
        lemma_least_failure(fields, reads, k);
    } else {
        assert(is_first_failure(fields, reads, i));
    }
}

} // verus!

//! What holds of every record and of every run of a generated builder.

use crate::descriptor::StructSpec;
use crate::state::{lemma_absent_among, lemma_missing_none, StateSpec};
use vstd::prelude::*;

verus! {

/// Some call in `calls` is the setter of the field `name`.
pub open spec fn called<V>(calls: Seq<(Seq<char>, V)>, name: Seq<char>) -> bool {
    exists|k: int| 0 <= k < calls.len() && (#[trigger] calls[k]).0 == name
}

/// The record has a field `name` and no call in `calls` is its setter.
pub open spec fn omitted<V>(
    descriptor: StructSpec,
    calls: Seq<(Seq<char>, V)>,
    name: Seq<char>,
) -> bool {
    descriptor.has_field(name) && !called(calls, name)
}

/// The value that the last setter call for the field `name` supplied.
pub open spec fn latest<V>(calls: Seq<(Seq<char>, V)>, name: Seq<char>) -> Option<V>
    decreases calls.len(),
{
    if calls.len() == 0 {
        None
    } else if calls.last().0 == name {
        Some(calls.last().1)
    } else {
        latest(calls.drop_last(), name)
    }
}

/// `order` lists each of the indices `0 .. n` exactly once.
pub open spec fn is_permutation(order: Seq<int>, n: nat) -> bool {
    &&& order.len() == n
    &&& order.no_duplicates()
    &&& forall|i: int| 0 <= i < n ==> order.contains(i)
}

/// One setter call per field, made in the order `order`, the field at index
/// `i` being given `values[i]`.
pub open spec fn setter_calls<V>(descriptor: StructSpec, values: Seq<V>, order: Seq<int>) -> Seq<
    (Seq<char>, V),
> {
    Seq::new(order.len(), |k: int| (descriptor.fields[order[k]].name, values[order[k]]))
}

/// The value found by `latest` was supplied by a call for that field, and
/// none is found only where no call is for that field.
proof fn lemma_latest<V>(calls: Seq<(Seq<char>, V)>, name: Seq<char>)
    ensures
        match latest(calls, name) {
            Some(value) => exists|k: int|
                0 <= k < calls.len() && (#[trigger] calls[k]).0 == name && calls[k].1 == value,
            None => !called(calls, name),
        },
    decreases calls.len(),
{
    if calls.len() > 0 {
        let n = calls.len() - 1;
        if calls.last().0 == name {
            assert(calls[n].0 == name && calls[n].1 == calls.last().1);
        } else {
            let front = calls.drop_last();
            lemma_latest(front, name);
            match latest(front, name) {
                Some(value) => {
                    let k = choose|k: int|
                        0 <= k < front.len() && (#[trigger] front[k]).0 == name && front[k].1
                            == value;
                    assert(calls[k].0 == name && calls[k].1 == value);
                },
                None => {
                    assert forall|k: int| 0 <= k < calls.len() implies (#[trigger] calls[k]).0
                        != name by {
                        if k < n {
                            assert(front[k].0 != name);
                        }
                    }
                },
            }
        }
    }
}

/// After a run of setter calls a slot holds the value that the last call for
/// its field supplied; a slot whose field no call names is as it was.
pub proof fn law_slot_holds_latest<V>(state: StateSpec<V>, calls: Seq<(Seq<char>, V)>)
    requires
        state.wf(),
    ensures
        state.run(calls).wf(),
        state.run(calls).descriptor == state.descriptor,
        forall|i: int|
            0 <= i < state.slots.len() ==> #[trigger] state.run(calls).slots[i] == (match latest(
                calls,
                state.descriptor.fields[i].name,
            ) {
                Some(value) => Some(value),
                None => state.slots[i],
            }),
    decreases calls.len(),
{
    if calls.len() > 0 {
        law_slot_holds_latest(state, calls.drop_last());
    }
}

/// Calling the setter of one field twice keeps only the value supplied last.
pub proof fn law_setter_overwrites<V>(state: StateSpec<V>, name: Seq<char>, first: V, second: V)
    ensures
        state.set(name, first).set(name, second) == state.set(name, second),
{
    assert(state.set(name, first).set(name, second).slots =~= state.set(name, second).slots);
}

/// Setters of different fields may be called in either order.
pub proof fn law_setters_commute<V>(
    state: StateSpec<V>,
    name: Seq<char>,
    value: V,
    other: Seq<char>,
    other_value: V,
)
    requires
        name != other,
    ensures
        state.set(name, value).set(other, other_value) == state.set(other, other_value).set(
            name,
            value,
        ),
{
    assert(state.set(name, value).set(other, other_value).slots =~= state.set(
        other,
        other_value,
    ).set(name, value).slots);
}

/// Calling every setter exactly once, in any order, and then the completing
/// call yields exactly the values supplied.
pub proof fn law_round_trip<V>(descriptor: StructSpec, values: Seq<V>, order: Seq<int>)
    requires
        descriptor.wf(),
        values.len() == descriptor.fields.len(),
        is_permutation(order, descriptor.fields.len()),
    ensures
        StateSpec::fresh(descriptor).run(setter_calls(descriptor, values, order)).build() == Ok::<
            Seq<V>,
            Seq<Seq<char>>,
        >(values),
{
    let start = StateSpec::<V>::fresh(descriptor);
    let calls = setter_calls(descriptor, values, order);
    let end = start.run(calls);
    let n = descriptor.fields.len() as int;
    law_slot_holds_latest(start, calls);
    assert forall|k: int| 0 <= k < order.len() implies 0 <= #[trigger] order[k] < n by {
        lemma_permutation_in_range(order, n as nat, k);
    }
    assert forall|i: int| 0 <= i < n implies #[trigger] end.slots[i] == Some(values[i]) by {
        let name = descriptor.fields[i].name;
        lemma_latest(calls, name);
        assert(order.contains(i));
        let at = choose|at: int| 0 <= at < order.len() && order[at] == i;
        assert(calls[at].0 == name);
        match latest(calls, name) {
            Some(value) => {
                let k = choose|k: int|
                    0 <= k < calls.len() && (#[trigger] calls[k]).0 == name && calls[k].1
                        == value;
                assert(0 <= order[k] < n);
                assert(descriptor.fields[order[k]].name == descriptor.fields[i].name);
                assert(order[k] == i);
            },
            None => {},
        }
    }
    assert(end.complete());
    assert(end.values() =~= values);
}

/// Every entry of a permutation of `0 .. n` is one of those indices.
proof fn lemma_permutation_in_range(order: Seq<int>, n: nat, k: int)
    requires
        is_permutation(order, n),
        0 <= k < n,
    ensures
        0 <= order[k] < n,
{
    let wanted = Set::new(|i: int| 0 <= i < n);
    vstd::set_lib::lemma_int_range(0, n as int);
    assert(wanted =~= vstd::set_lib::set_int_range(0, n as int));
    order.unique_seq_to_set();
    assert(wanted.subset_of(order.to_set())) by {
        assert forall|i: int| wanted.contains(i) implies order.to_set().contains(i) by {
            assert(order.contains(i));
        }
    }
    vstd::set_lib::lemma_subset_equality(wanted, order.to_set());
    assert(order.to_set().contains(order[k]));
}

/// Whatever setters were called on a builder fresh from the factory, the
/// fields that the completing call reports as missing are exactly the fields
/// whose setter was not called, each named once; it fails exactly where there
/// is such a field.
pub proof fn law_omitted_fields_named<V>(descriptor: StructSpec, calls: Seq<(Seq<char>, V)>)
    requires
        descriptor.wf(),
    ensures
        ({
            let end = StateSpec::fresh(descriptor).run(calls);
            &&& forall|name: Seq<char>|
                end.missing().contains(name) <==> omitted(descriptor, calls, name)
            &&& end.missing().no_duplicates()
            &&& (exists|name: Seq<char>| omitted(descriptor, calls, name)) ==> end.build() == Err::<
                Seq<V>,
                Seq<Seq<char>>,
            >(end.missing())
            &&& !(exists|name: Seq<char>| omitted(descriptor, calls, name)) ==> end.build() is Ok
        }),
{
    let start = StateSpec::<V>::fresh(descriptor);
    let end = start.run(calls);
    let n = descriptor.fields.len() as int;
    law_slot_holds_latest(start, calls);
    lemma_absent_among(end, n);
    lemma_missing_none(end);
    assert forall|i: int| 0 <= i < n implies ((#[trigger] end.slots[i]) is None <==> !called(
        calls,
        descriptor.fields[i].name,
    )) by {
        lemma_latest(calls, descriptor.fields[i].name);
    }
    assert forall|name: Seq<char>| end.missing().contains(name) implies omitted(
        descriptor,
        calls,
        name,
    ) by {
        let i = choose|i: int|
            0 <= i < n && (#[trigger] end.slots[i]) is None && end.descriptor.fields[i].name
                == name;
        assert(descriptor.fields[i].name == name);
    }
    assert forall|name: Seq<char>| omitted(descriptor, calls, name) implies end.missing().contains(
        name,
    ) by {
        let i = choose|i: int|
            0 <= i < descriptor.fields.len() && (#[trigger] descriptor.fields[i]).name == name;
        assert(end.slots[i] is None);
    }
    if exists|name: Seq<char>| omitted(descriptor, calls, name) {
        let name = choose|name: Seq<char>| omitted(descriptor, calls, name);
        assert(end.missing().contains(name));
    } else {
        if end.missing().len() > 0 {
            assert(end.missing().contains(end.missing()[0]));
            assert(omitted(descriptor, calls, end.missing()[0]));
        }
    }
}

/// Where exactly one field was left without a call of its setter, the
/// completing call fails and names that field alone.
pub proof fn law_one_omitted_field_named<V>(
    descriptor: StructSpec,
    calls: Seq<(Seq<char>, V)>,
    name: Seq<char>,
)
    requires
        descriptor.wf(),
        forall|other: Seq<char>| omitted(descriptor, calls, other) <==> other == name,
    ensures
        StateSpec::fresh(descriptor).run(calls).build() == Err::<Seq<V>, Seq<Seq<char>>>(
            seq![name],
        ),
{
    let missing = StateSpec::<V>::fresh(descriptor).run(calls).missing();
    law_omitted_fields_named(descriptor, calls);
    assert(omitted(descriptor, calls, name));
    assert(missing.contains(name));
    assert(missing.len() == 1) by {
        if missing.len() > 1 {
            assert(missing.contains(missing[0]));
            assert(missing.contains(missing[1]));
            assert(missing[0] == missing[1]);
        }
    }
    assert(missing.contains(missing[0]));
    assert(missing =~= seq![name]);
}

/// The builder of a record without fields is complete from the start: the
/// completing call succeeds at once.
pub proof fn law_empty_record_builds<V>(descriptor: StructSpec)
    requires
        descriptor.fields.len() == 0,
    ensures
        StateSpec::<V>::fresh(descriptor).build() == Ok::<Seq<V>, Seq<Seq<char>>>(Seq::empty()),
{
    assert(StateSpec::<V>::fresh(descriptor).values() =~= Seq::empty());
}

/// The builder mirrors its record: as many slots as the record has fields,
/// in the same order, each under the field's name and holding the field's
/// own declared type; one setter per field, taking that type; and every slot
/// absent in what the factory method returns.
pub proof fn law_builder_mirrors_record<V>(descriptor: StructSpec)
    ensures
        descriptor.builder_type().slots.len() == descriptor.fields.len(),
        descriptor.setters().len() == descriptor.fields.len(),
        forall|i: int|
            0 <= i < descriptor.fields.len() ==> {
                &&& (#[trigger] descriptor.builder_type().slots[i]).name
                    == descriptor.fields[i].name
                &&& descriptor.builder_type().slots[i].held_type
                    == descriptor.fields[i].declared_type
                &&& descriptor.setters()[i].field == descriptor.fields[i].name
                &&& descriptor.setters()[i].value_type == descriptor.fields[i].declared_type
                &&& descriptor.factory().absent[i] == descriptor.fields[i].name
                &&& descriptor.build_method().fields[i] == descriptor.fields[i].name
            },
        descriptor.factory().absent.len() == descriptor.fields.len(),
        StateSpec::<V>::fresh(descriptor).slots.len() == descriptor.fields.len(),
        forall|i: int|
            0 <= i < descriptor.fields.len() ==> (#[trigger] StateSpec::<V>::fresh(
                descriptor,
            ).slots[i]) is None,
{
}

} // verus!

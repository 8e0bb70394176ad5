//! The behaviour of a generated builder, as a state machine over the slots
//! of one descriptor.
//!
//! A state holds one slot per field, absent or present. A setter call makes
//! the slot of its field present with the supplied value; the completing
//! call reads the slots and leaves them as they are.

use crate::descriptor::{field_views, texts, StructDescriptor, StructSpec};
use vstd::prelude::*;
use vstd::string::*;

verus! {

/// The slots of one builder value, in the declaration order of the fields.
pub struct BuilderState<'a, V> {
    descriptor: &'a StructDescriptor,
    slots: Vec<Option<V>>,
}

/// A record assembled by the completing call: the values of its fields in
/// declaration order.
#[derive(Debug, PartialEq, Eq)]
pub struct Instance<V> {
    pub name: String,
    pub values: Vec<V>,
}

/// The failure of the completing call: the names of the fields whose slots
/// are absent, in declaration order.
#[derive(Debug, PartialEq, Eq)]
pub struct MissingFields {
    pub names: Vec<String>,
}

/// The names of `names`, each but the first preceded by `separator`.
pub open spec fn joined(names: Seq<Seq<char>>, separator: Seq<char>) -> Seq<char>
    decreases names.len(),
{
    if names.len() == 0 {
        Seq::empty()
    } else if names.len() == 1 {
        names[0]
    } else {
        joined(names.drop_last(), separator) + separator + names.last()
    }
}

/// The text of the failure that names `names` as missing.
pub open spec fn missing_text(names: Seq<Seq<char>>) -> Seq<char> {
    "missing fields: "@ + joined(names, ", "@)
}

impl MissingFields {
    /// The text of the failure, as the generated completing call words it:
    /// the missing fields by name, in declaration order, separated by commas.
    pub fn message(&self) -> (out: String)
        ensures
            out@ == missing_text(texts(self.names@)),
    {
        let mut out = String::from_str("missing fields: ");
        let ghost head = out@;
        let ghost names = texts(self.names@);
        let mut i: usize = 0;
        while i < self.names.len()
            invariant
                i <= self.names.len(),
                names == texts(self.names@),
                out@ == head + joined(names.take(i as int), ", "@),
            decreases self.names.len() - i,
        {
            if i > 0 {
                out.append(", ");
            }
            out.append(self.names[i].as_str());
            proof {
                assert(names.take(i + 1).drop_last() =~= names.take(i as int));
                assert(names.take(i + 1).last() == self.names[i as int]@);
                assert(out@ =~= head + joined(names.take(i + 1), ", "@));
            }
            i += 1;
        }
        assert(names.take(i as int) =~= names);
        out
    }
}

/// Mathematical value of a [`BuilderState`].
pub struct StateSpec<V> {
    pub descriptor: StructSpec,
    pub slots: Seq<Option<V>>,
}

impl<V> StateSpec<V> {
    /// One slot per field of a descriptor with unique names.
    pub open spec fn wf(self) -> bool {
        &&& self.descriptor.wf()
        &&& self.slots.len() == self.descriptor.fields.len()
    }

    /// The state that the factory method returns: every slot absent.
    pub open spec fn fresh(descriptor: StructSpec) -> Self {
        StateSpec { descriptor, slots: Seq::new(descriptor.fields.len(), |i: int| None) }
    }

    /// The state after the setter of the field `name` was called with
    /// `value`: the slot of that field holds `value`, every other slot is
    /// untouched.
    pub open spec fn set(self, name: Seq<char>, value: V) -> Self {
        StateSpec {
            descriptor: self.descriptor,
            slots: Seq::new(
                self.slots.len(),
                |i: int|
                    if self.descriptor.fields[i].name == name {
                        Some(value)
                    } else {
                        self.slots[i]
                    },
            ),
        }
    }

    /// The state after a sequence of setter calls, each given by the name of
    /// its field and the value supplied.
    pub open spec fn run(self, calls: Seq<(Seq<char>, V)>) -> Self
        decreases calls.len(),
    {
        if calls.len() == 0 {
            self
        } else {
            self.run(calls.drop_last()).set(calls.last().0, calls.last().1)
        }
    }

    /// Every slot is present.
    pub open spec fn complete(self) -> bool {
        forall|i: int| 0 <= i < self.slots.len() ==> (#[trigger] self.slots[i]) is Some
    }

    /// The names of the absent slots among the first `n`, in declaration
    /// order.
    pub open spec fn absent_among(self, n: int) -> Seq<Seq<char>>
        decreases n,
    {
        if n <= 0 {
            Seq::empty()
        } else if self.slots[n - 1] is None {
            self.absent_among(n - 1).push(self.descriptor.fields[n - 1].name)
        } else {
            self.absent_among(n - 1)
        }
    }

    /// The names of all absent slots, in declaration order.
    pub open spec fn missing(self) -> Seq<Seq<char>> {
        self.absent_among(self.slots.len() as int)
    }

    /// The values held, in declaration order.
    pub open spec fn values(self) -> Seq<V> {
        Seq::new(self.slots.len(), |i: int| self.slots[i].unwrap())
    }

    /// The outcome of the completing call: the values of all fields where
    /// every slot is present, else the names of the absent ones.
    pub open spec fn build(self) -> Result<Seq<V>, Seq<Seq<char>>> {
        if self.complete() {
            Ok(self.values())
        } else {
            Err(self.missing())
        }
    }
}

/// The names listed by `absent_among` are those of the absent slots.
pub proof fn lemma_absent_among<V>(state: StateSpec<V>, n: int)
    requires
        state.wf(),
        0 <= n <= state.slots.len(),
    ensures
        forall|name: Seq<char>|
            state.absent_among(n).contains(name) <==> exists|i: int|
                0 <= i < n && (#[trigger] state.slots[i]) is None
                    && state.descriptor.fields[i].name == name,
        state.absent_among(n).no_duplicates(),
    decreases n,
{
    if n > 0 {
        lemma_absent_among(state, n - 1);
        let rest = state.absent_among(n - 1);
        let last = state.descriptor.fields[n - 1].name;
        let all = state.absent_among(n);
        if state.slots[n - 1] is None {
            assert(all == rest.push(last));
            assert(!rest.contains(last)) by {
                if rest.contains(last) {
                    let i = choose|i: int|
                        0 <= i < n - 1 && (#[trigger] state.slots[i]) is None
                            && state.descriptor.fields[i].name == last;
                    assert(state.descriptor.fields[i].name != state.descriptor.fields[n - 1].name);
                }
            }
            assert forall|name: Seq<char>| all.contains(name) implies exists|i: int|
                0 <= i < n && (#[trigger] state.slots[i]) is None
                    && state.descriptor.fields[i].name == name by {
                let k = choose|k: int| 0 <= k < all.len() && all[k] == name;
                if k < rest.len() {
                    assert(rest[k] == name);
                    assert(rest.contains(name));
                    let i = choose|i: int|
                        0 <= i < n - 1 && (#[trigger] state.slots[i]) is None
                            && state.descriptor.fields[i].name == name;
                    assert(0 <= i < n && state.slots[i] is None);
                } else {
                    assert(state.slots[n - 1] is None);
                }
            }
            assert forall|name: Seq<char>|
                (exists|i: int|
                    0 <= i < n && (#[trigger] state.slots[i]) is None
                        && state.descriptor.fields[i].name == name) implies all.contains(
                name,
            ) by {
                let i = choose|i: int|
                    0 <= i < n && (#[trigger] state.slots[i]) is None
                        && state.descriptor.fields[i].name == name;
                if i < n - 1 {
                    assert(rest.contains(name));
                    let k = choose|k: int| 0 <= k < rest.len() && rest[k] == name;
                    assert(all[k] == name);
                } else {
                    assert(all[rest.len() as int] == name);
                }
            }
            assert(all.no_duplicates()) by {
                assert forall|a: int, b: int| 0 <= a < all.len() && 0 <= b < all.len() && a != b
                    implies all[a] != all[b] by {
                    if a < rest.len() && b < rest.len() {
                        assert(rest[a] != rest[b]);
                    } else if a < rest.len() {
                        assert(rest.contains(rest[a]));
                    } else {
                        assert(rest.contains(rest[b]));
                    }
                }
            }
        } else {
            assert(all == rest);
            assert forall|name: Seq<char>|
                (exists|i: int|
                    0 <= i < n && (#[trigger] state.slots[i]) is None
                        && state.descriptor.fields[i].name == name) implies all.contains(
                name,
            ) by {
                let i = choose|i: int|
                    0 <= i < n && (#[trigger] state.slots[i]) is None
                        && state.descriptor.fields[i].name == name;
                assert(i < n - 1);
            }
        }
    }
}

/// Nothing is missing exactly where every slot is present.
pub proof fn lemma_missing_none<V>(state: StateSpec<V>)
    requires
        state.wf(),
    ensures
        state.missing().len() == 0 <==> state.complete(),
{
    let n = state.slots.len() as int;
    lemma_absent_among(state, n);
    let missing = state.missing();
    if missing.len() > 0 {
        assert(missing.contains(missing[0]));
    }
    if !state.complete() {
        let i = choose|i: int| 0 <= i < state.slots.len() && !((#[trigger] state.slots[i]) is Some);
        assert(state.slots[i] is None);
        assert(missing.contains(state.descriptor.fields[i].name));
    }
}

impl<'a, V> View for BuilderState<'a, V> {
    type V = StateSpec<V>;

    closed spec fn view(&self) -> StateSpec<V> {
        StateSpec { descriptor: self.descriptor@, slots: self.slots@ }
    }
}

impl<'a, V> BuilderState<'a, V> {
    #[verifier::type_invariant]
    spec fn one_slot_per_field(self) -> bool {
        &&& self.descriptor@.wf()
        &&& self.slots.len() == self.descriptor@.fields.len()
    }

    /// The builder that the factory method returns: every slot absent. Each
    /// call gives a builder of its own.
    pub fn new(descriptor: &'a StructDescriptor) -> (out: Self)
        ensures
            out@ == StateSpec::<V>::fresh(descriptor@),
            out@.wf(),
    {
        let count: usize = descriptor.len();
        let mut slots: Vec<Option<V>> = Vec::new();
        let mut i: usize = 0;
        while i < count
            invariant
                i <= count,
                slots.len() == i,
                forall|k: int| 0 <= k < i ==> (#[trigger] slots[k]) is None,
            decreases count - i,
        {
            slots.push(None);
            i += 1;
        }
        let out = BuilderState { descriptor, slots };
        assert(out@.slots =~= StateSpec::<V>::fresh(descriptor@).slots);
        out
    }

    /// The descriptor whose fields the slots mirror.
    pub fn descriptor(&self) -> (out: &'a StructDescriptor)
        ensures
            out@ == self@.descriptor,
            self@.wf(),
    {
        proof {
            use_type_invariant(self);
        }
        self.descriptor
    }

    /// The setter of the field `field`: stores `value` in its slot, whether
    /// or not the slot was present before. Tells whether the record has such
    /// a field; where it has none, nothing changes.
    pub fn set(&mut self, field: &str, value: V) -> (known: bool)
        ensures
            known == old(self)@.descriptor.has_field(field@),
            final(self)@ == old(self)@.set(field@, value),
            final(self)@.wf(),
    {
        proof {
            use_type_invariant(&*self);
        }
        match self.descriptor.position(field) {
            Some(i) => {
                self.slots[i] = Some(value);
                assert(self@.slots =~= old(self)@.set(field@, value).slots);
                true
            },
            None => {
                assert(self@.slots =~= old(self)@.set(field@, value).slots) by {
                    assert forall|k: int| 0 <= k < self@.slots.len() implies #[trigger] self@.slots[k]
                        == old(self)@.set(field@, value).slots[k] by {
                        if self@.descriptor.fields[k].name == field@ {
                            assert(self@.descriptor.has_field(field@));
                        }
                    }
                }
                false
            },
        }
    }

    /// The names of the fields whose slots are absent, in declaration order.
    pub fn missing(&self) -> (out: Vec<String>)
        ensures
            texts(out@) == self@.missing(),
            self@.wf(),
    {
        proof {
            use_type_invariant(self);
        }
        let fields = self.descriptor.fields();
        assert(field_views(fields@).len() == fields.len());
        let mut names: Vec<String> = Vec::new();
        let mut i: usize = 0;
        while i < self.slots.len()
            invariant
                i <= self.slots.len(),
                self.slots.len() == fields.len(),
                field_views(fields@) == self@.descriptor.fields,
                texts(names@) == self@.absent_among(i as int),
            decreases self.slots.len() - i,
        {
            assert(field_views(fields@)[i as int] == fields[i as int]@);
            if self.slots[i].is_none() {
                names.push(fields[i].name.clone());
                assert(texts(names@) =~= self@.absent_among(i as int).push(fields[i as int]@.name));
            }
            i += 1;
        }
        names
    }
}

impl<'a, V: Clone> BuilderState<'a, V> {
    /// The completing call. Where every slot is present it returns the
    /// record, each value a clone of the one held; else it returns the names
    /// of the absent fields. Either way the builder stays as it was, so more
    /// setters may be called and the call repeated.
    pub fn build(&self) -> (out: Result<Instance<V>, MissingFields>)
        ensures
            match out {
                Ok(instance) => {
                    &&& self@.build() is Ok
                    &&& instance.name@ == self@.descriptor.name
                    &&& instance.values.len() == self@.values().len()
                    &&& forall|i: int|
                        0 <= i < instance.values.len() ==> cloned(
                            self@.values()[i],
                            #[trigger] instance.values[i],
                        )
                },
                Err(error) => self@.build() == Err::<Seq<V>, Seq<Seq<char>>>(texts(error.names@)),
            },
            self@.wf(),
    {
        proof {
            use_type_invariant(self);
            lemma_missing_none(self@);
        }
        let names = self.missing();
        if names.len() > 0 {
            return Err(MissingFields { names });
        }
        let mut values: Vec<V> = Vec::new();
        let mut i: usize = 0;
        while i < self.slots.len()
            invariant
                i <= self.slots.len(),
                self@.complete(),
                values.len() == i,
                forall|k: int|
                    0 <= k < i ==> cloned(self@.slots[k].unwrap(), #[trigger] values[k]),
            decreases self.slots.len() - i,
        {
            match &self.slots[i] {
                Some(value) => {
                    values.push(value.clone());
                },
                None => {
                    // Never taken: every slot is present.
                    assert(self@.slots[i as int] is Some);
                },
            }
            i += 1;
        }
        Ok(Instance { name: self.descriptor.name().clone(), values })
    }
}

} // verus!

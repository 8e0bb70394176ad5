//! The generated pieces in structural form: the builder type, the setters,
//! the completing call and the factory method, each synthesized from one
//! descriptor.

use crate::descriptor::{field_views, texts, FieldDescriptor, StructDescriptor, StructSpec};
use vstd::prelude::*;
use vstd::string::*;

verus! {

/// One field of the builder type: it holds a value of type `held_type`
/// wrapped in an option, and starts out absent.
#[derive(Clone, Debug, PartialEq, Eq)]
pub struct Slot {
    pub name: String,
    pub held_type: String,
}

/// The companion type `<Name>Builder`.
#[derive(Clone, Debug, PartialEq, Eq)]
pub struct BuilderType {
    pub name: String,
    pub slots: Vec<Slot>,
}

/// The chainable method that stores its argument into the slot of `field`.
#[derive(Clone, Debug, PartialEq, Eq)]
pub struct Setter {
    pub field: String,
    pub value_type: String,
}

/// The completing call: it checks the slot of each of `fields` in order and
/// assembles a `target` from their values.
#[derive(Clone, Debug, PartialEq, Eq)]
pub struct BuildMethod {
    pub target: String,
    pub fields: Vec<String>,
}

/// The method `builder` added to `target`: it returns a `builder` value in
/// which every slot of `absent` is absent.
#[derive(Clone, Debug, PartialEq, Eq)]
pub struct Factory {
    pub target: String,
    pub builder: String,
    pub absent: Vec<String>,
}

/// Everything generated for one record type.
#[derive(Clone, Debug, PartialEq, Eq)]
pub struct GeneratedFragment {
    pub builder_type: BuilderType,
    pub setters: Vec<Setter>,
    pub build: BuildMethod,
    pub factory: Factory,
}

/// Mathematical value of a [`Slot`].
pub struct SlotSpec {
    pub name: Seq<char>,
    pub held_type: Seq<char>,
}

/// Mathematical value of a [`BuilderType`].
pub struct BuilderTypeSpec {
    pub name: Seq<char>,
    pub slots: Seq<SlotSpec>,
}

/// Mathematical value of a [`Setter`].
pub struct SetterSpec {
    pub field: Seq<char>,
    pub value_type: Seq<char>,
}

/// Mathematical value of a [`BuildMethod`].
pub struct BuildMethodSpec {
    pub target: Seq<char>,
    pub fields: Seq<Seq<char>>,
}

/// Mathematical value of a [`Factory`].
pub struct FactorySpec {
    pub target: Seq<char>,
    pub builder: Seq<char>,
    pub absent: Seq<Seq<char>>,
}

/// Mathematical value of a [`GeneratedFragment`].
pub struct FragmentSpec {
    pub builder_type: BuilderTypeSpec,
    pub setters: Seq<SetterSpec>,
    pub build: BuildMethodSpec,
    pub factory: FactorySpec,
}

/// The mathematical values of a list of setters.
pub open spec fn setter_views(setters: Seq<Setter>) -> Seq<SetterSpec> {
    setters.map_values(|s: Setter| s@)
}

impl View for Slot {
    type V = SlotSpec;

    open spec fn view(&self) -> SlotSpec {
        SlotSpec { name: self.name@, held_type: self.held_type@ }
    }
}

impl View for BuilderType {
    type V = BuilderTypeSpec;

    open spec fn view(&self) -> BuilderTypeSpec {
        BuilderTypeSpec { name: self.name@, slots: self.slots@.map_values(|s: Slot| s@) }
    }
}

impl View for Setter {
    type V = SetterSpec;

    open spec fn view(&self) -> SetterSpec {
        SetterSpec { field: self.field@, value_type: self.value_type@ }
    }
}

impl View for BuildMethod {
    type V = BuildMethodSpec;

    open spec fn view(&self) -> BuildMethodSpec {
        BuildMethodSpec { target: self.target@, fields: texts(self.fields@) }
    }
}

impl View for Factory {
    type V = FactorySpec;

    open spec fn view(&self) -> FactorySpec {
        FactorySpec { target: self.target@, builder: self.builder@, absent: texts(self.absent@) }
    }
}

impl View for GeneratedFragment {
    type V = FragmentSpec;

    open spec fn view(&self) -> FragmentSpec {
        FragmentSpec {
            builder_type: self.builder_type@,
            setters: setter_views(self.setters@),
            build: self.build@,
            factory: self.factory@,
        }
    }
}

impl StructSpec {
    /// The name of the companion type: the record's name followed by
    /// `Builder`.
    pub open spec fn builder_name(self) -> Seq<char> {
        self.name + "Builder"@
    }

    /// The field names in declaration order.
    pub open spec fn field_names(self) -> Seq<Seq<char>> {
        Seq::new(self.fields.len(), |i: int| self.fields[i].name)
    }

    /// The builder type: one slot per field, in declaration order, under the
    /// field's name and holding the field's own declared type.
    pub open spec fn builder_type(self) -> BuilderTypeSpec {
        BuilderTypeSpec {
            name: self.builder_name(),
            slots: Seq::new(
                self.fields.len(),
                |i: int|
                    SlotSpec {
                        name: self.fields[i].name,
                        held_type: self.fields[i].declared_type,
                    },
            ),
        }
    }

    /// The setters: one per field, in declaration order, each taking the
    /// field's own declared type.
    pub open spec fn setters(self) -> Seq<SetterSpec> {
        Seq::new(
            self.fields.len(),
            |i: int|
                SetterSpec {
                    field: self.fields[i].name,
                    value_type: self.fields[i].declared_type,
                },
        )
    }

    /// The completing call: it reads every field, in declaration order.
    pub open spec fn build_method(self) -> BuildMethodSpec {
        BuildMethodSpec { target: self.name, fields: self.field_names() }
    }

    /// The factory method: it leaves every slot absent.
    pub open spec fn factory(self) -> FactorySpec {
        FactorySpec {
            target: self.name,
            builder: self.builder_name(),
            absent: self.field_names(),
        }
    }

    /// The four generated pieces together.
    pub open spec fn fragment(self) -> FragmentSpec {
        FragmentSpec {
            builder_type: self.builder_type(),
            setters: self.setters(),
            build: self.build_method(),
            factory: self.factory(),
        }
    }
}

/// The name of the companion type of `desc`.
fn builder_name(desc: &StructDescriptor) -> (out: String)
    ensures
        out@ == desc@.builder_name(),
{
    let mut name = desc.name().clone();
    name.append("Builder");
    name
}

/// The names of `fields`, in order.
fn names_of(fields: &Vec<FieldDescriptor>) -> (out: Vec<String>)
    ensures
        out.len() == fields.len(),
        forall|i: int| 0 <= i < fields.len() ==> (#[trigger] out[i])@ == fields[i]@.name,
{
    let mut names: Vec<String> = Vec::new();
    let mut i: usize = 0;
    while i < fields.len()
        invariant
            i <= fields.len(),
            names.len() == i,
            forall|k: int| 0 <= k < i ==> (#[trigger] names[k])@ == fields[k]@.name,
        decreases fields.len() - i,
    {
        names.push(fields[i].name.clone());
        i += 1;
    }
    names
}

/// Synthesizes the builder type of a record.
pub fn builder_type(desc: &StructDescriptor) -> (out: BuilderType)
    ensures
        out@ == desc@.builder_type(),
{
    let fields = desc.fields();
    let mut slots: Vec<Slot> = Vec::new();
    let mut i: usize = 0;
    while i < fields.len()
        invariant
            i <= fields.len(),
            slots.len() == i,
            field_views(fields@) == desc@.fields,
            forall|k: int| 0 <= k < i ==> (#[trigger] slots[k])@ == desc@.builder_type().slots[k],
        decreases fields.len() - i,
    {
        assert(field_views(fields@)[i as int] == fields[i as int]@);
        slots.push(
            Slot { name: fields[i].name.clone(), held_type: fields[i].declared_type.clone() },
        );
        i += 1;
    }
    let out = BuilderType { name: builder_name(desc), slots };
    assert(field_views(fields@).len() == fields.len());
    assert(out@.slots =~= desc@.builder_type().slots);
    out
}

/// Generates the setters of a record's builder.
pub fn setters(desc: &StructDescriptor) -> (out: Vec<Setter>)
    ensures
        setter_views(out@) == desc@.setters(),
{
    let fields = desc.fields();
    let mut methods: Vec<Setter> = Vec::new();
    let mut i: usize = 0;
    while i < fields.len()
        invariant
            i <= fields.len(),
            methods.len() == i,
            field_views(fields@) == desc@.fields,
            forall|k: int| 0 <= k < i ==> (#[trigger] methods[k])@ == desc@.setters()[k],
        decreases fields.len() - i,
    {
        assert(field_views(fields@)[i as int] == fields[i as int]@);
        methods.push(
            Setter { field: fields[i].name.clone(), value_type: fields[i].declared_type.clone() },
        );
        i += 1;
    }
    assert(field_views(fields@).len() == fields.len());
    assert(setter_views(methods@) =~= desc@.setters());
    methods
}

/// Assembles the completing call of a record's builder.
pub fn build_method(desc: &StructDescriptor) -> (out: BuildMethod)
    ensures
        out@ == desc@.build_method(),
{
    let fields = desc.fields();
    let names = names_of(fields);
    let out = BuildMethod { target: desc.name().clone(), fields: names };
    assert(out@.fields =~= desc@.field_names()) by {
        assert(field_views(fields@).len() == fields.len());
        assert forall|i: int| 0 <= i < fields.len() implies #[trigger] out@.fields[i]
            == desc@.field_names()[i] by {
            assert(field_views(fields@)[i] == fields[i]@);
        }
    }
    out
}

/// Generates the factory method that a record type gains.
pub fn factory(desc: &StructDescriptor) -> (out: Factory)
    ensures
        out@ == desc@.factory(),
{
    let fields = desc.fields();
    let names = names_of(fields);
    let out = Factory { target: desc.name().clone(), builder: builder_name(desc), absent: names };
    assert(out@.absent =~= desc@.field_names()) by {
        assert(field_views(fields@).len() == fields.len());
        assert forall|i: int| 0 <= i < fields.len() implies #[trigger] out@.absent[i]
            == desc@.field_names()[i] by {
            assert(field_views(fields@)[i] == fields[i]@);
        }
    }
    out
}

/// Generates everything for one record: the builder type, the setters, the
/// completing call and the factory method, all from the same descriptor.
pub fn generate(desc: &StructDescriptor) -> (out: GeneratedFragment)
    ensures
        out@ == desc@.fragment(),
{
    GeneratedFragment {
        builder_type: builder_type(desc),
        setters: setters(desc),
        build: build_method(desc),
        factory: factory(desc),
    }
}

} // verus!

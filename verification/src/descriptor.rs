//! Structural descriptors of record types and their extraction from raw
//! type definitions.

use vstd::prelude::*;

verus! {

/// How a type definition lays out its data.
#[derive(Clone, Copy, Debug, PartialEq, Eq, Structural)]
pub enum Shape {
    /// A struct with a braced field list, `struct S { a: A }`.
    Record,
    /// A struct with positional fields, `struct S(A, B);`.
    Tuple,
    /// A struct without a field list, `struct S;`.
    Unit,
    /// An enumeration.
    Enumeration,
    /// A union.
    Union,
}

/// One field as a raw definition lists it: the name may be absent.
#[derive(Clone, Debug, PartialEq, Eq)]
pub struct RawField {
    pub name: Option<String>,
    pub declared_type: String,
}

/// A type definition before any check of its shape.
#[derive(Clone, Debug, PartialEq, Eq)]
pub struct RawDefinition {
    pub name: String,
    pub shape: Shape,
    pub fields: Vec<RawField>,
}

/// The name and the literal declared type of one field of a record.
#[derive(Clone, Debug, PartialEq, Eq)]
pub struct FieldDescriptor {
    pub name: String,
    pub declared_type: String,
}

/// The name of a record type and its fields in declaration order.
///
/// No two fields of a descriptor bear the same name.
#[derive(Debug, PartialEq, Eq)]
pub struct StructDescriptor {
    name: String,
    fields: Vec<FieldDescriptor>,
}

/// The diagnostic for a definition that is no record with named fields,
/// anchored at the declaration of the type it names.
#[derive(Clone, Debug, PartialEq, Eq)]
pub struct ShapeDiagnostic {
    pub anchor: String,
}

/// Mathematical value of a [`RawField`].
pub struct RawFieldSpec {
    pub name: Option<Seq<char>>,
    pub declared_type: Seq<char>,
}

/// Mathematical value of a [`RawDefinition`].
pub struct RawSpec {
    pub name: Seq<char>,
    pub shape: Shape,
    pub fields: Seq<RawFieldSpec>,
}

/// Mathematical value of a [`FieldDescriptor`].
pub struct FieldSpec {
    pub name: Seq<char>,
    pub declared_type: Seq<char>,
}

/// Mathematical value of a [`StructDescriptor`].
pub struct StructSpec {
    pub name: Seq<char>,
    pub fields: Seq<FieldSpec>,
}

impl View for RawField {
    type V = RawFieldSpec;

    open spec fn view(&self) -> RawFieldSpec {
        RawFieldSpec {
            name: match self.name {
                Some(name) => Some(name@),
                None => None,
            },
            declared_type: self.declared_type@,
        }
    }
}

impl View for RawDefinition {
    type V = RawSpec;

    open spec fn view(&self) -> RawSpec {
        RawSpec {
            name: self.name@,
            shape: self.shape,
            fields: self.fields@.map_values(|f: RawField| f@),
        }
    }
}

impl View for FieldDescriptor {
    type V = FieldSpec;

    open spec fn view(&self) -> FieldSpec {
        FieldSpec { name: self.name@, declared_type: self.declared_type@ }
    }
}

impl View for StructDescriptor {
    type V = StructSpec;

    closed spec fn view(&self) -> StructSpec {
        StructSpec {
            name: self.name@,
            fields: field_views(self.fields@),
        }
    }
}

impl View for ShapeDiagnostic {
    type V = Seq<char>;

    /// The name of the type at whose declaration the diagnostic is anchored.
    open spec fn view(&self) -> Seq<char> {
        self.anchor@
    }
}

impl RawSpec {
    /// Every listed field has a name.
    pub open spec fn all_named(self) -> bool {
        forall|i: int| 0 <= i < self.fields.len() ==> (#[trigger] self.fields[i]).name is Some
    }

    /// No name is given to two fields.
    pub open spec fn distinct_names(self) -> bool {
        forall|i: int, j: int|
            0 <= i < j < self.fields.len() ==> (#[trigger] self.fields[i]).name != (
            #[trigger] self.fields[j]).name
    }

    /// The definition is a record whose fields are all named, each name once.
    pub open spec fn is_record(self) -> bool {
        &&& self.shape == Shape::Record
        &&& self.all_named()
        &&& self.distinct_names()
    }

    /// The descriptor of a record: same type name, same fields in the same
    /// order, each with its own declared type.
    pub open spec fn described(self) -> StructSpec {
        StructSpec {
            name: self.name,
            fields: Seq::new(
                self.fields.len(),
                |i: int|
                    FieldSpec {
                        name: self.fields[i].name.unwrap(),
                        declared_type: self.fields[i].declared_type,
                    },
            ),
        }
    }
}

/// The contents of a list of strings.
pub open spec fn texts(strings: Seq<String>) -> Seq<Seq<char>> {
    strings.map_values(|s: String| s@)
}

/// The mathematical values of a list of field descriptors.
pub open spec fn field_views(fields: Seq<FieldDescriptor>) -> Seq<FieldSpec> {
    fields.map_values(|f: FieldDescriptor| f@)
}

impl StructSpec {
    /// Field names are unique within the descriptor.
    pub open spec fn wf(self) -> bool {
        forall|i: int, j: int|
            0 <= i < j < self.fields.len() ==> (#[trigger] self.fields[i]).name != (
            #[trigger] self.fields[j]).name
    }

    /// Some field bears `name`.
    pub open spec fn has_field(self, name: Seq<char>) -> bool {
        exists|i: int| 0 <= i < self.fields.len() && (#[trigger] self.fields[i]).name == name
    }
}

/// The first index at which `name` occurs among `fields`, if it occurs.
fn find_field(fields: &Vec<FieldDescriptor>, name: &String) -> (out: Option<usize>)
    ensures
        match out {
            Some(i) => {
                &&& i < fields.len()
                &&& fields[i as int]@.name == name@
                &&& forall|k: int| 0 <= k < i ==> (#[trigger] fields[k])@.name != name@
            },
            None => forall|k: int| 0 <= k < fields.len() ==> (#[trigger] fields[k])@.name != name@,
        },
{
    let mut i: usize = 0;
    while i < fields.len()
        invariant
            i <= fields.len(),
            forall|k: int| 0 <= k < i ==> (#[trigger] fields[k])@.name != name@,
        decreases fields.len() - i,
    {
        if fields[i].name == *name {
            return Some(i);
        }
        i += 1;
    }
    None
}

impl ShapeDiagnostic {
    /// The text of the diagnostic: it names the shape that was expected.
    pub fn message(&self) -> (out: String)
        ensures
            out@ == "expected a struct with named fields"@,
    {
        String::from_str("expected a struct with named fields")
    }
}

impl StructDescriptor {
    #[verifier::type_invariant]
    spec fn unique_names(self) -> bool {
        forall|i: int, j: int|
            0 <= i < j < self.fields.len() ==> (#[trigger] self.fields[i])@.name != (
            #[trigger] self.fields[j])@.name
    }

    /// The name of the record type.
    pub fn name(&self) -> (out: &String)
        ensures
            out@ == self@.name,
            self@.wf(),
    {
        proof {
            use_type_invariant(self);
        }
        &self.name
    }

    /// The number of fields.
    pub fn len(&self) -> (out: usize)
        ensures
            out == self@.fields.len(),
            self@.wf(),
    {
        proof {
            use_type_invariant(self);
        }
        self.fields.len()
    }

    /// The fields in declaration order.
    pub fn fields(&self) -> (out: &Vec<FieldDescriptor>)
        ensures
            field_views(out@) == self@.fields,
            self@.wf(),
    {
        proof {
            use_type_invariant(self);
        }
        &self.fields
    }

    /// The index of the field that bears `name`, if one does.
    pub fn position(&self, name: &str) -> (out: Option<usize>)
        ensures
            match out {
                Some(i) => i < self@.fields.len() && self@.fields[i as int].name == name@,
                None => !self@.has_field(name@),
            },
            self@.wf(),
    {
        proof {
            use_type_invariant(self);
        }
        let wanted = String::from_str(name);
        find_field(&self.fields, &wanted)
    }
}

/// Checks the shape of a raw definition and describes it.
///
/// Succeeds exactly on a record whose fields are all named, each name once;
/// every other definition yields the shape diagnostic for its type.
pub fn extract(raw: &RawDefinition) -> (out: Result<StructDescriptor, ShapeDiagnostic>)
    ensures
        match out {
            Ok(desc) => raw@.is_record() && desc@ == raw@.described() && desc@.wf(),
            Err(diag) => !raw@.is_record() && diag@ == raw@.name,
        },
{
    match raw.shape {
        Shape::Record => {},
        _ => {
            return Err(ShapeDiagnostic { anchor: raw.name.clone() });
        },
    }
    let mut fields: Vec<FieldDescriptor> = Vec::new();
    let mut i: usize = 0;
    while i < raw.fields.len()
        invariant
            i <= raw.fields.len(),
            fields.len() == i,
            forall|k: int| 0 <= k < i ==> (#[trigger] raw@.fields[k]).name is Some,
            forall|k: int|
                0 <= k < i ==> (#[trigger] fields[k])@ == raw@.described().fields[k],
            forall|a: int, b: int|
                0 <= a < b < i ==> (#[trigger] fields[a])@.name != (#[trigger] fields[b])@.name,
        decreases raw.fields.len() - i,
    {
        let field = &raw.fields[i];
        assert(raw@.fields[i as int] == field@);
        match &field.name {
            None => {
                return Err(ShapeDiagnostic { anchor: raw.name.clone() });
            },
            Some(name) => {
                match find_field(&fields, name) {
                    Some(earlier) => {
                        assert(raw@.fields[earlier as int].name == raw@.fields[i as int].name);
                        return Err(ShapeDiagnostic { anchor: raw.name.clone() });
                    },
                    None => {},
                }
                fields.push(
                    FieldDescriptor {
                        name: name.clone(),
                        declared_type: field.declared_type.clone(),
                    },
                );
            },
        }
        i += 1;
    }
    assert forall|a: int, b: int| 0 <= a < b < raw@.fields.len() implies (
    #[trigger] raw@.fields[a]).name != (#[trigger] raw@.fields[b]).name by {
        assert(fields[a]@.name != fields[b]@.name);
    }
    let desc = StructDescriptor { name: raw.name.clone(), fields };
    assert(desc@.fields =~= raw@.described().fields);
    Ok(desc)
}

} // verus!

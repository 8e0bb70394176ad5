//! The generated pieces as source text.
//!
//! Each piece has a `text` that says, character for character, what its
//! `render` writes.

use crate::fragment::{
    BuildMethod, BuildMethodSpec, BuilderType, BuilderTypeSpec, Factory,
    FactorySpec, FragmentSpec, GeneratedFragment, Setter, SetterSpec, Slot, SlotSpec,
};
use vstd::prelude::*;
use vstd::string::*;

verus! {

/// The texts of `items`, one after the other.
pub open spec fn concat_texts<T>(items: Seq<T>, text: spec_fn(T) -> Seq<char>) -> Seq<char>
    decreases items.len(),
{
    if items.len() == 0 {
        Seq::empty()
    } else {
        concat_texts(items.drop_last(), text) + text(items.last())
    }
}

/// Taking one more item appends that item's text.
proof fn lemma_concat_next<T>(items: Seq<T>, text: spec_fn(T) -> Seq<char>, i: int)
    requires
        0 <= i < items.len(),
    ensures
        concat_texts(items.take(i + 1), text) == concat_texts(items.take(i), text) + text(
            items[i],
        ),
{
    assert(items.take(i + 1).drop_last() =~= items.take(i));
}

/// The slot check of the completing call for the field `name`.
pub open spec fn check_text(name: Seq<char>) -> Seq<char> {
    "        if self."@ + name + ".is_none() {\n            missing.push(\""@ + name
        + "\");\n        }\n"@
}

/// The initializer that moves the value of the field `name` into the record.
pub open spec fn take_text(name: Seq<char>) -> Seq<char> {
    "            "@ + name + ": self."@ + name + ".clone().unwrap(),\n"@
}

/// The initializer that leaves the slot `name` absent.
pub open spec fn absent_text(name: Seq<char>) -> Seq<char> {
    "            "@ + name + ": None,\n"@
}

impl SlotSpec {
    /// The slot as a field of the builder type, its type wrapped in an option.
    pub open spec fn text(self) -> Seq<char> {
        "    "@ + self.name + ": Option<"@ + self.held_type + ">,\n"@
    }
}

impl BuilderTypeSpec {
    /// The definition of the builder type.
    pub open spec fn text(self) -> Seq<char> {
        "pub struct "@ + self.name + " {\n"@ + concat_texts(self.slots, |s: SlotSpec| s.text())
            + "}\n"@
    }
}

impl SetterSpec {
    /// The setter as a method of the builder type.
    pub open spec fn text(self) -> Seq<char> {
        "    pub fn "@ + self.field + "(&mut self, "@ + self.field + ": "@ + self.value_type
            + ") -> &mut Self {\n        self."@ + self.field + " = Some("@ + self.field
            + ");\n        self\n    }\n\n"@
    }
}

impl BuildMethodSpec {
    /// The completing call as a method of the builder type. It leaves the
    /// builder as it was and clones the values into the record; its error
    /// names every absent field.
    pub open spec fn text(self) -> Seq<char> {
        "    pub fn build(&self) -> Result<"@ + self.target
            + ", Box<dyn std::error::Error>> {\n        #[allow(unused_mut)]\n        let mut missing: Vec<&str> = Vec::new();\n"@
            + concat_texts(self.fields, |name: Seq<char>| check_text(name))
            + "        if !missing.is_empty() {\n            return Err(format!(\"missing fields: {}\", missing.join(\", \")).into());\n        }\n        Ok("@
            + self.target + " {\n"@ + concat_texts(self.fields, |name: Seq<char>| take_text(name))
            + "        })\n    }\n"@
    }
}

impl FactorySpec {
    /// The block that adds the factory method to the record type.
    pub open spec fn text(self) -> Seq<char> {
        "impl "@ + self.target + " {\n    pub fn builder() -> "@ + self.builder + " {\n        "@
            + self.builder + " {\n"@ + concat_texts(
            self.absent,
            |name: Seq<char>| absent_text(name),
        ) + "        }\n    }\n}\n"@
    }
}

impl FragmentSpec {
    /// The whole generated source: the builder type, the block with its
    /// setters and its completing call, and the block with the factory
    /// method.
    pub open spec fn text(self) -> Seq<char> {
        self.builder_type.text() + "\nimpl "@ + self.builder_type.name + " {\n"@ + concat_texts(
            self.setters,
            |s: SetterSpec| s.text(),
        ) + self.build.text() + "}\n\n"@ + self.factory.text()
    }
}

impl Slot {
    /// Writes the slot as a field of the builder type.
    pub fn render(&self) -> (out: String)
        ensures
            out@ == self@.text(),
    {
        let mut out = String::from_str("    ");
        out.append(self.name.as_str());
        out.append(": Option<");
        out.append(self.held_type.as_str());
        out.append(">,\n");
        out
    }
}

impl BuilderType {
    /// Writes the definition of the builder type.
    pub fn render(&self) -> (out: String)
        ensures
            out@ == self@.text(),
    {
        let mut out = String::from_str("pub struct ");
        out.append(self.name.as_str());
        out.append(" {\n");
        let ghost head = out@;
        let ghost line = |s: SlotSpec| s.text();
        let mut i: usize = 0;
        while i < self.slots.len()
            invariant
                i <= self.slots.len(),
                self@.slots.len() == self.slots.len(),
                line == |s: SlotSpec| s.text(),
                out@ == head + concat_texts(self@.slots.take(i as int), line),
            decreases self.slots.len() - i,
        {
            let text = self.slots[i].render();
            out.append(text.as_str());
            proof {
                lemma_concat_next(self@.slots, line, i as int);
                assert(self@.slots[i as int] == self.slots[i as int]@);
            }
            i += 1;
        }
        out.append("}\n");
        assert(self@.slots.take(i as int) =~= self@.slots);
        out
    }
}

impl Setter {
    /// Writes the setter as a method of the builder type.
    pub fn render(&self) -> (out: String)
        ensures
            out@ == self@.text(),
    {
        let mut out = String::from_str("    pub fn ");
        out.append(self.field.as_str());
        out.append("(&mut self, ");
        out.append(self.field.as_str());
        out.append(": ");
        out.append(self.value_type.as_str());
        out.append(") -> &mut Self {\n        self.");
        out.append(self.field.as_str());
        out.append(" = Some(");
        out.append(self.field.as_str());
        out.append(");\n        self\n    }\n\n");
        out
    }
}

/// Appends the slot check for the field `name`.
fn push_check(out: &mut String, name: &String)
    ensures
        final(out)@ == old(out)@ + check_text(name@),
{
    out.append("        if self.");
    out.append(name.as_str());
    out.append(".is_none() {\n            missing.push(\"");
    out.append(name.as_str());
    out.append("\");\n        }\n");
    assert(out@ =~= old(out)@ + check_text(name@));
}

/// Appends the initializer that takes the value of the field `name`.
fn push_take(out: &mut String, name: &String)
    ensures
        final(out)@ == old(out)@ + take_text(name@),
{
    out.append("            ");
    out.append(name.as_str());
    out.append(": self.");
    out.append(name.as_str());
    out.append(".clone().unwrap(),\n");
    assert(out@ =~= old(out)@ + take_text(name@));
}

/// Appends the initializer that leaves the slot `name` absent.
fn push_absent(out: &mut String, name: &String)
    ensures
        final(out)@ == old(out)@ + absent_text(name@),
{
    out.append("            ");
    out.append(name.as_str());
    out.append(": None,\n");
    assert(out@ =~= old(out)@ + absent_text(name@));
}

impl BuildMethod {
    /// Writes the completing call as a method of the builder type.
    pub fn render(&self) -> (out: String)
        ensures
            out@ == self@.text(),
    {
        let mut out = String::from_str("    pub fn build(&self) -> Result<");
        out.append(self.target.as_str());
        out.append(
            ", Box<dyn std::error::Error>> {\n        #[allow(unused_mut)]\n        let mut missing: Vec<&str> = Vec::new();\n",
        );
        let ghost head = out@;
        let ghost check = |name: Seq<char>| check_text(name);
        let mut i: usize = 0;
        while i < self.fields.len()
            invariant
                i <= self.fields.len(),
                self@.fields.len() == self.fields.len(),
                check == |name: Seq<char>| check_text(name),
                out@ == head + concat_texts(self@.fields.take(i as int), check),
            decreases self.fields.len() - i,
        {
            push_check(&mut out, &self.fields[i]);
            proof {
                lemma_concat_next(self@.fields, check, i as int);
                assert(self@.fields[i as int] == self.fields[i as int]@);
            }
            i += 1;
        }
        assert(self@.fields.take(i as int) =~= self@.fields);
        out.append(
            "        if !missing.is_empty() {\n            return Err(format!(\"missing fields: {}\", missing.join(\", \")).into());\n        }\n        Ok(",
        );
        out.append(self.target.as_str());
        out.append(" {\n");
        let ghost middle = out@;
        let ghost take = |name: Seq<char>| take_text(name);
        let mut j: usize = 0;
        while j < self.fields.len()
            invariant
                j <= self.fields.len(),
                self@.fields.len() == self.fields.len(),
                take == |name: Seq<char>| take_text(name),
                out@ == middle + concat_texts(self@.fields.take(j as int), take),
            decreases self.fields.len() - j,
        {
            push_take(&mut out, &self.fields[j]);
            proof {
                lemma_concat_next(self@.fields, take, j as int);
                assert(self@.fields[j as int] == self.fields[j as int]@);
            }
            j += 1;
        }
        assert(self@.fields.take(j as int) =~= self@.fields);
        out.append("        })\n    }\n");
        assert(out@ =~= self@.text());
        out
    }
}

impl Factory {
    /// Writes the block that adds the factory method to the record type.
    pub fn render(&self) -> (out: String)
        ensures
            out@ == self@.text(),
    {
        let mut out = String::from_str("impl ");
        out.append(self.target.as_str());
        out.append(" {\n    pub fn builder() -> ");
        out.append(self.builder.as_str());
        out.append(" {\n        ");
        out.append(self.builder.as_str());
        out.append(" {\n");
        let ghost head = out@;
        let ghost absent = |name: Seq<char>| absent_text(name);
        let mut i: usize = 0;
        while i < self.absent.len()
            invariant
                i <= self.absent.len(),
                self@.absent.len() == self.absent.len(),
                absent == |name: Seq<char>| absent_text(name),
                out@ == head + concat_texts(self@.absent.take(i as int), absent),
            decreases self.absent.len() - i,
        {
            push_absent(&mut out, &self.absent[i]);
            proof {
                lemma_concat_next(self@.absent, absent, i as int);
                assert(self@.absent[i as int] == self.absent[i as int]@);
            }
            i += 1;
        }
        assert(self@.absent.take(i as int) =~= self@.absent);
        out.append("        }\n    }\n}\n");
        assert(out@ =~= self@.text());
        out
    }
}

impl GeneratedFragment {
    /// Writes the whole generated source.
    pub fn render(&self) -> (out: String)
        ensures
            out@ == self@.text(),
    {
        let mut out = self.builder_type.render();
        out.append("\nimpl ");
        out.append(self.builder_type.name.as_str());
        out.append(" {\n");
        let ghost head = out@;
        let ghost line = |s: SetterSpec| s.text();
        let mut i: usize = 0;
        while i < self.setters.len()
            invariant
                i <= self.setters.len(),
                self@.setters.len() == self.setters.len(),
                line == |s: SetterSpec| s.text(),
                out@ == head + concat_texts(self@.setters.take(i as int), line),
            decreases self.setters.len() - i,
        {
            let text = self.setters[i].render();
            out.append(text.as_str());
            proof {
                lemma_concat_next(self@.setters, line, i as int);
                assert(self@.setters[i as int] == self.setters[i as int]@);
            }
            i += 1;
        }
        assert(self@.setters.take(i as int) =~= self@.setters);
        let build = self.build.render();
        out.append(build.as_str());
        out.append("}\n\n");
        let factory = self.factory.render();
        out.append(factory.as_str());
        assert(out@ =~= self@.text());
        out
    }
}

} // verus!

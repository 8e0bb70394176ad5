//! Builder generation for record types.
//!
//! A record definition is reduced to a [`descriptor::StructDescriptor`], from
//! which the companion builder type, its setters, its completing call and the
//! factory method are synthesized; [`state::BuilderState`] says what the
//! generated builder does when it runs.
//!
//! Type parameters of a record are not carried over, so generic records are
//! not supported; and a builder checks that each field is present, never
//! what its value is.

pub mod descriptor;
pub mod fragment;
pub mod laws;
pub mod render;
pub mod state;
pub mod syntax;

use crate::descriptor::{extract, RawDefinition, ShapeDiagnostic};
use crate::fragment::{generate, GeneratedFragment};
use crate::syntax::{declared, read_definition};
use vstd::prelude::*;

verus! {

/// Generates the builder of a raw definition.
///
/// A record whose fields are all named, each name once, gets its four
/// generated pieces; for any other definition nothing is generated and the
/// shape diagnostic is returned, anchored at the type.
pub fn expand(raw: &RawDefinition) -> (out: Result<GeneratedFragment, ShapeDiagnostic>)
    ensures
        match out {
            Ok(fragment) => raw@.is_record() && fragment@ == raw@.described().fragment(),
            Err(diag) => !raw@.is_record() && diag@ == raw@.name,
        },
{
    match extract(raw) {
        Ok(descriptor) => Ok(generate(&descriptor)),
        Err(diag) => Err(diag),
    }
}

/// Generates the builder of the type that a syntax tree defines: what
/// [`expand`] gives for the definition that the tree holds.
pub fn derive(ast: &syn::DeriveInput) -> (out: Result<GeneratedFragment, ShapeDiagnostic>)
    ensures
        match out {
            Ok(fragment) => declared(*ast).is_record() && fragment@ == declared(
                *ast,
            ).described().fragment(),
            Err(diag) => !declared(*ast).is_record() && diag@ == declared(*ast).name,
        },
{
    let raw = read_definition(ast);
    expand(&raw)
}

} // verus!

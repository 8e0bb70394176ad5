//! Reading a parsed type definition.
//!
//! The syntax tree of a definition is a value of `syn::DeriveInput`. Nothing
//! inside it is visible to the verifier: what it holds is named here by three
//! uninterpreted functions, and the accessors below are believed to return
//! what those names stand for. [`read_definition`] is proved against them.

use crate::descriptor::{RawDefinition, RawField, RawFieldSpec, RawSpec, Shape};
use vstd::prelude::*;

verus! {

/// `syn::DeriveInput`, the syntax tree of one type definition: carried
/// through as it is, never looked into.
#[verifier::external_type_specification]
#[verifier::external_body]
pub struct ExDeriveInput(syn::DeriveInput);

/// The identifier of the defined type, as `proc_macro2::Ident` displays it.
pub uninterp spec fn declared_name(ast: syn::DeriveInput) -> Seq<char>;

/// The layout of the definition: which variant of `syn::Data` it is and, for a
/// struct, which variant of `syn::Fields`.
pub uninterp spec fn declared_shape(ast: syn::DeriveInput) -> Shape;

/// The fields that `syn::Fields::iter` yields for a struct, in that order,
/// each with its identifier (if it has one) and the tokens of its type as
/// text. An enum or a union has no `syn::Fields` of its own: the list is empty.
pub uninterp spec fn declared_fields(ast: syn::DeriveInput) -> Seq<RawFieldSpec>;

/// Displays `DeriveInput::ident`.
///
/// Believed: the text is the identifier that the definition declares.
#[verifier::external_body]
fn name_of(ast: &syn::DeriveInput) -> (out: String)
    ensures
        out@ == declared_name(*ast),
{
    ast.ident.to_string()
}

/// Tells the variants of `syn::Data` and of `syn::Fields` apart.
///
/// Believed: the result is the variant found, nothing else.
#[verifier::external_body]
fn shape_of(ast: &syn::DeriveInput) -> (out: Shape)
    ensures
        out == declared_shape(*ast),
{
    match &ast.data {
        syn::Data::Struct(body) => match &body.fields {
            syn::Fields::Named(_) => Shape::Record,
            syn::Fields::Unnamed(_) => Shape::Tuple,
            syn::Fields::Unit => Shape::Unit,
        },
        syn::Data::Enum(_) => Shape::Enumeration,
        syn::Data::Union(_) => Shape::Union,
    }
}

/// Displays `Field::ident` of the field that `syn::Fields::iter` yields at
/// `index`.
///
/// Believed: the text is that field's identifier; there is none where the
/// field has no identifier or the struct has no field at `index`.
#[verifier::external_body]
fn field_name_at(ast: &syn::DeriveInput, index: usize) -> (out: Option<String>)
    ensures
        index < declared_fields(*ast).len() ==> match out {
            Some(name) => declared_fields(*ast)[index as int].name == Some(name@),
            None => declared_fields(*ast)[index as int].name is None,
        },
        index >= declared_fields(*ast).len() ==> out is None,
{
    match &ast.data {
        syn::Data::Struct(body) => body.fields.iter().nth(index).and_then(
            |field| field.ident.as_ref().map(|ident| ident.to_string()),
        ),
        _ => None,
    }
}

/// Displays the tokens that `quote::ToTokens::to_token_stream` gives for
/// `Field::ty` of the field that `syn::Fields::iter` yields at `index`.
///
/// Believed: the text is that field's declared type, token for token; there
/// is none exactly where the struct has no field at `index`.
#[verifier::external_body]
fn field_type_at(ast: &syn::DeriveInput, index: usize) -> (out: Option<String>)
    ensures
        match out {
            Some(text) => index < declared_fields(*ast).len() && declared_fields(
                *ast,
            )[index as int].declared_type == text@,
            None => index >= declared_fields(*ast).len(),
        },
{
    match &ast.data {
        syn::Data::Struct(body) => body.fields.iter().nth(index).map(
            |field| quote::ToTokens::to_token_stream(&field.ty).to_string(),
        ),
        _ => None,
    }
}

/// What a syntax tree holds, as a raw definition.
pub open spec fn declared(ast: syn::DeriveInput) -> RawSpec {
    RawSpec {
        name: declared_name(ast),
        shape: declared_shape(ast),
        fields: declared_fields(ast),
    }
}

/// Copies the name, the shape and every field out of a syntax tree.
pub fn read_definition(ast: &syn::DeriveInput) -> (raw: RawDefinition)
    ensures
        raw@ == declared(*ast),
{
    let name = name_of(ast);
    let shape = shape_of(ast);
    let mut fields: Vec<RawField> = Vec::new();
    loop
        invariant
            fields.len() <= declared_fields(*ast).len(),
            forall|k: int|
                0 <= k < fields.len() ==> (#[trigger] fields[k])@ == declared_fields(*ast)[k],
        ensures
            fields.len() == declared_fields(*ast).len(),
            forall|k: int|
                0 <= k < fields.len() ==> (#[trigger] fields[k])@ == declared_fields(*ast)[k],
        decreases declared_fields(*ast).len() - fields.len(),
    {
        let index: usize = fields.len();
        match field_type_at(ast, index) {
            None => {
                break ;
            },
            Some(declared_type) => {
                let name = field_name_at(ast, index);
                fields.push(RawField { name, declared_type });
            },
        }
    }
    let raw = RawDefinition { name, shape, fields };
    assert(raw@.fields =~= declared_fields(*ast));
    raw
}

} // verus!

//! Calls into the Rust lexer and parser.
//!
//! Both calls go through `proc_macro2`, which works on its own inside an
//! ordinary program and hands the work to the compiler inside a procedural
//! macro. Nothing here says that the two agree, so nothing is claimed of
//! what comes back: the callers state what holds whatever it is.

use vstd::prelude::*;

verus! {

#[verifier::external_type_specification]
#[verifier::external_body]
pub struct ExItem(syn::Item);

#[verifier::external_type_specification]
#[verifier::external_body]
pub struct ExError(syn::Error);

/// Writes `value` as a string literal.
///
/// Trusted: calls `proc_macro2::Literal::string` and prints the literal it
/// gives. Nothing is claimed of the text.
#[verifier::external_body]
pub(crate) fn string_literal(value: &str) -> (text: String) {
    proc_macro2::Literal::string(value).to_string()
}

/// Parses `tokens` as one item.
///
/// Trusted: calls `syn::parse_str` for `syn::Item`. Nothing is claimed of
/// the outcome.
#[verifier::external_body]
pub(crate) fn parse_item(tokens: &str) -> (parsed: Result<syn::Item, syn::Error>) {
    syn::parse_str::<syn::Item>(tokens)
}

} // verus!

//! What only the host language's own parser can say of a piece of source
//! text: the value of a string literal, and whether a text is an expression or
//! a visibility.

use vstd::prelude::*;

verus! {

/// The value of the string literal that `text` is, with its escapes resolved,
/// or `None` where `text` is not one string literal.
pub uninterp spec fn string_literal(text: Seq<char>) -> Option<Seq<char>>;

/// Whether `text` is one expression of the host language.
pub uninterp spec fn expression(text: Seq<char>) -> bool;

/// Whether `text` is one visibility of the host language.
pub uninterp spec fn visibility(text: Seq<char>) -> bool;

/// Parses `text` with `syn::parse_str` as a `syn::LitStr` and takes its
/// `value()`. The contract names the result and claims nothing else of it.
#[verifier::external_body]
pub(crate) fn string_literal_value(text: &str) -> (r: Option<String>)
    ensures
        match string_literal(text@) {
            Some(value) => r matches Some(s) && s@ == value,
            None => r is None,
        },
{
    syn::parse_str::<syn::LitStr>(text).ok().map(|lit| lit.value())
}

/// Whether `syn::parse_str` accepts `text` as a `syn::Expr`. The contract
/// names the result and claims nothing else of it.
#[verifier::external_body]
pub(crate) fn is_expression(text: &str) -> (r: bool)
    ensures
        r == expression(text@),
{
    syn::parse_str::<syn::Expr>(text).is_ok()
}

/// Whether `syn::parse_str` accepts `text` as a `syn::Visibility`. The
/// contract names the result and claims nothing else of it.
#[verifier::external_body]
pub(crate) fn is_visibility(text: &str) -> (r: bool)
    ensures
        r == visibility(text@),
{
    syn::parse_str::<syn::Visibility>(text).is_ok()
}

} // verus!

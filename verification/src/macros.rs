//! The macros of the library, one function for each: from what a macro is
//! given to what it has to generate.

use vstd::prelude::*;
use crate::attr_impl::{docs_const_impl, docs_const_outcome, DocsConst};
use crate::customise::{customised_tokens, Customisations, Profile};
use crate::derive_impl::{
    documented_fields_impl,
    documented_impl,
    documented_outcome,
    documented_variants_impl,
    is_fields_outcome,
    is_variants_outcome,
    DocumentedImpl,
    FieldsImpl,
    VariantsImpl,
};
use crate::docs::DocType;
use crate::error::BuildError;
use crate::model::{DeriveInput, Item};
use crate::token::{token_views, Token};

verus! {

/// The derive macro `Documented`: the documentation of the type is
/// required.
pub fn documented(input: &DeriveInput) -> (r: Result<DocumentedImpl, BuildError>)
    ensures
        match documented_outcome(*input, DocType::Str) {
            Ok(out) => r matches Ok(o) && o@ == out,
            Err(e) => r matches Err(err) && err@ == e,
        },
{
    documented_impl(input, DocType::Str)
}

/// The derive macro `DocumentedOpt`: the documentation of the type is
/// optional.
pub fn documented_opt(input: &DeriveInput) -> (r: Result<DocumentedImpl, BuildError>)
    ensures
        match documented_outcome(*input, DocType::OptStr) {
            Ok(out) => r matches Ok(o) && o@ == out,
            Err(e) => r matches Err(err) && err@ == e,
        },
{
    documented_impl(input, DocType::OptStr)
}

/// The derive macro `DocumentedFields`: the documentation of every member
/// is required.
pub fn documented_fields(input: &DeriveInput) -> (r: Result<FieldsImpl, BuildError>)
    ensures
        is_fields_outcome(*input, DocType::Str, r),
{
    documented_fields_impl(input, DocType::Str)
}

/// The derive macro `DocumentedFieldsOpt`: the documentation of the members
/// is optional.
pub fn documented_fields_opt(input: &DeriveInput) -> (r: Result<FieldsImpl, BuildError>)
    ensures
        is_fields_outcome(*input, DocType::OptStr, r),
{
    documented_fields_impl(input, DocType::OptStr)
}

/// The derive macro `DocumentedVariants`: the documentation of every
/// variant is required.
pub fn documented_variants(input: &DeriveInput) -> (r: Result<VariantsImpl, BuildError>)
    ensures
        is_variants_outcome(*input, DocType::Str, r),
{
    documented_variants_impl(input, DocType::Str)
}

/// The derive macro `DocumentedVariantsOpt`: the documentation of the
/// variants is optional.
pub fn documented_variants_opt(input: &DeriveInput) -> (r: Result<VariantsImpl, BuildError>)
    ensures
        is_variants_outcome(*input, DocType::OptStr, r),
{
    documented_variants_impl(input, DocType::OptStr)
}

/// The attribute macro `docs_const`: `attr` holds the tokens of its option
/// list, `item` is the item that it stands on.
pub fn docs_const(attr: &Vec<Token>, item: &Item) -> (r: Result<DocsConst, BuildError>)
    ensures
        match customised_tokens(token_views(attr@), Profile::of_attr()) {
            Err(e) => r matches Err(err) && err@ == e,
            Ok(c) => match docs_const_outcome(*item, c) {
                Ok(out) => r matches Ok(o) && o@ == out,
                Err(e) => r matches Err(err) && err@ == e,
            },
        },
{
    match Customisations::parse(attr, &Profile::attr()) {
        Err(e) => Err(e),
        Ok(customisations) => docs_const_impl(item, customisations),
    }
}

} // verus!

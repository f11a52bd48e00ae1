//! Letter cases: how a name is rewritten to another case.

use vstd::prelude::*;
use crate::customise::{mode_view, RenameMode, RenameModeView};
use crate::option::Case;
use crate::text::text_view;

verus! {

broadcast use vstd::string::group_string_axioms;

/// The name `name` rewritten in the case `case`.
pub uninterp spec fn case_converted(name: Seq<char>, case: Case) -> Seq<char>;

/// Rewrites `name` with `convert_case::Casing::to_case`, in the case of
/// `convert_case` that bears the same name. The contract names the result
/// and claims nothing else of it.
#[verifier::external_body]
pub(crate) fn convert_name(name: &str, case: Case) -> (r: String)
    ensures
        r@ == case_converted(name@, case),
{
    let target = match case {
        Case::Lower => convert_case::Case::Lower,
        Case::Upper => convert_case::Case::Upper,
        Case::Pascal => convert_case::Case::Pascal,
        Case::Camel => convert_case::Case::Camel,
        Case::Snake => convert_case::Case::Snake,
        Case::UpperSnake => convert_case::Case::UpperSnake,
        Case::Kebab => convert_case::Case::Kebab,
        Case::UpperKebab => convert_case::Case::UpperKebab,
    };
    convert_case::Casing::to_case(&name, target)
}

/// The name `name` rewritten in the case `case`.
pub fn to_case(name: &str, case: Case) -> (r: String)
    ensures
        r@ == case_converted(name@, case),
{
    convert_name(name, case)
}

/// The name under which a member is exposed: its custom name where it has
/// one; else its own name, in `converted` form where a case rule holds;
/// without a name of its own and without a custom one it has none.
pub open spec fn exposed_name(
    ident: Option<Seq<char>>,
    mode: Option<RenameModeView>,
    converted: Option<Seq<char>>,
) -> Option<Seq<char>> {
    match mode {
        Some(RenameModeView::Custom(name)) => Some(name),
        Some(RenameModeView::ToCase(_)) => if ident is Some {
            converted
        } else {
            None
        },
        None => ident,
    }
}

/// The name of `ident` in the case that `mode` asks for, if it asks for
/// one.
pub open spec fn converted_name(ident: Option<Seq<char>>, mode: Option<RenameModeView>) -> Option<
    Seq<char>,
> {
    match (ident, mode) {
        (Some(name), Some(RenameModeView::ToCase(case))) => Some(case_converted(name, case)),
        _ => None,
    }
}

/// The name under which a member named `ident` is exposed under the rename
/// mode `mode`.
pub open spec fn member_name(ident: Option<Seq<char>>, mode: Option<RenameModeView>) -> Option<
    Seq<char>,
> {
    exposed_name(ident, mode, converted_name(ident, mode))
}

/// Picks the name under which a member is exposed, given its own name in
/// the case of the rule, where there is a rule and a name.
pub fn pick_exposed_name(
    ident: &Option<String>,
    mode: &Option<RenameMode>,
    converted: Option<String>,
) -> (r: Option<String>)
    ensures
        text_view(r) == exposed_name(text_view(*ident), mode_view(*mode), text_view(converted)),
{
    match mode {
        Some(RenameMode::Custom(name)) => Some(name.clone()),
        Some(RenameMode::ToCase(_)) => match ident {
            Some(_) => converted,
            None => None,
        },
        None => match ident {
            Some(name) => Some(name.clone()),
            None => None,
        },
    }
}

/// The name under which a member named `ident` is exposed under the rename
/// mode `mode`.
pub fn resolve_member_name(ident: &Option<String>, mode: &Option<RenameMode>) -> (r: Option<
    String,
>)
    ensures
        text_view(r) == member_name(text_view(*ident), mode_view(*mode)),
{
    let converted = match (ident, mode) {
        (Some(name), Some(RenameMode::ToCase(case))) => Some(to_case(name.as_str(), *case)),
        _ => None,
    };
    pick_exposed_name(ident, mode, converted)
}

} // verus!

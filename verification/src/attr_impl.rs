//! The attribute macro, as a function from an item and its customisations
//! to the constant to generate.

use vstd::prelude::*;
use crate::case::{case_converted, to_case};
use crate::config::{AttrConfig, AttrConfigView};
use crate::customise::{Customisations, CustomisationsView};
use crate::docs::{substituted, DocType, Docs, DocsView};
use crate::error::{BuildError, DiagnosticView, Location, Place};
use crate::model::Item;
use crate::option::{Case, Visibility};
use crate::text::text_view;
use crate::util::{documentation, get_docs, get_vis_name_attrs, vis_and_name};

verus! {

broadcast use vstd::string::group_string_axioms;

/// The constant to generate beside a documented item.
#[derive(Clone, Debug, PartialEq, Eq)]
pub struct DocsConst {
    /// The visibility of the constant.
    pub vis: Visibility,
    /// The name of the constant.
    pub name: String,
    /// The documentation that it holds.
    pub docs: Docs,
}

/// What a [`DocsConst`] holds, with its texts as sequences of characters.
pub struct DocsConstView {
    pub vis: Seq<char>,
    pub name: Seq<char>,
    pub docs: DocsView,
}

impl View for DocsConst {
    type V = DocsConstView;

    open spec fn view(&self) -> DocsConstView {
        DocsConstView { vis: self.vis@, name: self.name@, docs: self.docs@ }
    }
}

/// The name of the constant: the custom name where there is one, else the
/// name of the item in upper snake case, given as `converted`, and `_DOCS`.
pub open spec fn const_name(custom: Option<Seq<char>>, converted: Seq<char>) -> Seq<char> {
    match custom {
        Some(name) => name,
        None => converted + "_DOCS"@,
    }
}

/// Picks the name of the constant, given the name of the item in upper
/// snake case.
pub fn pick_const_name(custom: Option<String>, converted: String) -> (r: String)
    ensures
        r@ == const_name(text_view(custom), converted@),
{
    match custom {
        Some(name) => name,
        None => {
            let mut name = converted;
            name.append("_DOCS");
            name
        },
    }
}

/// What the attribute macro makes of `item` under the customisations `c`.
pub open spec fn docs_const_outcome(item: Item, c: CustomisationsView) -> Result<
    DocsConstView,
    Seq<DiagnosticView>,
> {
    let config = AttrConfigView::initial().with(c);
    match vis_and_name(item) {
        Err(e) => Err(e),
        Ok((item_vis, item_name)) => match documentation(item.attrs@, config.trim) {
            Err(e) => Err(e),
            Ok(docs) => match substituted(
                DocType::Str,
                docs,
                config.default_value,
                Location { member: None, place: Place::Declaration },
            ) {
                Err(e) => Err(e),
                Ok(docs) => Ok(
                    DocsConstView {
                        vis: match config.custom_vis {
                            Some(vis) => vis,
                            None => item_vis,
                        },
                        name: const_name(
                            config.custom_name,
                            case_converted(item_name, Case::UpperSnake),
                        ),
                        docs,
                    },
                ),
            },
        },
    }
}

/// Makes the constant that holds the documentation of `item`.
///
/// The constant takes the customised visibility and name where there are
/// such; else the visibility of the item and its name in upper snake case
/// with `_DOCS` behind it. It holds the doc comments of the item, or the
/// default where there are none; without either, the item is refused.
pub fn docs_const_impl(item: &Item, customisations: Customisations) -> (r: Result<
    DocsConst,
    BuildError,
>)
    ensures
        match docs_const_outcome(*item, customisations@) {
            Ok(out) => r matches Ok(o) && o@ == out,
            Err(e) => r matches Err(err) && err@ == e,
        },
{
    let config = AttrConfig::default().with_customisations(customisations);
    let (item_vis, item_name, attrs) = match get_vis_name_attrs(item) {
        Ok(found) => found,
        Err(e) => {
            return Err(e);
        },
    };
    let docs_opt = match get_docs(attrs, config.trim) {
        Ok(docs_opt) => docs_opt,
        Err(e) => {
            return Err(e);
        },
    };
    let AttrConfig { custom_vis, custom_name, default_value, trim: _ } = config;
    let here = Location::declaration();
    let docs = match DocType::Str.docs_handler_opt(docs_opt, default_value, here) {
        Ok(docs) => docs,
        Err(e) => {
            return Err(e);
        },
    };
    let vis = match custom_vis {
        Some(vis) => vis,
        None => item_vis,
    };
    let name = pick_const_name(custom_name, to_case(item_name.as_str(), Case::UpperSnake));
    Ok(DocsConst { vis, name, docs })
}

} // verus!

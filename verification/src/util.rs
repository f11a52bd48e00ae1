//! What is read off a declaration before anything is resolved: its doc
//! comments, and its visibility and name.

use vstd::prelude::*;
use crate::error::{single_error, BuildError, DiagnosticView, ErrorKind, Location, Place};
use crate::message;
use crate::model::{AttrValue, Attribute, Item, ItemKind, Meta};
use crate::option::Visibility;
use crate::text::{normalize, normalized, views};

verus! {

broadcast use vstd::string::group_string_axioms;

/// The path under which generated code finds this library.
pub fn crate_module_path() -> (r: &'static str)
    ensures
        r@ == "::documented"@,
{
    "::documented"
}

/// The fragments of documentation among the first `n` attributes, in order:
/// the values of the attributes of the form `doc = value`. A value that is
/// no string literal is an error at its attribute.
pub open spec fn doc_fragments(attrs: Seq<Attribute>, n: int) -> Result<
    Seq<Seq<char>>,
    Seq<DiagnosticView>,
>
    decreases n,
{
    if n <= 0 || n > attrs.len() {
        Ok(Seq::<Seq<char>>::empty())
    } else {
        match doc_fragments(attrs, n - 1) {
            Err(e) => Err(e),
            Ok(before) => {
                let attr = attrs[n - 1];
                match attr.meta {
                    Meta::NameValue(value) => if attr.named("doc"@) {
                        match value {
                            AttrValue::Str(text) => Ok(before.push(text@)),
                            AttrValue::Other => Err(
                                single_error(
                                    ErrorKind::MalformedValue,
                                    Location {
                                        member: None,
                                        place: Place::Attribute((n - 1) as usize),
                                    },
                                    message::DOC_NOT_STRING@,
                                ),
                            ),
                        }
                    } else {
                        Ok(before)
                    },
                    _ => Ok(before),
                }
            },
        }
    }
}

/// The documentation text of a declaration with the attributes `attrs`, or
/// `None` where it has no doc comments.
pub open spec fn documentation(attrs: Seq<Attribute>, trim: bool) -> Result<
    Option<Seq<char>>,
    Seq<DiagnosticView>,
> {
    match doc_fragments(attrs, attrs.len() as int) {
        Err(e) => Err(e),
        Ok(fragments) => Ok(normalized(fragments, trim)),
    }
}

proof fn lemma_doc_fragments_error_stays(attrs: Seq<Attribute>, n: int, m: int)
    requires
        0 <= n <= m <= attrs.len(),
        doc_fragments(attrs, n) is Err,
    ensures
        doc_fragments(attrs, m) == doc_fragments(attrs, n),
    decreases m - n,
{
    if n < m {
        lemma_doc_fragments_error_stays(attrs, n, m - 1);
    }
}

/// Reads the doc comments of a declaration off its attributes and joins
/// them into its documentation text; `None` where it has none.
pub fn get_docs(attrs: &Vec<Attribute>, trim: bool) -> (r: Result<Option<String>, BuildError>)
    ensures
        match documentation(attrs@, trim) {
            Ok(Some(text)) => r matches Ok(Some(s)) && s@ == text,
            Ok(None) => r matches Ok(None),
            Err(e) => r matches Err(err) && err@ == e,
        },
{
    let mut string_literals: Vec<String> = Vec::new();
    let mut i: usize = 0;
    assert(views(string_literals@) =~= Seq::<Seq<char>>::empty());
    while i < attrs.len()
        invariant
            i <= attrs.len(),
            doc_fragments(attrs@, i as int) == Ok::<Seq<Seq<char>>, Seq<DiagnosticView>>(
                views(string_literals@),
            ),
        decreases attrs.len() - i,
    {
        let attr = &attrs[i];
        match &attr.meta {
            Meta::NameValue(value) => {
                if attr.is_ident("doc") {
                    match value {
                        AttrValue::Str(text) => {
                            let ghost before = views(string_literals@);
                            string_literals.push(text.clone());
                            assert(views(string_literals@) =~= before.push(text@));
                        },
                        AttrValue::Other => {
                            proof {
                                lemma_doc_fragments_error_stays(
                                    attrs@,
                                    i + 1,
                                    attrs.len() as int,
                                );
                            }
                            return Err(
                                BuildError::new(
                                    ErrorKind::MalformedValue,
                                    Location::attribute(i),
                                    message::DOC_NOT_STRING,
                                ),
                            );
                        },
                    }
                }
            },
            _ => {},
        }
        i += 1;
    }
    Ok(normalize(&string_literals, trim))
}

/// Whether items of the kind carry a visibility and a name of their own.
pub open spec fn is_named_kind(kind: ItemKind) -> bool {
    match kind {
        ItemKind::Const
        | ItemKind::Enum
        | ItemKind::ExternCrate
        | ItemKind::Fn
        | ItemKind::Mod
        | ItemKind::Static
        | ItemKind::Struct
        | ItemKind::Trait
        | ItemKind::TraitAlias
        | ItemKind::Type
        | ItemKind::Union => true,
        _ => false,
    }
}

/// The message for an item that cannot carry documentation.
pub open spec fn unsupported_item_message(kind: ItemKind) -> Seq<char> {
    match kind {
        ItemKind::Macro => message::NO_DOCS_ON_MACRO@,
        ItemKind::ForeignMod
        | ItemKind::Impl
        | ItemKind::Use => message::NO_DOCS_ON_ITEM@,
        ItemKind::Verbatim => message::NO_DOCS_ON_VERBATIM@,
        _ => message::UNKNOWN_ITEM@,
    }
}

/// The visibility and the name of an item: those that it carries where it is
/// of a kind that has both; for a macro with a name, the inherited
/// visibility and that name. Every other item is refused.
pub open spec fn vis_and_name(item: Item) -> Result<(Seq<char>, Seq<char>), Seq<DiagnosticView>> {
    if item.ident is Some && is_named_kind(item.kind) {
        Ok((item.vis@, item.ident->0@))
    } else if item.ident is Some && item.kind == ItemKind::Macro {
        Ok((Seq::<char>::empty(), item.ident->0@))
    } else {
        Err(
            single_error(
                ErrorKind::StructuralMismatch,
                Location { member: None, place: Place::Declaration },
                unsupported_item_message(item.kind),
            ),
        )
    }
}

/// Gives the visibility, the name and the attributes of an item that can
/// carry documentation, and refuses every other item.
pub fn get_vis_name_attrs(item: &Item) -> (r: Result<
    (Visibility, String, &Vec<Attribute>),
    BuildError,
>)
    ensures
        match vis_and_name(*item) {
            Ok((vis, name)) => r matches Ok((v, n, attrs)) && v@ == vis && n@ == name && *attrs
                == item.attrs,
            Err(e) => r matches Err(err) && err@ == e,
        },
{
    let here = Location::declaration();
    match item.kind {
        ItemKind::Const
        | ItemKind::Enum
        | ItemKind::ExternCrate
        | ItemKind::Fn
        | ItemKind::Mod
        | ItemKind::Static
        | ItemKind::Struct
        | ItemKind::Trait
        | ItemKind::TraitAlias
        | ItemKind::Type
        | ItemKind::Union => match &item.ident {
            Some(ident) => Ok(
                (Visibility { text: item.vis.text.clone() }, ident.clone(), &item.attrs),
            ),
            None => Err(
                BuildError::new(
                    ErrorKind::StructuralMismatch,
                    here,
                    message::UNKNOWN_ITEM,
                ),
            ),
        },
        ItemKind::Macro => match &item.ident {
            Some(ident) => Ok((Visibility { text: String::new() }, ident.clone(), &item.attrs)),
            None => Err(
                BuildError::new(
                    ErrorKind::StructuralMismatch,
                    here,
                    message::NO_DOCS_ON_MACRO,
                ),
            ),
        },
        ItemKind::ForeignMod | ItemKind::Impl | ItemKind::Use => Err(
            BuildError::new(
                ErrorKind::StructuralMismatch,
                here,
                message::NO_DOCS_ON_ITEM,
            ),
        ),
        ItemKind::Verbatim => Err(
            BuildError::new(
                ErrorKind::StructuralMismatch,
                here,
                message::NO_DOCS_ON_VERBATIM,
            ),
        ),
        ItemKind::Unknown => Err(
            BuildError::new(
                ErrorKind::StructuralMismatch,
                here,
                message::UNKNOWN_ITEM,
            ),
        ),
    }
}

} // verus!

//! Declarations as the resolution pass reads them: what each carries of
//! attributes, names and members, in declaration order.

use vstd::prelude::*;
use crate::option::Visibility;
use crate::text::{same_text, text_view};
use crate::token::Token;

verus! {

/// The value of an attribute of the form `name = value`.
#[derive(Clone, Debug, PartialEq, Eq)]
pub enum AttrValue {
    /// A string literal, by its value.
    Str(String),
    /// Anything else.
    Other,
}

/// The three forms of an attribute.
#[derive(Clone, Debug, PartialEq, Eq)]
pub enum Meta {
    /// A bare name, as in `#[test]`.
    Path,
    /// A name and a list in parentheses, as in `#[derive(Clone)]`, with the
    /// tokens of the list.
    List(Vec<Token>),
    /// A name and a value, as in `#[doc = "..."]`.
    NameValue(AttrValue),
}

/// One attribute of a declaration or of a member.
#[derive(Clone, Debug, PartialEq, Eq)]
pub struct Attribute {
    /// The name of the attribute, as it is written.
    pub path: String,
    pub meta: Meta,
}

impl Attribute {
    /// Whether the attribute is named `name`.
    pub open spec fn named(self, name: Seq<char>) -> bool {
        self.path@ == name
    }

    /// Whether the attribute is named `name`.
    pub fn is_ident(&self, name: &str) -> (r: bool)
        ensures
            r == self.named(name@),
    {
        same_text(self.path.as_str(), name)
    }
}

/// The kinds of items that an attribute can stand on.
#[derive(Clone, Copy, Debug, PartialEq, Eq, Structural)]
pub enum ItemKind {
    Const,
    Enum,
    ExternCrate,
    Fn,
    Mod,
    Static,
    Struct,
    Trait,
    TraitAlias,
    Type,
    Union,
    Macro,
    ForeignMod,
    Impl,
    Use,
    /// Tokens that the front end could not make an item of.
    Verbatim,
    /// An item of a kind that is not among the others.
    Unknown,
}

/// An item that carries an attribute macro.
#[derive(Clone, Debug, PartialEq, Eq)]
pub struct Item {
    pub kind: ItemKind,
    /// The visibility of the item; the inherited one where the kind has
    /// none.
    pub vis: Visibility,
    /// The name of the item, where it has one.
    pub ident: Option<String>,
    pub attrs: Vec<Attribute>,
}

/// The shape of the fields of an enum variant.
#[derive(Clone, Copy, Debug, PartialEq, Eq, Structural)]
pub enum Fields {
    Named,
    Unnamed,
    Unit,
}

/// A field of a struct or of a union.
#[derive(Clone, Debug, PartialEq, Eq)]
pub struct Field {
    /// The name of the field; `None` for a positional one.
    pub ident: Option<String>,
    pub attrs: Vec<Attribute>,
}

/// A variant of an enum.
#[derive(Clone, Debug, PartialEq, Eq)]
pub struct Variant {
    pub ident: String,
    pub fields: Fields,
    pub attrs: Vec<Attribute>,
}

/// The body of a type declaration.
#[derive(Clone, Debug, PartialEq, Eq)]
pub enum Data {
    Struct(Vec<Field>),
    Enum(Vec<Variant>),
    Union(Vec<Field>),
}

impl Data {
    /// The names of the members, in declaration order: of the variants of
    /// an enum, of the fields of a struct or a union.
    pub open spec fn idents(self) -> Seq<Option<Seq<char>>> {
        match self {
            Data::Struct(fields) => fields@.map_values(|f: Field| text_view(f.ident)),
            Data::Enum(variants) => variants@.map_values(
                |v: Variant| Some::<Seq<char>>(v.ident@),
            ),
            Data::Union(fields) => fields@.map_values(|f: Field| text_view(f.ident)),
        }
    }

    /// The attributes of the members, in declaration order.
    pub open spec fn attrs(self) -> Seq<Seq<Attribute>> {
        match self {
            Data::Struct(fields) => fields@.map_values(|f: Field| f.attrs@),
            Data::Enum(variants) => variants@.map_values(|v: Variant| v.attrs@),
            Data::Union(fields) => fields@.map_values(|f: Field| f.attrs@),
        }
    }

    /// The number of members.
    pub fn len(&self) -> (r: usize)
        ensures
            r == self.idents().len(),
            r == self.attrs().len(),
    {
        match self {
            Data::Struct(fields) => fields.len(),
            Data::Enum(variants) => variants.len(),
            Data::Union(fields) => fields.len(),
        }
    }

    /// The name of the member at position `i`.
    pub(crate) fn member_ident(&self, i: usize) -> (r: Option<String>)
        requires
            i < self.idents().len(),
        ensures
            text_view(r) == self.idents()[i as int],
    {
        match self {
            Data::Struct(fields) => match &fields[i].ident {
                Some(name) => Some(name.clone()),
                None => None,
            },
            Data::Enum(variants) => Some(variants[i].ident.clone()),
            Data::Union(fields) => match &fields[i].ident {
                Some(name) => Some(name.clone()),
                None => None,
            },
        }
    }

    /// The attributes of the member at position `i`.
    pub(crate) fn member_attrs(&self, i: usize) -> (r: &Vec<Attribute>)
        requires
            i < self.attrs().len(),
        ensures
            r@ == self.attrs()[i as int],
    {
        match self {
            Data::Struct(fields) => &fields[i].attrs,
            Data::Enum(variants) => &variants[i].attrs,
            Data::Union(fields) => &fields[i].attrs,
        }
    }
}

/// A type declaration that carries a derive macro.
#[derive(Clone, Debug, PartialEq, Eq)]
pub struct DeriveInput {
    pub ident: String,
    pub attrs: Vec<Attribute>,
    pub data: Data,
}

} // verus!

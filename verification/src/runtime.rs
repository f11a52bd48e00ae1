//! What a documented type offers at run time: the traits that the macros
//! implement, and the lookup of documentation by name.

use vstd::prelude::*;
use crate::error::{Error, ErrorView};

verus! {

/// Adds an associated constant [`DOCS`](Self::DOCS) on your type containing
/// its documentation, allowing you to access its documentation at runtime.
///
/// The associated derive macro of this trait will error if the type does not
/// have any doc comments. Use [`DocumentedOpt`] if this is undesirable.
pub trait Documented {
    /// The static doc comments on this type.
    const DOCS: &'static str;
}

/// The optional variant of [`Documented`].
pub trait DocumentedOpt {
    /// The static doc comments on this type.
    const DOCS: Option<&'static str>;
}

/// What the documentation of the field at the position `index` is, where
/// `index` is what the lookup of `field_name` has given: its entry in
/// `field_docs`; an error where the lookup has given nothing, or a position
/// beyond the entries.
pub open spec fn docs_at(field_docs: Seq<&'static str>, index: Option<usize>, field_name: Seq<char>)
    -> Result<Seq<char>, ErrorView> {
    match index {
        Some(index) => if index < field_docs.len() {
            Ok(field_docs[index as int]@)
        } else {
            Err(ErrorView::NoSuchField(field_name))
        },
        None => Err(ErrorView::NoSuchField(field_name)),
    }
}

/// What the documentation of the field at the position `index` is where
/// documentation is optional: as [`docs_at`], but an entry may be empty,
/// which is an error of its own.
pub open spec fn optional_docs_at(
    field_docs: Seq<Option<&'static str>>,
    index: Option<usize>,
    field_name: Seq<char>,
) -> Result<Seq<char>, ErrorView> {
    match index {
        Some(index) => if index < field_docs.len() {
            match field_docs[index as int] {
                Some(docs) => Ok(docs@),
                None => Err(ErrorView::NoDocComments(field_name)),
            }
        } else {
            Err(ErrorView::NoSuchField(field_name))
        },
        None => Err(ErrorView::NoSuchField(field_name)),
    }
}

/// Picks the documentation of a field, given what the lookup of its name
/// has found.
pub fn pick_field_docs(
    field_docs: &'static [&'static str],
    index: Option<usize>,
    field_name: &str,
) -> (r: Result<&'static str, Error>)
    ensures
        match docs_at(field_docs@, index, field_name@) {
            Ok(docs) => r matches Ok(d) && d@ == docs,
            Err(e) => r matches Err(err) && err@ == e,
        },
{
    match index {
        Some(index) => if index < field_docs.len() {
            Ok(field_docs[index])
        } else {
            Err(Error::NoSuchField(field_name.to_owned()))
        },
        None => Err(Error::NoSuchField(field_name.to_owned())),
    }
}

/// Picks the documentation of a field where documentation is optional,
/// given what the lookup of its name has found.
pub fn pick_optional_field_docs(
    field_docs: &'static [Option<&'static str>],
    index: Option<usize>,
    field_name: &str,
) -> (r: Result<&'static str, Error>)
    ensures
        match optional_docs_at(field_docs@, index, field_name@) {
            Ok(docs) => r matches Ok(d) && d@ == docs,
            Err(e) => r matches Err(err) && err@ == e,
        },
{
    match index {
        Some(index) => if index < field_docs.len() {
            match field_docs[index] {
                Some(docs) => Ok(docs),
                None => Err(Error::NoDocComments(field_name.to_owned())),
            }
        } else {
            Err(Error::NoSuchField(field_name.to_owned()))
        },
        None => Err(Error::NoSuchField(field_name.to_owned())),
    }
}

/// Adds an associated constant [`FIELD_DOCS`](Self::FIELD_DOCS) on your type
/// containing the documentation of its fields, allowing you to access their
/// documentation at runtime.
///
/// The associated derive macro of this trait will error if any field or
/// variant does not have any doc comments. Use [`DocumentedFieldsOpt`] if
/// this is undesirable.
pub trait DocumentedFields {
    /// The static doc comments on each field or variant of this type,
    /// indexed by field/variant order.
    const FIELD_DOCS: &'static [&'static str];

    /// The position of the field or variant named `field_name`, if there is
    /// one.
    fn __documented_get_index(field_name: &str) -> Option<usize>;

    /// Get a field's documentation using its name.
    ///
    /// Note that for structs with anonymous fields (i.e. tuple structs),
    /// this method will always return [`Error::NoSuchField`]. For this case,
    /// use [`FIELD_DOCS`](Self::FIELD_DOCS) directly instead.
    fn get_field_docs(field_name: &str) -> (r: Result<&'static str, Error>)
        ensures
            r matches Ok(docs) ==> exists|index: int|
                0 <= index < Self::FIELD_DOCS@.len() && docs@ == Self::FIELD_DOCS@[index]@,
            r matches Err(e) ==> e@ == ErrorView::NoSuchField(field_name@),
    {
        pick_field_docs(Self::FIELD_DOCS, Self::__documented_get_index(field_name), field_name)
    }
}

/// The optional variant of [`DocumentedFields`].
pub trait DocumentedFieldsOpt {
    /// The static doc comments on each field or variant of this type,
    /// indexed by field/variant order.
    const FIELD_DOCS: &'static [Option<&'static str>];

    /// The position of the field or variant named `field_name`, if there is
    /// one.
    fn __documented_get_index(field_name: &str) -> Option<usize>;

    /// Get a field's documentation using its name.
    ///
    /// Note that for structs with anonymous fields (i.e. tuple structs),
    /// this method will always return [`Error::NoSuchField`]. For this case,
    /// use [`FIELD_DOCS`](Self::FIELD_DOCS) directly instead.
    fn get_field_docs(field_name: &str) -> (r: Result<&'static str, Error>)
        ensures
            r matches Ok(docs) ==> exists|index: int|
                0 <= index < Self::FIELD_DOCS@.len() && Self::FIELD_DOCS@[index] is Some
                    && docs@ == Self::FIELD_DOCS@[index]->0@,
            r matches Err(e) ==> e@ == ErrorView::NoSuchField(field_name@) || e@
                == ErrorView::NoDocComments(field_name@),
    {
        pick_optional_field_docs(
            Self::FIELD_DOCS,
            Self::__documented_get_index(field_name),
            field_name,
        )
    }
}

/// Adds an associated function
/// [`get_variant_docs`](Self::get_variant_docs) to access the documentation
/// on an enum variant.
///
/// The associated derive macro of this trait will error if any variant does
/// not have any doc comments. Use [`DocumentedVariantsOpt`] if this is
/// undesirable.
pub trait DocumentedVariants {
    /// Get the documentation on this enum variant.
    fn get_variant_docs(&self) -> &'static str;
}

/// The optional variant of [`DocumentedVariants`].
pub trait DocumentedVariantsOpt {
    /// Get the documentation on this enum variant.
    fn get_variant_docs(&self) -> Option<&'static str>;
}

} // verus!

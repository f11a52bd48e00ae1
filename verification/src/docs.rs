//! What a declaration ends up with as its documentation, and the two ways
//! of treating a declaration that has none.

use vstd::prelude::*;
use crate::error::{single_error, BuildError, DiagnosticView, ErrorKind, Location};
use crate::message;
use crate::option::{expr_view, Expr};
use crate::text::text_view;

verus! {

broadcast use vstd::string::group_string_axioms;

/// The documentation of one declaration or member.
#[derive(Clone, Debug, PartialEq, Eq)]
pub enum Docs {
    /// The text of its doc comments.
    Text(String),
    /// It has no doc comments; the configured default stands in, as it is
    /// written.
    Default(Expr),
    /// It has no doc comments and no default.
    Absent,
}

/// What a [`Docs`] holds, with its texts as sequences of characters.
pub enum DocsView {
    Text(Seq<char>),
    Default(Seq<char>),
    Absent,
}

impl View for Docs {
    type V = DocsView;

    open spec fn view(&self) -> DocsView {
        match self {
            Docs::Text(text) => DocsView::Text(text@),
            Docs::Default(expr) => DocsView::Default(expr@),
            Docs::Absent => DocsView::Absent,
        }
    }
}

impl Docs {
    /// A copy of the documentation.
    pub fn duplicate(&self) -> (r: Docs)
        ensures
            r@ == self@,
    {
        match self {
            Docs::Text(text) => Docs::Text(text.clone()),
            Docs::Default(expr) => Docs::Default(Expr { text: expr.text.clone() }),
            Docs::Absent => Docs::Absent,
        }
    }
}

/// The views of a sequence of documentation values.
pub open spec fn docs_views(docs: Seq<Docs>) -> Seq<DocsView> {
    docs.map_values(|d: Docs| d@)
}

/// The type of the doc comment.
#[derive(Clone, Copy, Debug, PartialEq, Eq, Structural)]
pub enum DocType {
    /// `&'static str`: documentation is required.
    Str,
    /// `Option<&'static str>`: documentation is optional.
    OptStr,
}

/// The documentation that doc comments and a default make together: the
/// doc comments where there are any, else the default as it is written.
/// Without either, there is none where the type is optional, and an error
/// where it is required.
pub open spec fn substituted(
    docs_ty: DocType,
    docs: Option<Seq<char>>,
    default: Option<Seq<char>>,
    location: Location,
) -> Result<DocsView, Seq<DiagnosticView>> {
    match (docs, default) {
        (Some(text), _) => Ok(DocsView::Text(text)),
        (None, Some(expr)) => Ok(DocsView::Default(expr)),
        (None, None) => match docs_ty {
            DocType::Str => Err(
                single_error(ErrorKind::MissingDocumentation, location, message::MISSING_DOCS@),
            ),
            DocType::OptStr => Ok(DocsView::Absent),
        },
    }
}

impl DocType {
    /// The type of the documentation, as it is written in the host
    /// language.
    pub open spec fn type_text(self) -> Seq<char> {
        match self {
            DocType::Str => "&'static str"@,
            DocType::OptStr => "Option<&'static str>"@,
        }
    }

    /// The name of the trait for this type of documentation, given the name
    /// of the trait for required documentation.
    pub open spec fn trait_name(self, prefix: Seq<char>) -> Seq<char> {
        match self {
            DocType::Str => prefix,
            DocType::OptStr => prefix + "Opt"@,
        }
    }

    /// The type of the documentation, as it is written in the host
    /// language.
    pub fn to_tokens(&self) -> (r: &'static str)
        ensures
            r@ == self.type_text(),
    {
        match self {
            DocType::Str => "&'static str",
            DocType::OptStr => "Option<&'static str>",
        }
    }

    /// Decides what stands for the documentation of a declaration, given
    /// its doc comments, if it has any, and the configured default, if
    /// there is one. `location` is where a missing documentation is
    /// reported.
    pub fn docs_handler_opt(
        &self,
        docs_opt: Option<String>,
        default_opt: Option<Expr>,
        location: Location,
    ) -> (r: Result<Docs, BuildError>)
        ensures
            match substituted(*self, text_view(docs_opt), expr_view(default_opt), location) {
                Ok(docs) => r matches Ok(d) && d@ == docs,
                Err(e) => r matches Err(err) && err@ == e,
            },
    {
        match (docs_opt, default_opt) {
            (Some(docs), _) => Ok(Docs::Text(docs)),
            (None, Some(default)) => Ok(Docs::Default(default)),
            (None, None) => match self {
                DocType::Str => Err(
                    BuildError::new(
                        ErrorKind::MissingDocumentation,
                        location,
                        message::MISSING_DOCS,
                    ),
                ),
                DocType::OptStr => Ok(Docs::Absent),
            },
        }
    }

    /// Get the trait identifier, given a prefix.
    pub fn trait_ident_for(&self, prefix: &str) -> (r: String)
        ensures
            r@ == self.trait_name(prefix@),
    {
        match self {
            DocType::Str => prefix.to_owned(),
            DocType::OptStr => {
                let mut name = String::from_str(prefix);
                name.append("Opt");
                name
            },
        }
    }
}

/// Where documentation is required, a declaration without doc comments and
/// without a default is an error of missing documentation; with a default,
/// the default stands for its documentation exactly as it is written.
pub proof fn law_required_documentation(default: Option<Seq<char>>, location: Location)
    ensures
        default is None ==> substituted(DocType::Str, None, default, location) == Err::<
            DocsView,
            Seq<DiagnosticView>,
        >(single_error(ErrorKind::MissingDocumentation, location, message::MISSING_DOCS@)),
        default matches Some(expr) ==> substituted(DocType::Str, None, default, location) == Ok::<
            DocsView,
            Seq<DiagnosticView>,
        >(DocsView::Default(expr)),
        default matches Some(expr) ==> substituted(DocType::OptStr, None, default, location)
            == Ok::<DocsView, Seq<DiagnosticView>>(DocsView::Default(expr)),
        default is None ==> substituted(DocType::OptStr, None, default, location) == Ok::<
            DocsView,
            Seq<DiagnosticView>,
        >(DocsView::Absent),
{
}

} // verus!

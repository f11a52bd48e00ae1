//! The derive macros, as functions from a type declaration to the
//! implementation to generate: shared by the variants for required and for
//! optional documentation.

use vstd::prelude::*;
use crate::case::{member_name, resolve_member_name};
use crate::config::{
    copy_expr,
    DeriveConfig,
    DeriveConfigView,
    DeriveFieldsConfig,
    DeriveFieldsConfigView,
};
use crate::customise::{
    attr_customisations,
    diagnostics_of,
    get_customisations_from_attrs,
    Profile,
};
use crate::docs::{docs_views, substituted, DocType, Docs, DocsView};
use crate::error::{
    in_member,
    single_error,
    BuildError,
    DiagnosticView,
    Error,
    ErrorKind,
    ErrorView,
    Location,
    Place,
};
use crate::lookup::{
    distinct_names,
    duplicate_name_error,
    first_collision,
    index_map,
    name_views,
    LookupTable,
};
use crate::message;
use crate::model::{Attribute, Data, DeriveInput, Fields, Variant};
use crate::text::text_view;
use crate::util::{documentation, get_docs};

verus! {

broadcast use vstd::string::group_string_axioms;

/// The implementation to generate for a documented type.
#[derive(Clone, Debug, PartialEq, Eq)]
pub struct DocumentedImpl {
    /// The name of the trait to implement.
    pub trait_ident: String,
    /// The name of the type.
    pub ident: String,
    /// The documentation of the type.
    pub docs: Docs,
}

/// What a [`DocumentedImpl`] holds, with its texts as sequences of characters.
pub struct DocumentedImplView {
    pub trait_ident: Seq<char>,
    pub ident: Seq<char>,
    pub docs: DocsView,
}

impl View for DocumentedImpl {
    type V = DocumentedImplView;

    open spec fn view(&self) -> DocumentedImplView {
        DocumentedImplView { trait_ident: self.trait_ident@, ident: self.ident@, docs: self.docs@ }
    }
}

/// The place of the member at position `member`.
pub open spec fn at_member(member: usize) -> Location {
    Location { member: Some(member), place: Place::Declaration }
}

/// What the derive macro for a documented type makes of `input`.
pub open spec fn documented_outcome(input: DeriveInput, docs_ty: DocType) -> Result<
    DocumentedImplView,
    Seq<DiagnosticView>,
> {
    match attr_customisations(input.attrs@, "documented"@, Profile::of_derive()) {
        Err(e) => Err(e),
        Ok(c) => {
            let config = DeriveConfigView::initial().with(c);
            match documentation(input.attrs@, config.trim) {
                Err(e) => Err(e),
                Ok(docs) => match substituted(
                    docs_ty,
                    docs,
                    config.default_value,
                    Location { member: None, place: Place::Declaration },
                ) {
                    Err(e) => Err(e),
                    Ok(docs) => Ok(
                        DocumentedImplView {
                            trait_ident: docs_ty.trait_name("Documented"@),
                            ident: input.ident@,
                            docs,
                        },
                    ),
                },
            }
        },
    }
}

/// Shared implementation of `Documented` and `DocumentedOpt`.
///
/// Resolves the options in the `documented` attributes of the type, reads
/// its doc comments with the resolved trimming, and puts the default in
/// their place where there are none.
pub fn documented_impl(input: &DeriveInput, docs_ty: DocType) -> (r: Result<
    DocumentedImpl,
    BuildError,
>)
    ensures
        match documented_outcome(*input, docs_ty) {
            Ok(out) => r matches Ok(o) && o@ == out,
            Err(e) => r matches Err(err) && err@ == e,
        },
{
    let trait_ident = docs_ty.trait_ident_for("Documented");
    let config = match get_customisations_from_attrs(
        &input.attrs,
        "documented",
        &Profile::derive(),
    ) {
        Ok(c) => DeriveConfig::default().with_customisations(c),
        Err(e) => {
            return Err(e);
        },
    };
    let docs_opt = match get_docs(&input.attrs, config.trim) {
        Ok(docs_opt) => docs_opt,
        Err(e) => {
            return Err(e);
        },
    };
    match docs_ty.docs_handler_opt(docs_opt, config.default_value, Location::declaration()) {
        Ok(docs) => Ok(DocumentedImpl { trait_ident, ident: input.ident.clone(), docs }),
        Err(e) => Err(e),
    }
}

/// What one member, at position `member`, comes to under the configuration
/// `base` of its container: its exposed name and its documentation. Errors
/// are anchored in the member.
pub open spec fn member_outcome(
    base: DeriveFieldsConfigView,
    attr_name: Seq<char>,
    profile: Profile,
    ident: Option<Seq<char>>,
    attrs: Seq<Attribute>,
    docs_ty: DocType,
    member: usize,
) -> Result<(Option<Seq<char>>, DocsView), Seq<DiagnosticView>> {
    match attr_customisations(attrs, attr_name, profile) {
        Err(e) => Err(in_member(e, member)),
        Ok(c) => {
            let config = base.with(c);
            match documentation(attrs, config.trim) {
                Err(e) => Err(in_member(e, member)),
                Ok(docs) => match substituted(
                    docs_ty,
                    docs,
                    config.default_value,
                    at_member(member),
                ) {
                    Err(e) => Err(e),
                    Ok(docs) => Ok((member_name(ident, config.rename_mode), docs)),
                },
            }
        },
    }
}

/// Resolves one member: its options, over the configuration of its
/// container, then its doc comments and its exposed name.
pub fn resolve_member(
    base: &DeriveFieldsConfig,
    attr_name: &str,
    profile: &Profile,
    ident: &Option<String>,
    attrs: &Vec<Attribute>,
    docs_ty: DocType,
    member: usize,
) -> (r: Result<(Option<String>, Docs), BuildError>)
    ensures
        match member_outcome(
            base@,
            attr_name@,
            *profile,
            text_view(*ident),
            attrs@,
            docs_ty,
            member,
        ) {
            Ok((name, docs)) => r matches Ok((n, d)) && text_view(n) == name
                && d@ == docs,
            Err(e) => r matches Err(err) && err@ == e,
        },
{
    let config = match get_customisations_from_attrs(attrs, attr_name, profile) {
        Ok(c) => base.with_field_customisations(c),
        Err(e) => {
            return Err(e.in_member(member));
        },
    };
    let docs_opt = match get_docs(attrs, config.trim) {
        Ok(docs_opt) => docs_opt,
        Err(e) => {
            return Err(e.in_member(member));
        },
    };
    let name = resolve_member_name(ident, &config.rename_mode);
    let here = Location { member: Some(member), place: Place::Declaration };
    match docs_ty.docs_handler_opt(docs_opt, config.default_value, here) {
        Ok(docs) => Ok((name, docs)),
        Err(e) => Err(e),
    }
}

/// What the first members of a declaration come to.
pub struct Members {
    /// The exposed names of the members that resolved, in order.
    pub names: Seq<Option<Seq<char>>>,
    /// Their documentation, in order.
    pub docs: Seq<DocsView>,
    /// The diagnostics of the members that did not, in order.
    pub errors: Seq<DiagnosticView>,
}

/// What the first `n` members come to, each resolved on its own.
pub open spec fn gathered(
    base: DeriveFieldsConfigView,
    attr_name: Seq<char>,
    profile: Profile,
    idents: Seq<Option<Seq<char>>>,
    attrs: Seq<Seq<Attribute>>,
    docs_ty: DocType,
    n: int,
) -> Members
    decreases n,
{
    if n <= 0 || n > idents.len() || n > attrs.len() {
        Members {
            names: Seq::<Option<Seq<char>>>::empty(),
            docs: Seq::<DocsView>::empty(),
            errors: Seq::<DiagnosticView>::empty(),
        }
    } else {
        let before = gathered(base, attr_name, profile, idents, attrs, docs_ty, n - 1);
        match member_outcome(
            base,
            attr_name,
            profile,
            idents[n - 1],
            attrs[n - 1],
            docs_ty,
            (n - 1) as usize,
        ) {
            Ok((name, docs)) => Members {
                names: before.names.push(name),
                docs: before.docs.push(docs),
                errors: before.errors,
            },
            Err(e) => Members { names: before.names, docs: before.docs, errors: before.errors + e },
        }
    }
}

/// Where documentation is required, every member that resolves has
/// documentation: its doc comments, or its default.
pub proof fn law_required_members_are_documented(
    base: DeriveFieldsConfigView,
    attr_name: Seq<char>,
    profile: Profile,
    idents: Seq<Option<Seq<char>>>,
    attrs: Seq<Seq<Attribute>>,
    n: int,
)
    ensures
        forall|i: int|
            0 <= i < gathered(base, attr_name, profile, idents, attrs, DocType::Str, n).docs.len()
                ==> #[trigger] gathered(
                base,
                attr_name,
                profile,
                idents,
                attrs,
                DocType::Str,
                n,
            ).docs[i] != DocsView::Absent,
    decreases n,
{
    if !(n <= 0 || n > idents.len() || n > attrs.len()) {
        law_required_members_are_documented(base, attr_name, profile, idents, attrs, n - 1);
    }
}

/// Resolves all members of a declaration, in declaration order.
///
/// Every member is resolved, also after one has failed: the error holds the
/// diagnostics of all members that failed, in declaration order.
pub fn gather_members(
    base: &DeriveFieldsConfig,
    attr_name: &str,
    profile: &Profile,
    data: &Data,
    docs_ty: DocType,
) -> (r: Result<(Vec<Option<String>>, Vec<Docs>), BuildError>)
    ensures
        ({
            let all = gathered(
                base@,
                attr_name@,
                *profile,
                data.idents(),
                data.attrs(),
                docs_ty,
                data.idents().len() as int,
            );
            if all.errors.len() > 0 {
                r matches Err(err) && err@ == all.errors
            } else {
                r matches Ok((names, docs)) && name_views(names@) == all.names && docs_views(docs@)
                    == all.docs && names.len() == data.idents().len() && docs.len()
                    == data.idents().len()
            }
        }),
{
    let mut names: Vec<Option<String>> = Vec::new();
    let mut docs: Vec<Docs> = Vec::new();
    let mut errors: Option<BuildError> = None;
    let count = data.len();
    let mut i: usize = 0;
    assert(name_views(names@) =~= Seq::<Option<Seq<char>>>::empty());
    assert(docs_views(docs@) =~= Seq::<DocsView>::empty());
    while i < count
        invariant
            i <= count,
            count == data.idents().len(),
            count == data.attrs().len(),
            ({
                let so_far = gathered(
                    base@,
                    attr_name@,
                    *profile,
                    data.idents(),
                    data.attrs(),
                    docs_ty,
                    i as int,
                );
                &&& name_views(names@) == so_far.names
                &&& docs_views(docs@) == so_far.docs
                &&& diagnostics_of(errors) == so_far.errors
                &&& (so_far.errors.len() == 0 ==> names.len() == i && docs.len() == i)
            }),
        decreases count - i,
    {
        let ident = data.member_ident(i);
        let attrs = data.member_attrs(i);
        match resolve_member(base, attr_name, profile, &ident, attrs, docs_ty, i) {
            Ok((name, doc)) => {
                let ghost names_before = name_views(names@);
                let ghost docs_before = docs_views(docs@);
                names.push(name);
                docs.push(doc);
                assert(name_views(names@) =~= names_before.push(text_view(name)));
                assert(docs_views(docs@) =~= docs_before.push(doc@));
            },
            Err(e) => {
                let ghost before = diagnostics_of(errors);
                errors =
                match errors {
                    Some(mut all) => {
                        all.combine(e);
                        Some(all)
                    },
                    None => {
                        assert(before + e@ =~= e@);
                        Some(e)
                    },
                };
            },
        }
        i += 1;
    }
    match errors {
        Some(e) => Err(e),
        None => Ok((names, docs)),
    }
}

/// The implementation to generate for a type with documented fields.
#[derive(Debug)]
pub struct FieldsImpl {
    /// The name of the trait to implement.
    pub trait_ident: String,
    /// The name of the type.
    pub ident: String,
    /// The exposed name of each member, in declaration order; `None` for a
    /// member without one.
    pub field_names: Vec<Option<String>>,
    /// The documentation of each member, in declaration order.
    pub field_docs: Vec<Docs>,
    /// The table from the exposed names to the positions of their
    /// members.
    pub lookup: LookupTable,
}

/// What asking a table and a list of documentation for the member named
/// `name` gives: the documentation of the member at the position that the
/// table has for the name; an error where the table has no such name, and
/// another where the member has no documentation.
pub open spec fn field_docs_outcome(
    table: Map<Seq<char>, usize>,
    docs: Seq<DocsView>,
    name: Seq<char>,
) -> Result<DocsView, ErrorView> {
    if table.contains_key(name) && table[name] < docs.len() {
        match docs[table[name] as int] {
            DocsView::Absent => Err(ErrorView::NoDocComments(name)),
            found => Ok(found),
        }
    } else {
        Err(ErrorView::NoSuchField(name))
    }
}

impl FieldsImpl {
    /// Get a field's documentation using its exposed name.
    ///
    /// A name that the table does not hold is an error, and so is a member
    /// without documentation.
    pub fn get_field_docs(&self, field_name: &str) -> (r: Result<&Docs, Error>)
        ensures
            match field_docs_outcome(self.lookup@, docs_views(self.field_docs@), field_name@) {
                Ok(docs) => r matches Ok(d) && d@ == docs,
                Err(e) => r matches Err(err) && err@ == e,
            },
    {
        match self.lookup.lookup(field_name) {
            Some(index) => {
                if index < self.field_docs.len() {
                    match &self.field_docs[index] {
                        Docs::Absent => Err(Error::NoDocComments(field_name.to_owned())),
                        found => Ok(found),
                    }
                } else {
                    Err(Error::NoSuchField(field_name.to_owned()))
                }
            },
            None => Err(Error::NoSuchField(field_name.to_owned())),
        }
    }
}

/// The configuration of the members of a type with documented fields,
/// before their own options: what the options of the type, resolved as
/// those of a container, make of the initial one.
pub open spec fn fields_base(input: DeriveInput) -> Result<
    DeriveFieldsConfigView,
    Seq<DiagnosticView>,
> {
    match attr_customisations(input.attrs@, "documented_fields"@, Profile::of_container()) {
        Err(e) => Err(e),
        Ok(c) => Ok(DeriveFieldsConfigView::initial().with(c)),
    }
}

/// What the members of a type with documented fields come to under the
/// configuration `base`.
pub open spec fn fields_members(
    input: DeriveInput,
    base: DeriveFieldsConfigView,
    docs_ty: DocType,
) -> Members {
    gathered(
        base,
        "documented_fields"@,
        Profile::of_fields(),
        input.data.idents(),
        input.data.attrs(),
        docs_ty,
        input.data.idents().len() as int,
    )
}

/// Whether `r` is what the derive macro for documented fields makes of
/// `input`: the error of the options of the type; else the diagnostics of
/// all members that do not resolve; else the error of the first two members
/// that share an exposed name; else the implementation, with the exposed
/// names and the documentation of all members and the table of the names.
pub open spec fn is_fields_outcome(
    input: DeriveInput,
    docs_ty: DocType,
    r: Result<FieldsImpl, BuildError>,
) -> bool {
    match fields_base(input) {
        Err(e) => r matches Err(err) && err@ == e,
        Ok(base) => {
            let members = fields_members(input, base, docs_ty);
            if members.errors.len() > 0 {
                r matches Err(err) && err@ == members.errors
            } else if distinct_names(members.names) {
                r matches Ok(out) && out.trait_ident@ == docs_ty.trait_name("DocumentedFields"@)
                    && out.ident@ == input.ident@ && name_views(out.field_names@) == members.names
                    && docs_views(out.field_docs@) == members.docs && out.lookup@ == index_map(
                    members.names,
                ) && out.field_docs.len() == input.data.idents().len()
            } else {
                r matches Err(err) && exists|i: int, j: int|
                    first_collision(members.names, i, j) && err@ == duplicate_name_error(i, j)
            }
        },
    }
}

/// Shared implementation of `DocumentedFields` and `DocumentedFieldsOpt`.
///
/// Resolves the options in the `documented_fields` attributes of the type,
/// then each member over them: its own options, its doc comments, its
/// exposed name. The exposed names are compiled into the lookup table.
///
/// It fails with the error of the options of the type; else with the
/// diagnostics of all members that do not resolve; else with the error of
/// the first two members that share an exposed name.
pub fn documented_fields_impl(input: &DeriveInput, docs_ty: DocType) -> (r: Result<
    FieldsImpl,
    BuildError,
>)
    ensures
        is_fields_outcome(*input, docs_ty, r),
{
    let trait_ident = docs_ty.trait_ident_for("DocumentedFields");
    let base_config = match get_customisations_from_attrs(
        &input.attrs,
        "documented_fields",
        &Profile::container(),
    ) {
        Ok(c) => DeriveFieldsConfig::default().with_base_customisations(c),
        Err(e) => {
            return Err(e);
        },
    };
    let (field_names, field_docs) = match gather_members(
        &base_config,
        "documented_fields",
        &Profile::fields(),
        &input.data,
        docs_ty,
    ) {
        Ok(found) => found,
        Err(e) => {
            return Err(e);
        },
    };
    match LookupTable::build(&field_names) {
        Ok(lookup) => Ok(
            FieldsImpl { trait_ident, ident: input.ident.clone(), field_names, field_docs, lookup },
        ),
        Err(e) => Err(e),
    }
}

/// One arm of the generated match over the variants of an enum.
#[derive(Clone, Debug, PartialEq, Eq)]
pub struct VariantArm {
    /// The name of the variant.
    pub ident: String,
    /// The shape of its fields.
    pub fields: Fields,
    /// Its documentation.
    pub docs: Docs,
}

/// What a [`VariantArm`] holds, with its texts as sequences of characters.
pub struct VariantArmView {
    pub ident: Seq<char>,
    pub fields: Fields,
    pub docs: DocsView,
}

impl View for VariantArm {
    type V = VariantArmView;

    open spec fn view(&self) -> VariantArmView {
        VariantArmView { ident: self.ident@, fields: self.fields, docs: self.docs@ }
    }
}

impl VariantArmView {
    /// The pattern that matches the variant, whatever its fields hold.
    pub open spec fn pattern(self) -> Seq<char> {
        match self.fields {
            Fields::Unit => "Self::"@ + self.ident,
            Fields::Unnamed => "Self::"@ + self.ident + "(..)"@,
            Fields::Named => "Self::"@ + self.ident + "{..}"@,
        }
    }
}

impl VariantArm {
    /// The pattern that matches the variant, whatever its fields hold.
    pub fn pattern(&self) -> (r: String)
        ensures
            r@ == self@.pattern(),
    {
        let mut pat = String::from_str("Self::");
        pat.append(self.ident.as_str());
        match self.fields {
            Fields::Unit => {},
            Fields::Unnamed => {
                pat.append("(..)");
            },
            Fields::Named => {
                pat.append("{..}");
            },
        }
        pat
    }
}

/// The views of a sequence of arms.
pub open spec fn arm_views(arms: Seq<VariantArm>) -> Seq<VariantArmView> {
    arms.map_values(|a: VariantArm| a@)
}

/// The implementation to generate for an enum with documented variants.
#[derive(Clone, Debug, PartialEq, Eq)]
pub struct VariantsImpl {
    /// The name of the trait to implement.
    pub trait_ident: String,
    /// The name of the enum.
    pub ident: String,
    /// One arm for each variant, in declaration order.
    pub arms: Vec<VariantArm>,
}

impl VariantsImpl {
    /// Get the documentation of the variant at position `variant`, if
    /// there is such a variant.
    pub fn get_variant_docs(&self, variant: usize) -> (r: Option<&Docs>)
        ensures
            variant < self.arms.len() ==> (r matches Some(docs) && docs@ == arm_views(
                self.arms@,
            )[variant as int].docs),
            variant >= self.arms.len() ==> r is None,
    {
        if variant < self.arms.len() {
            Some(&self.arms[variant].docs)
        } else {
            None
        }
    }
}

/// The configuration of the variants of an enum with documented variants,
/// before their own options: what the options of the type, resolved as
/// those of a container, make of the initial one.
pub open spec fn variants_base(input: DeriveInput) -> Result<
    DeriveConfigView,
    Seq<DiagnosticView>,
> {
    match attr_customisations(input.attrs@, "documented_variants"@, Profile::of_container()) {
        Err(e) => Err(e),
        Ok(c) => Ok(DeriveConfigView::initial().with(c)),
    }
}

/// What the variants of an enum come to under the configuration `base`.
pub open spec fn variants_members(input: DeriveInput, base: DeriveConfigView, docs_ty: DocType)
    -> Members {
    gathered(
        DeriveFieldsConfigView {
            rename_mode: None,
            default_value: base.default_value,
            trim: base.trim,
        },
        "documented_variants"@,
        Profile::of_derive(),
        input.data.idents(),
        input.data.attrs(),
        docs_ty,
        input.data.idents().len() as int,
    )
}

/// The arms for the variants with the documentation given.
pub open spec fn arms_of(variants: Seq<Variant>, docs: Seq<DocsView>) -> Seq<VariantArmView> {
    Seq::new(
        variants.len(),
        |i: int|
            VariantArmView {
                ident: variants[i].ident@,
                fields: variants[i].fields,
                docs: docs[i],
            },
    )
}

/// The error for a type that is no enum.
pub open spec fn enum_only_error() -> Seq<DiagnosticView> {
    single_error(
        ErrorKind::StructuralMismatch,
        Location { member: None, place: Place::Declaration },
        message::ENUM_ONLY@,
    )
}

/// Whether `r` is what the derive macro for documented variants makes of
/// `input`: the error of the options of the type; else, for a type that is
/// no enum, the error that says so; else the diagnostics of all variants
/// that do not resolve; else the implementation, with one arm for each
/// variant.
pub open spec fn is_variants_outcome(
    input: DeriveInput,
    docs_ty: DocType,
    r: Result<VariantsImpl, BuildError>,
) -> bool {
    match variants_base(input) {
        Err(e) => r matches Err(err) && err@ == e,
        Ok(base) => match input.data {
            Data::Enum(variants) => {
                let members = variants_members(input, base, docs_ty);
                if members.errors.len() > 0 {
                    r matches Err(err) && err@ == members.errors
                } else {
                    r matches Ok(out) && out.trait_ident@ == docs_ty.trait_name(
                        "DocumentedVariants"@,
                    ) && out.ident@ == input.ident@ && arm_views(out.arms@) == arms_of(
                        variants@,
                        members.docs,
                    )
                }
            },
            _ => r matches Err(err) && err@ == enum_only_error(),
        },
    }
}

/// Shared implementation of `DocumentedVariants` and
/// `DocumentedVariantsOpt`.
///
/// Resolves the options in the `documented_variants` attributes of the type,
/// then each variant over them: its own options and its doc comments.
///
/// It fails with the error of the options of the type; else, for a type that
/// is no enum, with the error that says so; else with the diagnostics of all
/// variants that do not resolve.
pub fn documented_variants_impl(input: &DeriveInput, docs_ty: DocType) -> (r: Result<
    VariantsImpl,
    BuildError,
>)
    ensures
        is_variants_outcome(*input, docs_ty, r),
{
    let trait_ident = docs_ty.trait_ident_for("DocumentedVariants");
    let base_config = match get_customisations_from_attrs(
        &input.attrs,
        "documented_variants",
        &Profile::container(),
    ) {
        Ok(c) => DeriveConfig::default().with_customisations(c),
        Err(e) => {
            return Err(e);
        },
    };
    let variants = match &input.data {
        Data::Enum(variants) => variants,
        _ => {
            return Err(
                BuildError::new(
                    ErrorKind::StructuralMismatch,
                    Location::declaration(),
                    message::ENUM_ONLY,
                ),
            );
        },
    };
    let base = DeriveFieldsConfig {
        rename_mode: None,
        default_value: copy_expr(&base_config.default_value),
        trim: base_config.trim,
    };
    let (_, docs) = match gather_members(
        &base,
        "documented_variants",
        &Profile::derive(),
        &input.data,
        docs_ty,
    ) {
        Ok(found) => found,
        Err(e) => {
            return Err(e);
        },
    };
    let ghost all_docs = docs_views(docs@);
    let mut arms: Vec<VariantArm> = Vec::new();
    let mut i: usize = 0;
    assert(arm_views(arms@) =~= arms_of(variants@, all_docs).take(0));
    while i < variants.len()
        invariant
            i <= variants.len(),
            docs.len() == variants.len(),
            all_docs == docs_views(docs@),
            arm_views(arms@) == arms_of(variants@, all_docs).take(i as int),
        decreases variants.len() - i,
    {
        let ghost before = arm_views(arms@);
        let arm = VariantArm {
            ident: variants[i].ident.clone(),
            fields: variants[i].fields,
            docs: docs[i].duplicate(),
        };
        arms.push(arm);
        i += 1;
        proof {
            assert(arm_views(arms@) =~= before.push(arm@));
            assert(arm_views(arms@) =~= arms_of(variants@, all_docs).take(i as int));
        }
    }
    assert(arms_of(variants@, all_docs).take(variants.len() as int) =~= arms_of(
        variants@,
        all_docs,
    ));
    Ok(VariantsImpl { trait_ident, ident: input.ident.clone(), arms })
}

} // verus!

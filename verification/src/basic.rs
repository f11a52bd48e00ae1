//! The basic macros: trimming is their only option, an attribute of options
//! may stand once on a declaration, and a member without doc comments is
//! left without documentation.

use vstd::prelude::*;
use crate::attr_impl::{DocsConst, DocsConstView};
use crate::customise::{
    customised,
    diagnostics_of,
    duplicates,
    folded,
    law_duplicate_kinds_rejected,
    lemma_duplicates_iff_not_unique,
    not_list_like,
    Customisations,
    CustomisationsView,
    Profile,
};
use crate::derive_impl::{
    arm_views,
    arms_of,
    enum_only_error,
    DocumentedImpl,
    DocumentedImplView,
    FieldsImpl,
    VariantArm,
    VariantsImpl,
};
use crate::docs::{docs_views, Docs, DocsView};
use crate::error::{
    in_member,
    single_error,
    BuildError,
    DiagnosticView,
    ErrorKind,
    Location,
    Place,
    Span,
};
use crate::lookup::{
    distinct_names,
    duplicate_name_error,
    first_collision,
    index_map,
    name_views,
    LookupTable,
};
use crate::message;
use crate::model::{Attribute, Data, DeriveInput, Item, ItemKind, Meta};
use crate::option::{
    option_views,
    parse_bool,
    parsed_bool,
    syntax_error,
    ConfigOption,
    ConfigOptionData,
    ConfigOptionDataView,
    ConfigOptionView,
    Visibility,
};
use crate::text::text_view;
use crate::token::{token_views, Token, TokenView};
use crate::util::{documentation, get_docs};

verus! {

broadcast use vstd::string::group_string_axioms;

/// Configurable options via helper attributes.
///
/// Initial values are set to default.
#[derive(Copy, Clone, Debug, PartialEq, Eq, Structural)]
pub struct Config {
    pub trim: bool,
}

/// Parsed user-defined customisations of configurable options.
#[derive(Copy, Clone, Debug, PartialEq, Eq)]
pub struct ConfigCustomisations {
    pub trim: Option<bool>,
}

impl Default for Config {
    fn default() -> (r: Config)
        ensures
            r.trim,
    {
        Config { trim: true }
    }
}

impl Default for ConfigCustomisations {
    fn default() -> (r: ConfigCustomisations)
        ensures
            r.trim is None,
    {
        ConfigCustomisations { trim: None }
    }
}

impl Config {
    /// The configuration with customisations applied.
    pub open spec fn with(self, customisations: ConfigCustomisations) -> Config {
        Config {
            trim: match customisations.trim {
                Some(trim) => trim,
                None => self.trim,
            },
        }
    }

    /// Applies customisations: trimming is as they say, where they say
    /// anything of it.
    pub fn apply_customisations(&mut self, customisations: ConfigCustomisations)
        ensures
            *final(self) == old(self).with(customisations),
    {
        match customisations.trim {
            Some(trim) => {
                self.trim = trim;
            },
            None => {},
        }
    }

    /// Return a new instance of this config with customisations applied.
    pub fn with_customisations(self, customisations: ConfigCustomisations) -> (r: Config)
        ensures
            r == self.with(customisations),
    {
        let mut new = self;
        new.apply_customisations(customisations);
        new
    }
}

/// The profile of the basic macros: `trim` and nothing else.
pub open spec fn trim_profile() -> Profile {
    Profile { vis: false, rename_all: false, rename: false, default: false, trim: true }
}

/// The option `trim = value` at position `pos`.
pub open spec fn trim_option(tokens: Seq<TokenView>, pos: int, attr: usize) -> Result<
    ConfigOptionView,
    Seq<DiagnosticView>,
>
    recommends
        0 <= pos < tokens.len(),
{
    if !tokens[pos].is_ident("trim"@) {
        Err(syntax_error(ErrorKind::UnknownOption, attr, pos, message::EXPECTED_TRIM@))
    } else if !(pos + 1 < tokens.len() && tokens[pos + 1].is_punct('=')) {
        Err(syntax_error(ErrorKind::MalformedValue, attr, pos + 1, message::EXPECTED_EQUALS@))
    } else {
        match parsed_bool(tokens, pos + 2, attr) {
            Err(e) => Err(e),
            Ok(trim) => Ok(
                ConfigOptionView {
                    span: Span { attr, token: pos as usize },
                    data: ConfigOptionDataView::Trim(trim),
                },
            ),
        }
    }
}

/// The options of the list from position `pos` on, each with the place of
/// its key: options of the form `trim = value`, with commas between them and
/// one more at the end if any.
pub open spec fn trim_options(tokens: Seq<TokenView>, pos: int, attr: usize) -> Result<
    Seq<ConfigOptionView>,
    Seq<DiagnosticView>,
>
    decreases tokens.len() - pos,
{
    if pos < 0 || pos >= tokens.len() {
        Ok(Seq::<ConfigOptionView>::empty())
    } else {
        match trim_option(tokens, pos, attr) {
            Err(e) => Err(e),
            Ok(option) => if pos + 3 >= tokens.len() {
                Ok(seq![option])
            } else if tokens[pos + 3].is_punct(',') {
                match trim_options(tokens, pos + 4, attr) {
                    Ok(rest) => Ok(seq![option] + rest),
                    Err(e) => Err(e),
                }
            } else {
                Err(
                    syntax_error(
                        ErrorKind::MalformedValue,
                        attr,
                        pos + 3,
                        message::EXPECTED_COMMA@,
                    ),
                )
            },
        }
    }
}

/// What options of the basic macros say of trimming, taken together. The
/// option may be given once: where it is given more often, the error holds
/// one diagnostic at the first of them and one at each further one.
pub open spec fn combined_trim(options: Seq<ConfigOptionView>) -> Result<
    Option<bool>,
    Seq<DiagnosticView>,
> {
    match customised(options, trim_profile()) {
        Err(e) => Err(e),
        Ok(c) => Ok(c.trim),
    }
}

/// What one option list of the basic macros says of trimming.
pub open spec fn trim_customisations(tokens: Seq<TokenView>, attr: usize) -> Result<
    Option<bool>,
    Seq<DiagnosticView>,
> {
    match trim_options(tokens, 0, attr) {
        Err(e) => Err(e),
        Ok(options) => combined_trim(options),
    }
}

/// Reads the options of the list of the attribute at position `attr`.
pub fn parse_trim_options(tokens: &Vec<Token>, attr: usize) -> (r: Result<
    Vec<ConfigOption>,
    BuildError,
>)
    ensures
        match trim_options(token_views(tokens@), 0, attr) {
            Ok(options) => r matches Ok(v) && option_views(v@) == options,
            Err(e) => r matches Err(err) && err@ == e,
        },
{
    let ghost all = token_views(tokens@);
    let mut options: Vec<ConfigOption> = Vec::new();
    let mut pos: usize = 0;
    assert(option_views(options@) =~= Seq::<ConfigOptionView>::empty());
    while pos < tokens.len()
        invariant
            pos <= tokens.len(),
            all == token_views(tokens@),
            match trim_options(all, pos as int, attr) {
                Ok(rest) => trim_options(all, 0, attr) == Ok::<
                    Seq<ConfigOptionView>,
                    Seq<DiagnosticView>,
                >(option_views(options@) + rest),
                Err(e) => trim_options(all, 0, attr) == Err::<
                    Seq<ConfigOptionView>,
                    Seq<DiagnosticView>,
                >(e),
            },
        decreases tokens.len() - pos,
    {
        if !tokens[pos].is_ident("trim") {
            return Err(
                BuildError::new(
                    ErrorKind::UnknownOption,
                    Location::token(Span { attr, token: pos }),
                    message::EXPECTED_TRIM,
                ),
            );
        }
        if !(pos + 1 < tokens.len() && tokens[pos + 1].is_punct('=')) {
            return Err(
                BuildError::new(
                    ErrorKind::MalformedValue,
                    Location::token(Span { attr, token: pos + 1 }),
                    message::EXPECTED_EQUALS,
                ),
            );
        }
        let trim = match parse_bool(tokens, pos + 2, attr) {
            Ok(trim) => trim,
            Err(e) => {
                return Err(e);
            },
        };
        let ghost before = option_views(options@);
        let option = ConfigOption {
            span: Span { attr, token: pos },
            data: ConfigOptionData::Trim(trim),
        };
        options.push(option);
        assert(option_views(options@) =~= before.push(option@));
        if pos + 3 >= tokens.len() {
            assert(before + seq![option@] =~= option_views(options@));
            pos = tokens.len();
            assert(option_views(options@) + Seq::<ConfigOptionView>::empty() =~= option_views(
                options@,
            ));
        } else {
            if !tokens[pos + 3].is_punct(',') {
                return Err(
                    BuildError::new(
                        ErrorKind::MalformedValue,
                        Location::token(Span { attr, token: pos + 3 }),
                        message::EXPECTED_COMMA,
                    ),
                );
            }
            proof {
                match trim_options(all, pos + 4, attr) {
                    Ok(rest) => {
                        assert(before + (seq![option@] + rest) =~= option_views(options@) + rest);
                    },
                    Err(_) => {},
                }
            }
            pos = pos + 4;
        }
    }
    assert(option_views(options@) + Seq::<ConfigOptionView>::empty() =~= option_views(options@));
    Ok(options)
}

/// Takes options of the basic macros together: what they say of trimming,
/// or the error of a `trim` that is given more than once.
pub fn combine_trim(options: &Vec<ConfigOption>) -> (r: Result<ConfigCustomisations, BuildError>)
    ensures
        match combined_trim(option_views(options@)) {
            Ok(trim) => r matches Ok(c) && c.trim == trim,
            Err(e) => r matches Err(err) && err@ == e,
        },
{
    let profile = Profile {
        vis: false,
        rename_all: false,
        rename: false,
        default: false,
        trim: true,
    };
    match Customisations::resolve(options, &profile) {
        Ok(c) => Ok(ConfigCustomisations { trim: c.trim }),
        Err(e) => Err(e),
    }
}

/// Options that are all `trim` say nothing of trimming where there is none
/// of them, and what the one of them says where there is one; where there
/// are more, they are refused as duplicates. How many attributes they stand
/// in makes no difference.
pub proof fn law_trim_given_once(options: Seq<ConfigOptionView>)
    requires
        forall|i: int| 0 <= i < options.len() ==> (#[trigger] options[i].data) is Trim,
    ensures
        options.len() == 0 ==> combined_trim(options) == Ok::<Option<bool>, Seq<DiagnosticView>>(
            None,
        ),
        options.len() == 1 ==> combined_trim(options) == Ok::<Option<bool>, Seq<DiagnosticView>>(
            Some(options[0].data->Trim_0),
        ),
        options.len() >= 2 ==> combined_trim(options) == Err::<
            Option<bool>,
            Seq<DiagnosticView>,
        >(duplicates(options)) && duplicates(options).len() >= 2,
{
    lemma_duplicates_iff_not_unique(options);
    if options.len() >= 2 {
        assert(options[0].data.kind() == options[1].data.kind());
        law_duplicate_kinds_rejected(options, trim_profile(), 0, 1);
    } else if options.len() == 1 {
        assert(folded(options, trim_profile(), 0) == Ok::<
            CustomisationsView,
            Seq<DiagnosticView>,
        >(CustomisationsView::empty()));
    }
}

impl ConfigCustomisations {
    /// Reads the option list of the attribute at position `attr`.
    ///
    /// The list holds options of the form `trim = value`, with commas
    /// between them and one more at the end if any; `trim` may be given
    /// once.
    pub fn parse(tokens: &Vec<Token>, attr: usize) -> (r: Result<ConfigCustomisations, BuildError>)
        ensures
            match trim_customisations(token_views(tokens@), attr) {
                Ok(trim) => r matches Ok(c) && c.trim == trim,
                Err(e) => r matches Err(err) && err@ == e,
            },
    {
        match parse_trim_options(tokens, attr) {
            Err(e) => Err(e),
            Ok(options) => combine_trim(&options),
        }
    }
}

/// What the attributes named `name` among the first `n` attributes hold:
/// whether there is such an attribute at all, and the options of all of
/// them, in order, each with the position of its attribute. The first such
/// attribute that is no list, or whose list does not parse, is an error.
pub open spec fn attr_trim_options(attrs: Seq<Attribute>, name: Seq<char>, n: int) -> Result<
    (bool, Seq<ConfigOptionView>),
    Seq<DiagnosticView>,
>
    decreases n,
{
    if n <= 0 || n > attrs.len() {
        Ok((false, Seq::<ConfigOptionView>::empty()))
    } else {
        match attr_trim_options(attrs, name, n - 1) {
            Err(e) => Err(e),
            Ok((found, before)) => {
                let attr = attrs[n - 1];
                if !attr.named(name) {
                    Ok((found, before))
                } else {
                    match attr.meta {
                        Meta::List(tokens) => match trim_options(
                            token_views(tokens@),
                            0,
                            (n - 1) as usize,
                        ) {
                            Ok(options) => Ok((true, before + options)),
                            Err(e) => Err(e),
                        },
                        _ => Err(
                            single_error(
                                ErrorKind::MalformedValue,
                                Location {
                                    member: None,
                                    place: Place::Attribute((n - 1) as usize),
                                },
                                not_list_like(name),
                            ),
                        ),
                    }
                }
            },
        }
    }
}

/// What the attributes named `name` say of trimming: nothing where there is
/// none; else what the options of all of them say together. The attribute
/// may stand more than once, `trim` may not.
pub open spec fn config_customisations(attrs: Seq<Attribute>, name: Seq<char>) -> Result<
    Option<Option<bool>>,
    Seq<DiagnosticView>,
> {
    match attr_trim_options(attrs, name, attrs.len() as int) {
        Err(e) => Err(e),
        Ok((found, options)) => if !found {
            Ok(None)
        } else {
            match combined_trim(options) {
                Ok(trim) => Ok(Some(trim)),
                Err(e) => Err(e),
            }
        },
    }
}

proof fn lemma_attr_trim_options_error_stays(
    attrs: Seq<Attribute>,
    name: Seq<char>,
    n: int,
    m: int,
)
    requires
        0 <= n <= m <= attrs.len(),
        attr_trim_options(attrs, name, n) is Err,
    ensures
        attr_trim_options(attrs, name, m) == attr_trim_options(attrs, name, n),
    decreases m - n,
{
    if n < m {
        lemma_attr_trim_options_error_stays(attrs, name, n, m - 1);
    }
}

/// Reads the customisations off the attributes named `attr_name`, if there
/// are any.
///
/// Each of them must be a list. The options may be spread over several
/// attributes of that name; together they must not hold `trim` twice.
pub fn get_config_customisations(attrs: &Vec<Attribute>, attr_name: &str) -> (r: Result<
    Option<ConfigCustomisations>,
    BuildError,
>)
    ensures
        match config_customisations(attrs@, attr_name@) {
            Ok(Some(trim)) => r matches Ok(Some(c)) && c.trim == trim,
            Ok(None) => r matches Ok(None),
            Err(e) => r matches Err(err) && err@ == e,
        },
{
    let mut options: Vec<ConfigOption> = Vec::new();
    let mut found = false;
    let mut i: usize = 0;
    assert(option_views(options@) =~= Seq::<ConfigOptionView>::empty());
    while i < attrs.len()
        invariant
            i <= attrs.len(),
            attr_trim_options(attrs@, attr_name@, i as int) == Ok::<
                (bool, Seq<ConfigOptionView>),
                Seq<DiagnosticView>,
            >((found, option_views(options@))),
        decreases attrs.len() - i,
    {
        let attr = &attrs[i];
        if attr.is_ident(attr_name) {
            match &attr.meta {
                Meta::List(tokens) => match parse_trim_options(tokens, i) {
                    Ok(mut more) => {
                        let ghost before = option_views(options@);
                        let ghost added = option_views(more@);
                        options.append(&mut more);
                        assert(option_views(options@) =~= before + added);
                        found = true;
                    },
                    Err(e) => {
                        proof {
                            lemma_attr_trim_options_error_stays(
                                attrs@,
                                attr_name@,
                                i + 1,
                                attrs.len() as int,
                            );
                        }
                        return Err(e);
                    },
                },
                _ => {
                    proof {
                        lemma_attr_trim_options_error_stays(
                            attrs@,
                            attr_name@,
                            i + 1,
                            attrs.len() as int,
                        );
                    }
                    let mut message = String::from_str(attr_name);
                    message.append(" is not list-like. Expecting `");
                    message.append(attr_name);
                    message.append("(...)`");
                    return Err(
                        BuildError::new(
                            ErrorKind::MalformedValue,
                            Location::attribute(i),
                            message.as_str(),
                        ),
                    );
                },
            }
        }
        i += 1;
    }
    if !found {
        return Ok(None);
    }
    match combine_trim(&options) {
        Ok(c) => Ok(Some(c)),
        Err(e) => Err(e),
    }
}

/// Whether the doc comments of a declaration are trimmed: as the attribute
/// named `name` says, and else as `base` says.
pub open spec fn trimming(attrs: Seq<Attribute>, name: Seq<char>, base: Config) -> Result<
    bool,
    Seq<DiagnosticView>,
> {
    match config_customisations(attrs, name) {
        Err(e) => Err(e),
        Ok(None) => Ok(base.trim),
        Ok(Some(trim)) => Ok(base.with(ConfigCustomisations { trim }).trim),
    }
}

/// The documentation text of a declaration under its own setting of
/// trimming.
pub open spec fn basic_documentation(attrs: Seq<Attribute>, name: Seq<char>, base: Config)
    -> Result<Option<Seq<char>>, Seq<DiagnosticView>> {
    match trimming(attrs, name, base) {
        Err(e) => Err(e),
        Ok(trim) => documentation(attrs, trim),
    }
}

/// Reads the documentation of a declaration under its own setting of
/// trimming.
pub fn get_basic_docs(attrs: &Vec<Attribute>, attr_name: &str, base: Config) -> (r: Result<
    Option<String>,
    BuildError,
>)
    ensures
        match basic_documentation(attrs@, attr_name@, base) {
            Ok(docs) => r matches Ok(d) && text_view(d) == docs,
            Err(e) => r matches Err(err) && err@ == e,
        },
{
    let config = match get_config_customisations(attrs, attr_name) {
        Ok(Some(customisations)) => base.with_customisations(customisations),
        Ok(None) => base,
        Err(e) => {
            return Err(e);
        },
    };
    get_docs(attrs, config.trim)
}

/// The error for a declaration without doc comments.
pub open spec fn missing_docs_error() -> Seq<DiagnosticView> {
    single_error(
        ErrorKind::MissingDocumentation,
        Location { member: None, place: Place::Declaration },
        message::MISSING_DOCS@,
    )
}

/// The basic derive macro for a documented type.
///
/// The type must have doc comments.
pub fn documented(input: &DeriveInput) -> (r: Result<DocumentedImpl, BuildError>)
    ensures
        match basic_documentation(input.attrs@, "documented"@, Config { trim: true }) {
            Err(e) => r matches Err(err) && err@ == e,
            Ok(None) => r matches Err(err) && err@ == missing_docs_error(),
            Ok(Some(text)) => r matches Ok(out) && out@ == (DocumentedImplView {
                trait_ident: "Documented"@,
                ident: input.ident@,
                docs: DocsView::Text(text),
            }),
        },
{
    match get_basic_docs(&input.attrs, "documented", Config::default()) {
        Err(e) => Err(e),
        Ok(None) => Err(
            BuildError::new(
                ErrorKind::MissingDocumentation,
                Location::declaration(),
                message::MISSING_DOCS,
            ),
        ),
        Ok(Some(text)) => Ok(
            DocumentedImpl {
                trait_ident: "Documented".to_owned(),
                ident: input.ident.clone(),
                docs: Docs::Text(text),
            },
        ),
    }
}

/// The documentation of a member: its text, or none.
pub open spec fn optional_docs(text: Option<Seq<char>>) -> DocsView {
    match text {
        Some(text) => DocsView::Text(text),
        None => DocsView::Absent,
    }
}

/// What the first members of a declaration come to under the basic macros.
pub struct BasicMembers {
    /// The documentation of the members that resolved, in order.
    pub docs: Seq<DocsView>,
    /// The diagnostics of the members that did not, in order.
    pub errors: Seq<DiagnosticView>,
}

/// What the first `n` members come to, each resolved on its own over the
/// configuration `base` of its container. Errors are anchored in their
/// members.
pub open spec fn basic_gathered(
    base: Config,
    name: Seq<char>,
    attrs: Seq<Seq<Attribute>>,
    n: int,
) -> BasicMembers
    decreases n,
{
    if n <= 0 || n > attrs.len() {
        BasicMembers { docs: Seq::<DocsView>::empty(), errors: Seq::<DiagnosticView>::empty() }
    } else {
        let before = basic_gathered(base, name, attrs, n - 1);
        match basic_documentation(attrs[n - 1], name, base) {
            Ok(text) => BasicMembers {
                docs: before.docs.push(optional_docs(text)),
                errors: before.errors,
            },
            Err(e) => BasicMembers {
                docs: before.docs,
                errors: before.errors + in_member(e, (n - 1) as usize),
            },
        }
    }
}

/// Resolves all members of a declaration, in declaration order.
///
/// Every member is resolved, also after one has failed: the error holds the
/// diagnostics of all members that failed, in declaration order.
pub fn gather_basic_members(base: Config, attr_name: &str, data: &Data) -> (r: Result<
    Vec<Docs>,
    BuildError,
>)
    ensures
        ({
            let all = basic_gathered(base, attr_name@, data.attrs(), data.attrs().len() as int);
            if all.errors.len() > 0 {
                r matches Err(err) && err@ == all.errors
            } else {
                r matches Ok(docs) && docs_views(docs@) == all.docs && docs.len()
                    == data.attrs().len()
            }
        }),
{
    let mut docs: Vec<Docs> = Vec::new();
    let mut errors: Option<BuildError> = None;
    let count = data.len();
    let mut i: usize = 0;
    assert(docs_views(docs@) =~= Seq::<DocsView>::empty());
    while i < count
        invariant
            i <= count,
            count == data.attrs().len(),
            ({
                let so_far = basic_gathered(base, attr_name@, data.attrs(), i as int);
                &&& docs_views(docs@) == so_far.docs
                &&& diagnostics_of(errors) == so_far.errors
                &&& (so_far.errors.len() == 0 ==> docs.len() == i)
            }),
        decreases count - i,
    {
        match get_basic_docs(data.member_attrs(i), attr_name, base) {
            Ok(text) => {
                let ghost before = docs_views(docs@);
                let doc = match text {
                    Some(text) => Docs::Text(text),
                    None => Docs::Absent,
                };
                docs.push(doc);
                assert(docs_views(docs@) =~= before.push(doc@));
            },
            Err(e) => {
                let ghost before = diagnostics_of(errors);
                let e = e.in_member(i);
                errors =
                match errors {
                    Some(mut all) => {
                        all.combine(e);
                        Some(all)
                    },
                    None => {
                        assert(before + e@ =~= e@);
                        Some(e)
                    },
                };
            },
        }
        i += 1;
    }
    match errors {
        Some(e) => Err(e),
        None => Ok(docs),
    }
}

/// The names of the members of a declaration.
pub fn member_idents(data: &Data) -> (r: Vec<Option<String>>)
    ensures
        name_views(r@) == data.idents(),
{
    let mut names: Vec<Option<String>> = Vec::new();
    let count = data.len();
    let mut i: usize = 0;
    assert(name_views(names@) =~= data.idents().take(0));
    while i < count
        invariant
            i <= count,
            count == data.idents().len(),
            name_views(names@) == data.idents().take(i as int),
        decreases count - i,
    {
        let ghost before = name_views(names@);
        let name = data.member_ident(i);
        names.push(name);
        i += 1;
        assert(name_views(names@) =~= before.push(text_view(name)));
        assert(name_views(names@) =~= data.idents().take(i as int));
    }
    assert(data.idents().take(count as int) =~= data.idents());
    names
}

/// Whether `r` is what the basic derive macro for documented fields makes
/// of `input`: the error of the attribute of the type; else the diagnostics
/// of all members whose attributes are in error; else the error of the
/// first two members that share a name; else the implementation, with the
/// names and the documentation of all members and the table of the names.
pub open spec fn is_basic_fields_outcome(input: DeriveInput, r: Result<FieldsImpl, BuildError>)
    -> bool {
    match trimming(input.attrs@, "documented_fields"@, Config { trim: true }) {
        Err(e) => r matches Err(err) && err@ == e,
        Ok(trim) => {
            let members = basic_gathered(
                Config { trim },
                "documented_fields"@,
                input.data.attrs(),
                input.data.attrs().len() as int,
            );
            let names = input.data.idents();
            if members.errors.len() > 0 {
                r matches Err(err) && err@ == members.errors
            } else if distinct_names(names) {
                r matches Ok(out) && out.trait_ident@ == "DocumentedFields"@ && out.ident@
                    == input.ident@ && name_views(out.field_names@) == names && docs_views(
                    out.field_docs@,
                ) == members.docs && out.lookup@ == index_map(names) && out.field_docs.len()
                    == names.len()
            } else {
                r matches Err(err) && exists|i: int, j: int|
                    first_collision(names, i, j) && err@ == duplicate_name_error(i, j)
            }
        },
    }
}

/// Reads how the attribute named `attr_name` sets trimming for a
/// container.
pub fn get_base_config(attrs: &Vec<Attribute>, attr_name: &str) -> (r: Result<Config, BuildError>)
    ensures
        match trimming(attrs@, attr_name@, Config { trim: true }) {
            Ok(trim) => r matches Ok(c) && c.trim == trim,
            Err(e) => r matches Err(err) && err@ == e,
        },
{
    match get_config_customisations(attrs, attr_name) {
        Ok(Some(customisations)) => Ok(Config::default().with_customisations(customisations)),
        Ok(None) => Ok(Config::default()),
        Err(e) => Err(e),
    }
}

/// The basic derive macro for documented fields.
///
/// A member without doc comments has no documentation; its name is still in
/// the table.
pub fn documented_fields(input: &DeriveInput) -> (r: Result<FieldsImpl, BuildError>)
    ensures
        is_basic_fields_outcome(*input, r),
{
    let base_config = match get_base_config(&input.attrs, "documented_fields") {
        Ok(config) => config,
        Err(e) => {
            return Err(e);
        },
    };
    let field_docs = match gather_basic_members(base_config, "documented_fields", &input.data) {
        Ok(docs) => docs,
        Err(e) => {
            return Err(e);
        },
    };
    let field_names = member_idents(&input.data);
    match LookupTable::build(&field_names) {
        Ok(lookup) => Ok(
            FieldsImpl {
                trait_ident: "DocumentedFields".to_owned(),
                ident: input.ident.clone(),
                field_names,
                field_docs,
                lookup,
            },
        ),
        Err(e) => Err(e),
    }
}

/// Whether `r` is what the basic derive macro for documented variants makes
/// of `input`: the error of the attribute of the type; else, for a type that
/// is no enum, the error that says so; else the diagnostics of all variants
/// whose attributes are in error; else the implementation, with one arm for
/// each variant.
pub open spec fn is_basic_variants_outcome(input: DeriveInput, r: Result<VariantsImpl, BuildError>)
    -> bool {
    match trimming(input.attrs@, "documented_variants"@, Config { trim: true }) {
        Err(e) => r matches Err(err) && err@ == e,
        Ok(trim) => match input.data {
            Data::Enum(variants) => {
                let members = basic_gathered(
                    Config { trim },
                    "documented_variants"@,
                    input.data.attrs(),
                    input.data.attrs().len() as int,
                );
                if members.errors.len() > 0 {
                    r matches Err(err) && err@ == members.errors
                } else {
                    r matches Ok(out) && out.trait_ident@ == "DocumentedVariants"@ && out.ident@
                        == input.ident@ && arm_views(out.arms@) == arms_of(variants@, members.docs)
                }
            },
            _ => r matches Err(err) && err@ == enum_only_error(),
        },
    }
}

/// The basic derive macro for documented variants.
///
/// A variant without doc comments has no documentation.
pub fn documented_variants(input: &DeriveInput) -> (r: Result<VariantsImpl, BuildError>)
    ensures
        is_basic_variants_outcome(*input, r),
{
    let base_config = match get_base_config(&input.attrs, "documented_variants") {
        Ok(config) => config,
        Err(e) => {
            return Err(e);
        },
    };
    let variants = match &input.data {
        Data::Enum(variants) => variants,
        _ => {
            return Err(
                BuildError::new(
                    ErrorKind::StructuralMismatch,
                    Location::declaration(),
                    message::ENUM_ONLY,
                ),
            );
        },
    };
    let docs = match gather_basic_members(base_config, "documented_variants", &input.data) {
        Ok(docs) => docs,
        Err(e) => {
            return Err(e);
        },
    };
    let ghost all_docs = docs_views(docs@);
    let mut arms: Vec<VariantArm> = Vec::new();
    let mut i: usize = 0;
    assert(arm_views(arms@) =~= arms_of(variants@, all_docs).take(0));
    while i < variants.len()
        invariant
            i <= variants.len(),
            docs.len() == variants.len(),
            all_docs == docs_views(docs@),
            arm_views(arms@) == arms_of(variants@, all_docs).take(i as int),
        decreases variants.len() - i,
    {
        let ghost before = arm_views(arms@);
        let arm = VariantArm {
            ident: variants[i].ident.clone(),
            fields: variants[i].fields,
            docs: docs[i].duplicate(),
        };
        arms.push(arm);
        i += 1;
        proof {
            assert(arm_views(arms@) =~= before.push(arm@));
            assert(arm_views(arms@) =~= arms_of(variants@, all_docs).take(i as int));
        }
    }
    assert(arms_of(variants@, all_docs).take(variants.len() as int) =~= arms_of(
        variants@,
        all_docs,
    ));
    Ok(
        VariantsImpl {
            trait_ident: "DocumentedVariants".to_owned(),
            ident: input.ident.clone(),
            arms,
        },
    )
}

/// The name `name` in upper case.
pub uninterp spec fn uppercased(name: Seq<char>) -> Seq<char>;

/// `str::to_uppercase` of std. The contract names the result and claims
/// nothing else of it.
#[verifier::external_body]
fn uppercase(name: &str) -> (r: String)
    ensures
        r@ == uppercased(name@),
{
    name.to_uppercase()
}

/// The name of the constant for a function, given the name of the function
/// in upper case.
pub fn function_const_name(upper: String) -> (r: String)
    ensures
        r@ == upper@ + "_DOCS"@,
{
    let mut name = upper;
    name.append("_DOCS");
    name
}

/// What the basic attribute macro makes of a function and the tokens of its
/// option list.
pub open spec fn function_outcome(attr: Seq<TokenView>, item: Item) -> Result<
    DocsConstView,
    Seq<DiagnosticView>,
> {
    if item.kind != ItemKind::Fn || item.ident is None {
        Err(
            single_error(
                ErrorKind::StructuralMismatch,
                Location { member: None, place: Place::Declaration },
                message::EXPECTED_FN@,
            ),
        )
    } else {
        match trim_customisations(attr, 0) {
            Err(e) => Err(e),
            Ok(trim) => match documentation(
                item.attrs@,
                (Config { trim: true }).with(ConfigCustomisations { trim }).trim,
            ) {
                Err(e) => Err(e),
                Ok(None) => Err(missing_docs_error()),
                Ok(Some(text)) => Ok(
                    DocsConstView {
                        vis: item.vis@,
                        name: uppercased(item.ident->0@) + "_DOCS"@,
                        docs: DocsView::Text(text),
                    },
                ),
            },
        }
    }
}

/// The basic attribute macro for a documented function: `attr` holds the
/// tokens of its option list, `item` is the function that it stands on.
///
/// The constant has the visibility of the function and its name in upper
/// case with `_DOCS` behind it. The function must have doc comments.
pub fn documented_function(attr: &Vec<Token>, item: &Item) -> (r: Result<DocsConst, BuildError>)
    ensures
        match function_outcome(token_views(attr@), *item) {
            Ok(out) => r matches Ok(o) && o@ == out,
            Err(e) => r matches Err(err) && err@ == e,
        },
{
    let ident = match (&item.kind, &item.ident) {
        (ItemKind::Fn, Some(ident)) => ident,
        _ => {
            return Err(
                BuildError::new(
                    ErrorKind::StructuralMismatch,
                    Location::declaration(),
                    message::EXPECTED_FN,
                ),
            );
        },
    };
    let base_config = match ConfigCustomisations::parse(attr, 0) {
        Ok(customisations) => Config::default().with_customisations(customisations),
        Err(e) => {
            return Err(e);
        },
    };
    match get_docs(&item.attrs, base_config.trim) {
        Err(e) => Err(e),
        Ok(None) => Err(
            BuildError::new(
                ErrorKind::MissingDocumentation,
                Location::declaration(),
                message::MISSING_DOCS,
            ),
        ),
        Ok(Some(text)) => Ok(
            DocsConst {
                vis: Visibility { text: item.vis.text.clone() },
                name: function_const_name(uppercase(ident.as_str())),
                docs: Docs::Text(text),
            },
        ),
    }
}

} // verus!

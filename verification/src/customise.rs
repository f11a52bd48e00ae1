//! From option lists to customisations: the check that no kind of option
//! occurs twice, the profiles that say which kinds a consumer takes, and the
//! fold of a list into one record of overrides.

use vstd::prelude::*;
use crate::error::{at_token, single_error, BuildError, DiagnosticView, ErrorKind, Location, Place};
use crate::message;
use crate::model::{Attribute, Meta};
use crate::option::{
    expr_view,
    option_views,
    parse_options,
    parsed_list,
    vis_view,
    Case,
    ConfigOption,
    ConfigOptionData,
    ConfigOptionDataView,
    ConfigOptionKind,
    ConfigOptionView,
    Expr,
    Visibility,
};
use crate::text::text_view;
use crate::token::{token_views, Token, TokenView};

verus! {

broadcast use vstd::string::group_string_axioms;

/// The diagnostics of an optional error.
pub open spec fn diagnostics_of(e: Option<BuildError>) -> Seq<DiagnosticView> {
    match e {
        Some(e) => e@,
        None => Seq::<DiagnosticView>::empty(),
    }
}

/// The message at the first of several options of one kind.
pub open spec fn once_message(kind: ConfigOptionKind) -> Seq<char> {
    "Option "@ + kind.keyword() + " can only be declared once"@
}

/// The diagnostics for the options of kind `kind` among the first `n`: one
/// at the first of them, which says that the kind can be given once, and one
/// at each further one.
pub open spec fn marks(options: Seq<ConfigOptionView>, kind: ConfigOptionKind, n: int) -> Seq<
    DiagnosticView,
>
    decreases n,
{
    if n <= 0 || n > options.len() {
        Seq::<DiagnosticView>::empty()
    } else {
        let before = marks(options, kind, n - 1);
        let option = options[n - 1];
        if option.data.kind() == kind {
            if before.len() == 0 {
                single_error(ErrorKind::DuplicateOption, at_token(option.span), once_message(kind))
            } else {
                before + single_error(
                    ErrorKind::DuplicateOption,
                    at_token(option.span),
                    message::DUPLICATE_HERE@,
                )
            }
        } else {
            before
        }
    }
}

/// The diagnostics for kind `kind`: its marks where it occurs more than
/// once, else none.
pub open spec fn kind_duplicates(options: Seq<ConfigOptionView>, kind: ConfigOptionKind) -> Seq<
    DiagnosticView,
> {
    let all = marks(options, kind, options.len() as int);
    if all.len() >= 2 {
        all
    } else {
        Seq::<DiagnosticView>::empty()
    }
}

/// The diagnostics for all kinds that occur more than once, kind by kind.
pub open spec fn duplicates(options: Seq<ConfigOptionView>) -> Seq<DiagnosticView> {
    kind_duplicates(options, ConfigOptionKind::Vis) + kind_duplicates(
        options,
        ConfigOptionKind::RenameAll,
    ) + kind_duplicates(options, ConfigOptionKind::Rename) + kind_duplicates(
        options,
        ConfigOptionKind::Default,
    ) + kind_duplicates(options, ConfigOptionKind::Trim)
}

/// No two options are of the same kind.
pub open spec fn unique_kinds(options: Seq<ConfigOptionView>) -> bool {
    forall|i: int, j: int|
        0 <= i < j < options.len() ==> options[i].data.kind() != options[j].data.kind()
}

/// The marks of one kind among all options, or `None` where it does not
/// occur.
fn kind_marks(opts: &Vec<ConfigOption>, kind: ConfigOptionKind) -> (r: Option<BuildError>)
    ensures
        diagnostics_of(r) == marks(option_views(opts@), kind, opts.len() as int),
{
    let ghost all = option_views(opts@);
    let mut error: Option<BuildError> = None;
    let mut i: usize = 0;
    while i < opts.len()
        invariant
            i <= opts.len(),
            all == option_views(opts@),
            diagnostics_of(error) == marks(all, kind, i as int),
        decreases opts.len() - i,
    {
        if opts[i].data.kind() == kind {
            let here = Location::token(opts[i].span);
            error =
            match error {
                None => {
                    let mut message = String::from_str("Option ");
                    message.append(kind.name());
                    message.append(" can only be declared once");
                    Some(BuildError::new(ErrorKind::DuplicateOption, here, message.as_str()))
                },
                Some(mut e) => {
                    e.push(ErrorKind::DuplicateOption, here, message::DUPLICATE_HERE);
                    Some(e)
                },
            };
        }
        i += 1;
    }
    error
}

/// Adds the diagnostics for kind `kind` to those found so far.
fn add_kind_duplicates(found: Option<BuildError>, opts: &Vec<ConfigOption>, kind: ConfigOptionKind)
    -> (r: Option<BuildError>)
    ensures
        diagnostics_of(r) == diagnostics_of(found) + kind_duplicates(option_views(opts@), kind),
{
    let ghost before = diagnostics_of(found);
    match kind_marks(opts, kind) {
        Some(e) => {
            if e.rest.len() >= 1 {
                match found {
                    Some(mut all) => {
                        all.combine(e);
                        Some(all)
                    },
                    None => {
                        assert(before + e@ =~= e@);
                        Some(e)
                    },
                }
            } else {
                assert(before + Seq::<DiagnosticView>::empty() =~= before);
                found
            }
        },
        None => {
            assert(before + Seq::<DiagnosticView>::empty() =~= before);
            found
        },
    }
}

/// Makes sure that no kind of option occurs twice.
///
/// Where one does, the error holds, for each such kind, one diagnostic at
/// its first option and one at each further option of that kind.
pub fn ensure_unique_options(opts: &Vec<ConfigOption>) -> (r: Result<(), BuildError>)
    ensures
        r is Ok <==> unique_kinds(option_views(opts@)),
        r is Ok <==> duplicates(option_views(opts@)).len() == 0,
        r matches Err(e) ==> e@ == duplicates(option_views(opts@)),
{
    let found = add_kind_duplicates(None, opts, ConfigOptionKind::Vis);
    let found = add_kind_duplicates(found, opts, ConfigOptionKind::RenameAll);
    let found = add_kind_duplicates(found, opts, ConfigOptionKind::Rename);
    let found = add_kind_duplicates(found, opts, ConfigOptionKind::Default);
    let found = add_kind_duplicates(found, opts, ConfigOptionKind::Trim);
    proof {
        lemma_duplicates_iff_not_unique(option_views(opts@));
        assert(diagnostics_of(found) =~= duplicates(option_views(opts@)));
    }
    match found {
        Some(e) => Err(e),
        None => Ok(()),
    }
}

/// Where an option of the kind stands among the first `n`, the kind has a
/// mark; where two do, it has two.
proof fn lemma_marks_count(options: Seq<ConfigOptionView>, kind: ConfigOptionKind, n: int)
    requires
        0 <= n <= options.len(),
    ensures
        marks(options, kind, n).len() >= 1 <==> exists|i: int|
            0 <= i < n && options[i].data.kind() == kind,
        marks(options, kind, n).len() >= 2 <==> exists|i: int, j: int|
            0 <= i < j < n && options[i].data.kind() == kind && options[j].data.kind() == kind,
    decreases n,
{
    if n > 0 {
        lemma_marks_count(options, kind, n - 1);
        let before = marks(options, kind, n - 1);
        if options[n - 1].data.kind() == kind {
            if before.len() >= 1 {
                let i = choose|i: int| 0 <= i < n - 1 && options[i].data.kind() == kind;
                assert(0 <= i < n - 1 < n && options[i].data.kind() == kind && options[n
                    - 1].data.kind() == kind);
            } else {
                if exists|i: int, j: int|
                    0 <= i < j < n && options[i].data.kind() == kind && options[j].data.kind()
                        == kind {
                    let (i, j) = choose|i: int, j: int|
                        0 <= i < j < n && options[i].data.kind() == kind
                            && options[j].data.kind() == kind;
                    assert(0 <= i < n - 1 && options[i].data.kind() == kind);
                }
            }
        } else {
            if exists|i: int, j: int|
                0 <= i < j < n && options[i].data.kind() == kind && options[j].data.kind()
                    == kind {
                let (i, j) = choose|i: int, j: int|
                    0 <= i < j < n && options[i].data.kind() == kind && options[j].data.kind()
                        == kind;
                assert(0 <= i < j < n - 1);
            }
            if exists|i: int| 0 <= i < n && options[i].data.kind() == kind {
                let i = choose|i: int| 0 <= i < n && options[i].data.kind() == kind;
                assert(0 <= i < n - 1);
            }
        }
    }
}

/// There are diagnostics for duplicates exactly where two options are of the
/// same kind.
pub proof fn lemma_duplicates_iff_not_unique(options: Seq<ConfigOptionView>)
    ensures
        duplicates(options).len() == 0 <==> unique_kinds(options),
{
    let n = options.len() as int;
    lemma_marks_count(options, ConfigOptionKind::Vis, n);
    lemma_marks_count(options, ConfigOptionKind::RenameAll, n);
    lemma_marks_count(options, ConfigOptionKind::Rename, n);
    lemma_marks_count(options, ConfigOptionKind::Default, n);
    lemma_marks_count(options, ConfigOptionKind::Trim, n);
    if !unique_kinds(options) {
        let (i, j) = choose|i: int, j: int|
            0 <= i < j < options.len() && options[i].data.kind() == options[j].data.kind();
        let kind = options[i].data.kind();
        assert(0 <= i < j < n && options[i].data.kind() == kind && options[j].data.kind() == kind);
        assert(kind_duplicates(options, kind).len() >= 2);
    }
}

/// Which kinds of options a consumer takes.
#[derive(Clone, Copy, Debug, PartialEq, Eq, Structural)]
pub struct Profile {
    pub vis: bool,
    pub rename_all: bool,
    pub rename: bool,
    pub default: bool,
    pub trim: bool,
}

impl Profile {
    /// Whether options of kind `kind` are taken.
    pub open spec fn takes(self, kind: ConfigOptionKind) -> bool {
        match kind {
            ConfigOptionKind::Vis => self.vis,
            ConfigOptionKind::RenameAll => self.rename_all,
            ConfigOptionKind::Rename => self.rename,
            ConfigOptionKind::Default => self.default,
            ConfigOptionKind::Trim => self.trim,
        }
    }

    /// Whether options of kind `kind` are taken.
    pub fn accepts(&self, kind: ConfigOptionKind) -> (r: bool)
        ensures
            r == self.takes(kind),
    {
        match kind {
            ConfigOptionKind::Vis => self.vis,
            ConfigOptionKind::RenameAll => self.rename_all,
            ConfigOptionKind::Rename => self.rename,
            ConfigOptionKind::Default => self.default,
            ConfigOptionKind::Trim => self.trim,
        }
    }

    /// The profile of a container, a type whose members are documented:
    /// every kind but `rename`.
    pub open spec fn of_container() -> Profile {
        Profile { vis: true, rename_all: true, rename: false, default: true, trim: true }
    }

    /// The profile of a member: all five kinds.
    pub open spec fn of_member() -> Profile {
        Profile { vis: true, rename_all: true, rename: true, default: true, trim: true }
    }

    /// The profile of an item under the attribute macro: every kind but
    /// `rename_all`.
    pub open spec fn of_attr() -> Profile {
        Profile { vis: true, rename_all: false, rename: true, default: true, trim: true }
    }

    /// The profile of what is documented as a whole and by no name of its
    /// own, a type by itself or a variant: `default` and `trim`.
    pub open spec fn of_derive() -> Profile {
        Profile { vis: false, rename_all: false, rename: false, default: true, trim: true }
    }

    /// The profile of a documented field: every kind but `vis`.
    pub open spec fn of_fields() -> Profile {
        Profile { vis: false, rename_all: true, rename: true, default: true, trim: true }
    }

    /// The profile of a container, a type whose members are documented:
    /// every kind but `rename`.
    pub fn container() -> (r: Profile)
        ensures
            r == Self::of_container(),
    {
        Profile { vis: true, rename_all: true, rename: false, default: true, trim: true }
    }

    /// The profile of a member: all five kinds.
    pub fn member() -> (r: Profile)
        ensures
            r == Self::of_member(),
    {
        Profile { vis: true, rename_all: true, rename: true, default: true, trim: true }
    }

    /// The profile of an item under the attribute macro: every kind but
    /// `rename_all`.
    pub fn attr() -> (r: Profile)
        ensures
            r == Self::of_attr(),
    {
        Profile { vis: true, rename_all: false, rename: true, default: true, trim: true }
    }

    /// The profile of what is documented as a whole and by no name of its
    /// own, a type by itself or a variant: `default` and `trim`.
    pub fn derive() -> (r: Profile)
        ensures
            r == Self::of_derive(),
    {
        Profile { vis: false, rename_all: false, rename: false, default: true, trim: true }
    }

    /// The profile of a documented field: every kind but `vis`.
    pub fn fields() -> (r: Profile)
        ensures
            r == Self::of_fields(),
    {
        Profile { vis: false, rename_all: true, rename: true, default: true, trim: true }
    }
}

/// Every option is of a kind that the profile takes.
pub open spec fn all_applicable(options: Seq<ConfigOptionView>, profile: Profile) -> bool {
    forall|i: int| 0 <= i < options.len() ==> profile.takes(#[trigger] options[i].data.kind())
}

/// The overrides that one option list asks for: for each kind of option the
/// value given, if any.
#[derive(Clone, Debug, PartialEq, Eq)]
pub struct Customisations {
    pub custom_vis: Option<Visibility>,
    pub custom_name: Option<String>,
    pub rename_case: Option<Case>,
    pub default_value: Option<Expr>,
    pub trim: Option<bool>,
}

/// What a [`Customisations`] holds, with its texts as sequences of characters.
pub struct CustomisationsView {
    pub custom_vis: Option<Seq<char>>,
    pub custom_name: Option<Seq<char>>,
    pub rename_case: Option<Case>,
    pub default_value: Option<Seq<char>>,
    pub trim: Option<bool>,
}

impl View for Customisations {
    type V = CustomisationsView;

    open spec fn view(&self) -> CustomisationsView {
        CustomisationsView {
            custom_vis: vis_view(self.custom_vis),
            custom_name: text_view(self.custom_name),
            rename_case: self.rename_case,
            default_value: expr_view(self.default_value),
            trim: self.trim,
        }
    }
}

/// How the exposed name of a member is made.
#[derive(Clone, Debug, PartialEq, Eq)]
pub enum RenameMode {
    /// Use the name of the member itself, converted to another case.
    ToCase(Case),
    /// Use a custom name.
    Custom(String),
}

/// What a [`RenameMode`] holds, with its texts as sequences of characters.
pub enum RenameModeView {
    ToCase(Case),
    Custom(Seq<char>),
}

impl View for RenameMode {
    type V = RenameModeView;

    open spec fn view(&self) -> RenameModeView {
        match self {
            RenameMode::ToCase(case) => RenameModeView::ToCase(*case),
            RenameMode::Custom(name) => RenameModeView::Custom(name@),
        }
    }
}

/// The view of an optional rename mode.
pub open spec fn mode_view(m: Option<RenameMode>) -> Option<RenameModeView> {
    match m {
        Some(m) => Some(m@),
        None => None,
    }
}

/// The rename mode that a custom name and a case rule make together: the
/// custom name wherever there is one, else the case rule.
pub open spec fn rename_mode_of(custom_name: Option<Seq<char>>, rename_case: Option<Case>)
    -> Option<RenameModeView> {
    match custom_name {
        Some(name) => Some(RenameModeView::Custom(name)),
        None => match rename_case {
            Some(case) => Some(RenameModeView::ToCase(case)),
            None => None,
        },
    }
}

impl CustomisationsView {
    /// No overrides at all.
    pub open spec fn empty() -> CustomisationsView {
        CustomisationsView {
            custom_vis: None,
            custom_name: None,
            rename_case: None,
            default_value: None,
            trim: None,
        }
    }

    /// The overrides with the one of `data` added.
    pub open spec fn with(self, data: ConfigOptionDataView) -> CustomisationsView {
        match data {
            ConfigOptionDataView::Vis(vis) => CustomisationsView { custom_vis: Some(vis), ..self },
            ConfigOptionDataView::RenameAll(case) => CustomisationsView {
                rename_case: Some(case.0),
                ..self
            },
            ConfigOptionDataView::Rename(name) => CustomisationsView {
                custom_name: Some(name),
                ..self
            },
            ConfigOptionDataView::Default(expr) => CustomisationsView {
                default_value: Some(expr),
                ..self
            },
            ConfigOptionDataView::Trim(trim) => CustomisationsView { trim: Some(trim), ..self },
        }
    }

    /// The rename mode that the overrides ask for.
    pub open spec fn rename_mode(self) -> Option<RenameModeView> {
        rename_mode_of(self.custom_name, self.rename_case)
    }
}

/// The overrides of the first `n` options, or the error at the first of them
/// that the profile does not take.
pub open spec fn folded(options: Seq<ConfigOptionView>, profile: Profile, n: int) -> Result<
    CustomisationsView,
    Seq<DiagnosticView>,
>
    decreases n,
{
    if n <= 0 || n > options.len() {
        Ok(CustomisationsView::empty())
    } else {
        match folded(options, profile, n - 1) {
            Err(e) => Err(e),
            Ok(config) => {
                let option = options[n - 1];
                if profile.takes(option.data.kind()) {
                    Ok(config.with(option.data))
                } else {
                    Err(
                        single_error(
                            ErrorKind::InapplicableOption,
                            at_token(option.span),
                            message::NOT_APPLICABLE@,
                        ),
                    )
                }
            },
        }
    }
}

/// What an option list resolves to under a profile: the error of its
/// duplicates where a kind occurs twice, else its fold.
pub open spec fn customised(options: Seq<ConfigOptionView>, profile: Profile) -> Result<
    CustomisationsView,
    Seq<DiagnosticView>,
> {
    if duplicates(options).len() > 0 {
        Err(duplicates(options))
    } else {
        folded(options, profile, options.len() as int)
    }
}

/// What the tokens of one option list resolve to under a profile.
pub open spec fn customised_tokens(tokens: Seq<TokenView>, profile: Profile)
    -> Result<CustomisationsView, Seq<DiagnosticView>> {
    match parsed_list(tokens, 0, 0) {
        Err(e) => Err(e),
        Ok(options) => customised(options, profile),
    }
}

impl Customisations {
    /// No overrides at all.
    pub fn empty() -> (r: Customisations)
        ensures
            r@ == CustomisationsView::empty(),
    {
        Customisations {
            custom_vis: None,
            custom_name: None,
            rename_case: None,
            default_value: None,
            trim: None,
        }
    }

    /// The rename mode that the overrides ask for: the custom name wherever
    /// there is one, else the case rule.
    pub fn rename_mode(&self) -> (r: Option<RenameMode>)
        ensures
            mode_view(r) == self@.rename_mode(),
    {
        match &self.custom_name {
            Some(name) => Some(RenameMode::Custom(name.clone())),
            None => match self.rename_case {
                Some(case) => Some(RenameMode::ToCase(case)),
                None => None,
            },
        }
    }

    /// Folds an option list into overrides, option by option; a later
    /// option of a kind replaces an earlier one. An option of a kind that
    /// the profile does not take stops the fold with an error at that
    /// option. That no kind occurs twice is for the caller to check.
    pub fn try_from(opts: &Vec<ConfigOption>, profile: &Profile) -> (r: Result<
        Customisations,
        BuildError,
    >)
        ensures
            match folded(option_views(opts@), *profile, opts.len() as int) {
                Ok(config) => r matches Ok(c) && c@ == config,
                Err(e) => r matches Err(err) && err@ == e,
            },
    {
        let ghost all = option_views(opts@);
        let mut config = Customisations::empty();
        let mut i: usize = 0;
        while i < opts.len()
            invariant
                i <= opts.len(),
                all == option_views(opts@),
                folded(all, *profile, i as int) == Ok::<CustomisationsView, Seq<DiagnosticView>>(
                    config@,
                ),
            decreases opts.len() - i,
        {
            let opt = &opts[i];
            if !profile.accepts(opt.data.kind()) {
                proof {
                    lemma_folded_error_stays(all, *profile, i + 1, opts.len() as int);
                }
                return Err(
                    BuildError::new(
                        ErrorKind::InapplicableOption,
                        Location::token(opt.span),
                        message::NOT_APPLICABLE,
                    ),
                );
            }
            match &opt.data {
                ConfigOptionData::Vis(vis) => {
                    config.custom_vis = Some(Visibility { text: vis.text.clone() });
                },
                ConfigOptionData::RenameAll(case) => {
                    config.rename_case = Some(case.value());
                },
                ConfigOptionData::Rename(name) => {
                    config.custom_name = Some(name.clone());
                },
                ConfigOptionData::Default(expr) => {
                    config.default_value = Some(Expr { text: expr.text.clone() });
                },
                ConfigOptionData::Trim(trim) => {
                    config.trim = Some(*trim);
                },
            }
            i += 1;
        }
        Ok(config)
    }

    /// Resolves an option list under a profile: checks that no kind occurs
    /// twice, then folds the list.
    pub fn resolve(opts: &Vec<ConfigOption>, profile: &Profile) -> (r: Result<
        Customisations,
        BuildError,
    >)
        ensures
            match customised(option_views(opts@), *profile) {
                Ok(config) => r matches Ok(c) && c@ == config,
                Err(e) => r matches Err(err) && err@ == e,
            },
    {
        match ensure_unique_options(opts) {
            Err(e) => Err(e),
            Ok(()) => Self::try_from(opts, profile),
        }
    }

    /// Reads the tokens of one option list and resolves it under a
    /// profile.
    pub fn parse(tokens: &Vec<Token>, profile: &Profile) -> (r: Result<Customisations, BuildError>)
        ensures
            match customised_tokens(token_views(tokens@), *profile) {
                Ok(config) => r matches Ok(c) && c@ == config,
                Err(e) => r matches Err(err) && err@ == e,
            },
    {
        match parse_options(tokens, 0) {
            Err(e) => Err(e),
            Ok(opts) => Self::resolve(&opts, profile),
        }
    }
}

/// Once the fold has failed, it stays failed with the same error.
pub proof fn lemma_folded_error_stays(
    options: Seq<ConfigOptionView>,
    profile: Profile,
    n: int,
    m: int,
)
    requires
        0 <= n <= m <= options.len(),
        folded(options, profile, n) is Err,
    ensures
        folded(options, profile, m) == folded(options, profile, n),
    decreases m - n,
{
    if n < m {
        lemma_folded_error_stays(options, profile, n, m - 1);
    }
}

/// The fold of the first `n` options succeeds exactly where the profile
/// takes each of them.
pub proof fn lemma_folded_ok(options: Seq<ConfigOptionView>, profile: Profile, n: int)
    requires
        0 <= n <= options.len(),
    ensures
        folded(options, profile, n) is Ok <==> forall|i: int|
            0 <= i < n ==> profile.takes(#[trigger] options[i].data.kind()),
    decreases n,
{
    if n > 0 {
        lemma_folded_ok(options, profile, n - 1);
    }
}

/// An option list with no duplicate kinds and only applicable keys
/// resolves, and to one result: that of the fold.
pub proof fn law_valid_options_resolve(options: Seq<ConfigOptionView>, profile: Profile)
    requires
        unique_kinds(options),
        all_applicable(options, profile),
    ensures
        customised(options, profile) is Ok,
        customised(options, profile) == folded(options, profile, options.len() as int),
{
    lemma_duplicates_iff_not_unique(options);
    lemma_folded_ok(options, profile, options.len() as int);
}

/// The fold fails at the first option that the profile does not take: where
/// the options before position `i` are taken and the one at `i` is not, the
/// error is the one at that option.
pub proof fn law_first_inapplicable_option_is_reported(
    options: Seq<ConfigOptionView>,
    profile: Profile,
    i: int,
)
    requires
        0 <= i < options.len(),
        !profile.takes(options[i].data.kind()),
        forall|j: int| 0 <= j < i ==> profile.takes(#[trigger] options[j].data.kind()),
    ensures
        folded(options, profile, options.len() as int) == Err::<
            CustomisationsView,
            Seq<DiagnosticView>,
        >(
            single_error(
                ErrorKind::InapplicableOption,
                at_token(options[i].span),
                message::NOT_APPLICABLE@,
            ),
        ),
{
    lemma_folded_ok(options, profile, i);
    assert(folded(options, profile, i + 1) is Err);
    lemma_folded_error_stays(options, profile, i + 1, options.len() as int);
}

/// A container takes every kind of option but `rename`: the fold of an
/// option list under its profile succeeds exactly where the list holds no
/// `rename`.
pub proof fn law_container_refuses_rename_only(options: Seq<ConfigOptionView>)
    ensures
        folded(options, Profile::of_container(), options.len() as int) is Ok <==> forall|i: int|
            0 <= i < options.len() ==> (#[trigger] options[i].data.kind())
                != ConfigOptionKind::Rename,
{
    lemma_folded_ok(options, Profile::of_container(), options.len() as int);
}

/// Every mark is a diagnostic of a duplicate option, and every option of the
/// kind among the first `n` has its mark.
proof fn lemma_marks_places(options: Seq<ConfigOptionView>, kind: ConfigOptionKind, n: int)
    requires
        0 <= n <= options.len(),
    ensures
        forall|k: int|
            0 <= k < marks(options, kind, n).len() ==> (#[trigger] marks(options, kind, n)[k]).kind
                == ErrorKind::DuplicateOption,
        forall|i: int|
            0 <= i < n && options[i].data.kind() == kind ==> exists|k: int|
                0 <= k < marks(options, kind, n).len() && (#[trigger] marks(
                    options,
                    kind,
                    n,
                )[k]).location == at_token(options[i].span),
    decreases n,
{
    if n > 0 {
        lemma_marks_places(options, kind, n - 1);
        let before = marks(options, kind, n - 1);
        let now = marks(options, kind, n);
        assert forall|i: int| 0 <= i < n && options[i].data.kind() == kind implies exists|k: int|
            0 <= k < now.len() && (#[trigger] now[k]).location == at_token(options[i].span) by {
            if i < n - 1 {
                let k = choose|k: int|
                    0 <= k < before.len() && (#[trigger] before[k]).location == at_token(
                        options[i].span,
                    );
                lemma_marks_count(options, kind, n - 1);
                if options[n - 1].data.kind() == kind {
                    assert(now[k] == before[k]);
                }
                assert(now[k].location == at_token(options[i].span));
            } else {
                assert(now[now.len() - 1].location == at_token(options[i].span));
            }
        }
    }
}

/// Two options of one kind, wherever they stand in the list, make the
/// resolution fail, whatever the profile: the error is the one of the
/// duplicates, each of its diagnostics is of the kind for duplicate
/// options, and there is one at the place of either option.
pub proof fn law_duplicate_kinds_rejected(
    options: Seq<ConfigOptionView>,
    profile: Profile,
    i: int,
    j: int,
)
    requires
        0 <= i < j < options.len(),
        options[i].data.kind() == options[j].data.kind(),
    ensures
        customised(options, profile) == Err::<CustomisationsView, Seq<DiagnosticView>>(
            duplicates(options),
        ),
        duplicates(options).len() >= 2,
        forall|k: int|
            0 <= k < duplicates(options).len() ==> (#[trigger] duplicates(options)[k]).kind
                == ErrorKind::DuplicateOption,
        exists|k: int|
            0 <= k < duplicates(options).len() && (#[trigger] duplicates(options)[k]).location
                == at_token(options[i].span),
        exists|k: int|
            0 <= k < duplicates(options).len() && (#[trigger] duplicates(options)[k]).location
                == at_token(options[j].span),
{
    let n = options.len() as int;
    let kind = options[i].data.kind();
    let all = duplicates(options);
    lemma_marks_count(options, kind, n);
    lemma_marks_places(options, ConfigOptionKind::Vis, n);
    lemma_marks_places(options, ConfigOptionKind::RenameAll, n);
    lemma_marks_places(options, ConfigOptionKind::Rename, n);
    lemma_marks_places(options, ConfigOptionKind::Default, n);
    lemma_marks_places(options, ConfigOptionKind::Trim, n);
    let part = marks(options, kind, n);
    assert(kind_duplicates(options, kind) == part);
    let a = kind_duplicates(options, ConfigOptionKind::Vis);
    let b = kind_duplicates(options, ConfigOptionKind::RenameAll);
    let c = kind_duplicates(options, ConfigOptionKind::Rename);
    let d = kind_duplicates(options, ConfigOptionKind::Default);
    let offset: int = match kind {
        ConfigOptionKind::Vis => 0,
        ConfigOptionKind::RenameAll => a.len() as int,
        ConfigOptionKind::Rename => (a.len() + b.len()) as int,
        ConfigOptionKind::Default => (a.len() + b.len() + c.len()) as int,
        ConfigOptionKind::Trim => (a.len() + b.len() + c.len() + d.len()) as int,
    };
    assert forall|k: int| 0 <= k < part.len() implies all[offset + k] == part[k] by {}
    let ki = choose|k: int|
        0 <= k < part.len() && (#[trigger] part[k]).location == at_token(options[i].span);
    let kj = choose|k: int|
        0 <= k < part.len() && (#[trigger] part[k]).location == at_token(options[j].span);
    assert(all[offset + ki].location == at_token(options[i].span));
    assert(all[offset + kj].location == at_token(options[j].span));
}

/// The message at an attribute that names options but is no list.
pub open spec fn not_list_like(name: Seq<char>) -> Seq<char> {
    name + " is not list-like. Expecting `"@ + name + "(...)`"@
}

/// The options of the attributes named `name` among the first `n`
/// attributes, in order, each option with the position of its attribute; or
/// the error of the first such attribute that is no list or whose list does
/// not parse.
pub open spec fn attr_options(attrs: Seq<Attribute>, name: Seq<char>, n: int) -> Result<
    Seq<ConfigOptionView>,
    Seq<DiagnosticView>,
>
    decreases n,
{
    if n <= 0 || n > attrs.len() {
        Ok(Seq::<ConfigOptionView>::empty())
    } else {
        match attr_options(attrs, name, n - 1) {
            Err(e) => Err(e),
            Ok(before) => {
                let attr = attrs[n - 1];
                if !attr.named(name) {
                    Ok(before)
                } else {
                    match attr.meta {
                        Meta::List(tokens) => match parsed_list(
                            token_views(tokens@),
                            0,
                            (n - 1) as usize,
                        ) {
                            Ok(options) => Ok(before + options),
                            Err(e) => Err(e),
                        },
                        _ => Err(
                            single_error(
                                ErrorKind::MalformedValue,
                                Location {
                                    member: None,
                                    place: Place::Attribute((n - 1) as usize),
                                },
                                not_list_like(name),
                            ),
                        ),
                    }
                }
            },
        }
    }
}

/// What the attributes named `name` resolve to under a profile: all their
/// options together must hold no kind twice.
pub open spec fn attr_customisations(attrs: Seq<Attribute>, name: Seq<char>, profile: Profile)
    -> Result<CustomisationsView, Seq<DiagnosticView>> {
    match attr_options(attrs, name, attrs.len() as int) {
        Err(e) => Err(e),
        Ok(options) => customised(options, profile),
    }
}

proof fn lemma_attr_options_error_stays(attrs: Seq<Attribute>, name: Seq<char>, n: int, m: int)
    requires
        0 <= n <= m <= attrs.len(),
        attr_options(attrs, name, n) is Err,
    ensures
        attr_options(attrs, name, m) == attr_options(attrs, name, n),
    decreases m - n,
{
    if n < m {
        lemma_attr_options_error_stays(attrs, name, n, m - 1);
    }
}

/// Gathers the options of all attributes named `attr_name`, each of which
/// must be a list.
pub fn get_options_from_attrs(attrs: &Vec<Attribute>, attr_name: &str) -> (r: Result<
    Vec<ConfigOption>,
    BuildError,
>)
    ensures
        match attr_options(attrs@, attr_name@, attrs.len() as int) {
            Ok(options) => r matches Ok(v) && option_views(v@) == options,
            Err(e) => r matches Err(err) && err@ == e,
        },
{
    let mut options: Vec<ConfigOption> = Vec::new();
    let mut i: usize = 0;
    assert(option_views(options@) =~= Seq::<ConfigOptionView>::empty());
    while i < attrs.len()
        invariant
            i <= attrs.len(),
            attr_options(attrs@, attr_name@, i as int) == Ok::<
                Seq<ConfigOptionView>,
                Seq<DiagnosticView>,
            >(option_views(options@)),
        decreases attrs.len() - i,
    {
        let attr = &attrs[i];
        if attr.is_ident(attr_name) {
            match &attr.meta {
                Meta::List(tokens) => match parse_options(tokens, i) {
                    Ok(found) => {
                        let ghost before = option_views(options@);
                        let mut k: usize = 0;
                        while k < found.len()
                            invariant
                                k <= found.len(),
                                option_views(options@) == before + option_views(found@).take(
                                    k as int,
                                ),
                            decreases found.len() - k,
                        {
                            let ghost now = option_views(options@);
                            let copy = found[k].duplicate();
                            options.push(copy);
                            assert(option_views(options@) =~= now.push(copy@));
                            k += 1;
                            assert(option_views(found@).take(k as int) =~= option_views(
                                found@,
                            ).take(k - 1).push(found@[k - 1]@));
                            assert(option_views(options@) =~= before + option_views(found@).take(
                                k as int,
                            ));
                        }
                        assert(option_views(found@).take(found.len() as int) =~= option_views(
                            found@,
                        ));
                    },
                    Err(e) => {
                        proof {
                            lemma_attr_options_error_stays(
                                attrs@,
                                attr_name@,
                                i + 1,
                                attrs.len() as int,
                            );
                        }
                        return Err(e);
                    },
                },
                _ => {
                    proof {
                        lemma_attr_options_error_stays(
                            attrs@,
                            attr_name@,
                            i + 1,
                            attrs.len() as int,
                        );
                    }
                    let mut message = String::from_str(attr_name);
                    message.append(" is not list-like. Expecting `");
                    message.append(attr_name);
                    message.append("(...)`");
                    return Err(
                        BuildError::new(
                            ErrorKind::MalformedValue,
                            Location::attribute(i),
                            message.as_str(),
                        ),
                    );
                },
            }
        }
        i += 1;
    }
    Ok(options)
}

/// Reads the attributes named `attr_name` into customisations under a
/// profile.
///
/// The options may be spread over several attributes of that name; together
/// they must hold no kind twice.
pub fn get_customisations_from_attrs(attrs: &Vec<Attribute>, attr_name: &str, profile: &Profile)
    -> (r: Result<Customisations, BuildError>)
    ensures
        match attr_customisations(attrs@, attr_name@, *profile) {
            Ok(config) => r matches Ok(c) && c@ == config,
            Err(e) => r matches Err(err) && err@ == e,
        },
{
    match get_options_from_attrs(attrs, attr_name) {
        Err(e) => Err(e),
        Ok(options) => Customisations::resolve(&options, profile),
    }
}

proof fn lemma_folded_name(
    options: Seq<ConfigOptionView>,
    profile: Profile,
    n: int,
    i: int,
    name: Seq<char>,
)
    requires
        0 <= i < n <= options.len(),
        unique_kinds(options),
        options[i].data == ConfigOptionDataView::Rename(name),
        folded(options, profile, n) is Ok,
    ensures
        folded(options, profile, n)->Ok_0.custom_name == Some(name),
    decreases n,
{
    if n - 1 > i {
        lemma_folded_name(options, profile, n - 1, i, name);
        assert(options[n - 1].data.kind() != options[i].data.kind());
    }
}

/// Within one option list, `rename` wins over `rename_all` wherever the two
/// stand: a list that resolves and holds `rename = name` asks for that
/// custom name.
pub proof fn law_rename_wins_in_list(
    options: Seq<ConfigOptionView>,
    profile: Profile,
    i: int,
    name: Seq<char>,
)
    requires
        0 <= i < options.len(),
        options[i].data == ConfigOptionDataView::Rename(name),
        customised(options, profile) is Ok,
    ensures
        customised(options, profile)->Ok_0.rename_mode() == Some(RenameModeView::Custom(name)),
{
    lemma_duplicates_iff_not_unique(options);
    lemma_folded_name(options, profile, options.len() as int, i, name);
}

} // verus!

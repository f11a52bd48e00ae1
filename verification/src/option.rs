//! The option language: `key = value, key = value, ...`.
//!
//! An option list is parsed from tokens into typed options, each with the
//! place of its key. Which options a consumer takes is decided later, when
//! the options are folded into a configuration; here every known key
//! parses.

use vstd::prelude::*;
use crate::error::{at_token, single_error, BuildError, DiagnosticView, ErrorKind, Location, Span};
use crate::host::{
    expression,
    is_expression,
    is_visibility,
    string_literal,
    string_literal_value,
    visibility,
};
use crate::message;
use crate::text::same_text;
use crate::token::{render_range, rendered, token_views, Token, TokenView};

verus! {

broadcast use vstd::string::group_string_axioms;

/// The kinds of options.
#[derive(Clone, Copy, Debug, PartialEq, Eq, Hash, Structural)]
pub enum ConfigOptionKind {
    Vis,
    RenameAll,
    Rename,
    Default,
    Trim,
}

/// The letter cases that `rename_all` knows.
#[derive(Clone, Copy, Debug, PartialEq, Eq, Hash, Structural)]
pub enum Case {
    Lower,
    Upper,
    Pascal,
    Camel,
    Snake,
    UpperSnake,
    Kebab,
    UpperKebab,
}

/// A supported case of `rename_all`.
#[derive(Clone, Copy, Debug, PartialEq, Eq, Structural)]
pub struct LitCase(pub Case);

/// A visibility, by its source text; the empty text is the inherited one.
#[derive(Clone, Debug, PartialEq, Eq)]
pub struct Visibility {
    pub text: String,
}

/// An expression of the host language, by its source text.
#[derive(Clone, Debug, PartialEq, Eq)]
pub struct Expr {
    pub text: String,
}

impl View for Visibility {
    type V = Seq<char>;

    open spec fn view(&self) -> Seq<char> {
        self.text@
    }
}

impl View for Expr {
    type V = Seq<char>;

    open spec fn view(&self) -> Seq<char> {
        self.text@
    }
}

/// The view of an optional expression.
pub open spec fn expr_view(e: Option<Expr>) -> Option<Seq<char>> {
    match e {
        Some(e) => Some(e@),
        None => None,
    }
}

/// The view of an optional visibility.
pub open spec fn vis_view(v: Option<Visibility>) -> Option<Seq<char>> {
    match v {
        Some(v) => Some(v@),
        None => None,
    }
}

impl Expr {
    /// The value of the expression where it is one string literal.
    pub fn string_literal(&self) -> (r: Option<String>)
        ensures
            match string_literal(self@) {
                Some(value) => r matches Some(s) && s@ == value,
                None => r is None,
            },
    {
        string_literal_value(self.text.as_str())
    }
}

/// The data of all known configuration options.
#[derive(Clone, Debug, PartialEq, Eq)]
pub enum ConfigOptionData {
    /// Custom visibility for the generated constant, as in `vis = pub(crate)`.
    Vis(Visibility),
    /// Custom casing of key names, as in `rename_all = "kebab-case"`.
    RenameAll(LitCase),
    /// Custom key name, as in `rename = "custom_field_name"`.
    Rename(String),
    /// The value to use when doc comments are absent, as in
    /// `default = "not documented"`.
    Default(Expr),
    /// Whether each line is trimmed, as in `trim = false`.
    Trim(bool),
}

/// What a [`ConfigOptionData`] holds, with its texts as sequences of characters.
pub enum ConfigOptionDataView {
    Vis(Seq<char>),
    RenameAll(LitCase),
    Rename(Seq<char>),
    Default(Seq<char>),
    Trim(bool),
}

impl View for ConfigOptionData {
    type V = ConfigOptionDataView;

    open spec fn view(&self) -> ConfigOptionDataView {
        match self {
            ConfigOptionData::Vis(vis) => ConfigOptionDataView::Vis(vis@),
            ConfigOptionData::RenameAll(case) => ConfigOptionDataView::RenameAll(*case),
            ConfigOptionData::Rename(name) => ConfigOptionDataView::Rename(name@),
            ConfigOptionData::Default(expr) => ConfigOptionDataView::Default(expr@),
            ConfigOptionData::Trim(trim) => ConfigOptionDataView::Trim(*trim),
        }
    }
}

impl ConfigOptionDataView {
    /// The kind of the option.
    pub open spec fn kind(self) -> ConfigOptionKind {
        match self {
            ConfigOptionDataView::Vis(_) => ConfigOptionKind::Vis,
            ConfigOptionDataView::RenameAll(_) => ConfigOptionKind::RenameAll,
            ConfigOptionDataView::Rename(_) => ConfigOptionKind::Rename,
            ConfigOptionDataView::Default(_) => ConfigOptionKind::Default,
            ConfigOptionDataView::Trim(_) => ConfigOptionKind::Trim,
        }
    }
}

/// A configuration option with the place of its key. Each consumer may
/// accept or reject any of them.
#[derive(Clone, Debug, PartialEq, Eq)]
pub struct ConfigOption {
    /// The place of the keyword of the option.
    pub span: Span,
    /// The key and its value.
    pub data: ConfigOptionData,
}

/// What a [`ConfigOption`] holds, with its texts as sequences of characters.
pub struct ConfigOptionView {
    pub span: Span,
    pub data: ConfigOptionDataView,
}

impl View for ConfigOption {
    type V = ConfigOptionView;

    open spec fn view(&self) -> ConfigOptionView {
        ConfigOptionView { span: self.span, data: self.data@ }
    }
}

/// The views of a sequence of options.
pub open spec fn option_views(options: Seq<ConfigOption>) -> Seq<ConfigOptionView> {
    options.map_values(|o: ConfigOption| o@)
}

impl ConfigOptionKind {
    /// The key by which the kind is written.
    pub open spec fn keyword(self) -> Seq<char> {
        match self {
            ConfigOptionKind::Vis => "vis"@,
            ConfigOptionKind::RenameAll => "rename_all"@,
            ConfigOptionKind::Rename => "rename"@,
            ConfigOptionKind::Default => "default"@,
            ConfigOptionKind::Trim => "trim"@,
        }
    }

    /// The kind that the key `word` stands for.
    pub open spec fn of_keyword(word: Seq<char>) -> Option<ConfigOptionKind> {
        if word == "vis"@ {
            Some(ConfigOptionKind::Vis)
        } else if word == "rename_all"@ {
            Some(ConfigOptionKind::RenameAll)
        } else if word == "rename"@ {
            Some(ConfigOptionKind::Rename)
        } else if word == "default"@ {
            Some(ConfigOptionKind::Default)
        } else if word == "trim"@ {
            Some(ConfigOptionKind::Trim)
        } else {
            None
        }
    }

    /// The key by which the kind is written.
    pub fn name(&self) -> (r: &'static str)
        ensures
            r@ == self.keyword(),
    {
        match self {
            ConfigOptionKind::Vis => "vis",
            ConfigOptionKind::RenameAll => "rename_all",
            ConfigOptionKind::Rename => "rename",
            ConfigOptionKind::Default => "default",
            ConfigOptionKind::Trim => "trim",
        }
    }

    /// The kind that the key `word` stands for.
    pub fn from_keyword(word: &str) -> (r: Option<ConfigOptionKind>)
        ensures
            r == Self::of_keyword(word@),
    {
        if same_text(word, "vis") {
            Some(ConfigOptionKind::Vis)
        } else if same_text(word, "rename_all") {
            Some(ConfigOptionKind::RenameAll)
        } else if same_text(word, "rename") {
            Some(ConfigOptionKind::Rename)
        } else if same_text(word, "default") {
            Some(ConfigOptionKind::Default)
        } else if same_text(word, "trim") {
            Some(ConfigOptionKind::Trim)
        } else {
            None
        }
    }

    /// Reads the key of an option at position `pos`.
    ///
    /// A known key gives its kind. The former key `name` is refused with a
    /// hint at `rename`; anything else is refused as unknown.
    pub fn parse(tokens: &Vec<Token>, pos: usize, attr: usize) -> (r: Result<
        ConfigOptionKind,
        BuildError,
    >)
        ensures
            match parsed_kind(token_views(tokens@), pos as int, attr) {
                Ok(kind) => r matches Ok(k) && k == kind,
                Err(e) => r matches Err(err) && err@ == e,
            },
    {
        let here = Location::token(Span { attr, token: pos });
        if pos >= tokens.len() {
            return Err(
                BuildError::new(
                    ErrorKind::UnknownOption,
                    here,
                    message::UNKNOWN_OPTION,
                ),
            );
        }
        match &tokens[pos] {
            Token::Ident(word) => {
                match Self::from_keyword(word.as_str()) {
                    Some(kind) => Ok(kind),
                    None => {
                        if same_text(word.as_str(), "name") {
                            Err(
                                BuildError::new(
                                    ErrorKind::UnknownOption,
                                    here,
                                    message::REMOVED_NAME,
                                ),
                            )
                        } else {
                            Err(
                                BuildError::new(
                                    ErrorKind::UnknownOption,
                                    here,
                                    message::UNKNOWN_OPTION,
                                ),
                            )
                        }
                    },
                }
            },
            _ => Err(
                BuildError::new(
                    ErrorKind::UnknownOption,
                    here,
                    message::UNKNOWN_OPTION,
                ),
            ),
        }
    }
}

/// The error of one message at the token at position `token` of the option
/// list of the attribute at position `attr`.
pub open spec fn syntax_error(kind: ErrorKind, attr: usize, token: int, message: Seq<char>) -> Seq<
    DiagnosticView,
> {
    single_error(kind, at_token(Span { attr, token: token as usize }), message)
}

/// What the key at position `pos` stands for. A known key stands for its
/// kind; the former key `name` is refused with a hint at `rename`, and
/// anything else, the end of the list too, as unknown.
pub open spec fn parsed_kind(tokens: Seq<TokenView>, pos: int, attr: usize) -> Result<
    ConfigOptionKind,
    Seq<DiagnosticView>,
> {
    if 0 <= pos < tokens.len() {
        key_kind(tokens[pos], pos, attr)
    } else {
        Err(
            syntax_error(
                ErrorKind::UnknownOption,
                attr,
                pos,
                message::UNKNOWN_OPTION@,
            ),
        )
    }
}

/// What the token `key` at position `pos` stands for as a key.
pub open spec fn key_kind(key: TokenView, pos: int, attr: usize) -> Result<
    ConfigOptionKind,
    Seq<DiagnosticView>,
> {
    match key {
        TokenView::Ident(word) => match ConfigOptionKind::of_keyword(word) {
            Some(kind) => Ok(kind),
            None => if word == "name"@ {
                Err(
                    syntax_error(
                        ErrorKind::UnknownOption,
                        attr,
                        pos,
                        message::REMOVED_NAME@,
                    ),
                )
            } else {
                Err(
                    syntax_error(
                        ErrorKind::UnknownOption,
                        attr,
                        pos,
                        message::UNKNOWN_OPTION@,
                    ),
                )
            },
        },
        _ => Err(
            syntax_error(
                ErrorKind::UnknownOption,
                attr,
                pos,
                message::UNKNOWN_OPTION@,
            ),
        ),
    }
}

impl LitCase {
    /// The case that is written as `name`.
    pub open spec fn of_name(name: Seq<char>) -> Option<LitCase> {
        if name == "lowercase"@ {
            Some(LitCase(Case::Lower))
        } else if name == "UPPERCASE"@ {
            Some(LitCase(Case::Upper))
        } else if name == "PascalCase"@ {
            Some(LitCase(Case::Pascal))
        } else if name == "camelCase"@ {
            Some(LitCase(Case::Camel))
        } else if name == "snake_case"@ {
            Some(LitCase(Case::Snake))
        } else if name == "SCREAMING_SNAKE_CASE"@ {
            Some(LitCase(Case::UpperSnake))
        } else if name == "kebab-case"@ {
            Some(LitCase(Case::Kebab))
        } else if name == "SCREAMING-KEBAB-CASE"@ {
            Some(LitCase(Case::UpperKebab))
        } else {
            None
        }
    }

    /// The case itself.
    pub fn value(&self) -> (r: Case)
        ensures
            r == self.0,
    {
        self.0
    }

    /// The case that is written as `name`, if it is one of the supported
    /// ones.
    pub fn from_name(name: &str) -> (r: Option<LitCase>)
        ensures
            r == Self::of_name(name@),
    {
        if same_text(name, "lowercase") {
            Some(LitCase(Case::Lower))
        } else if same_text(name, "UPPERCASE") {
            Some(LitCase(Case::Upper))
        } else if same_text(name, "PascalCase") {
            Some(LitCase(Case::Pascal))
        } else if same_text(name, "camelCase") {
            Some(LitCase(Case::Camel))
        } else if same_text(name, "snake_case") {
            Some(LitCase(Case::Snake))
        } else if same_text(name, "SCREAMING_SNAKE_CASE") {
            Some(LitCase(Case::UpperSnake))
        } else if same_text(name, "kebab-case") {
            Some(LitCase(Case::Kebab))
        } else if same_text(name, "SCREAMING-KEBAB-CASE") {
            Some(LitCase(Case::UpperKebab))
        } else {
            None
        }
    }

    /// Reads the value of `rename_all` at position `pos`: a string literal
    /// that names a supported case.
    pub fn parse(tokens: &Vec<Token>, pos: usize, attr: usize) -> (r: Result<LitCase, BuildError>)
        ensures
            match parsed_case(token_views(tokens@), pos as int, attr) {
                Ok(case) => r matches Ok(c) && c == case,
                Err(e) => r matches Err(err) && err@ == e,
            },
    {
        match parse_string(tokens, pos, attr) {
            Err(e) => Err(e),
            Ok(name) => match Self::from_name(name.as_str()) {
                Some(case) => Ok(case),
                None => Err(
                    BuildError::new(
                        ErrorKind::MalformedValue,
                        Location::token(Span { attr, token: pos }),
                        message::UNKNOWN_CASE,
                    ),
                ),
            },
        }
    }
}

/// The value of the string literal at position `pos`.
pub open spec fn parsed_string(tokens: Seq<TokenView>, pos: int, attr: usize) -> Result<
    Seq<char>,
    Seq<DiagnosticView>,
> {
    if 0 <= pos < tokens.len() && tokens[pos] is Literal && string_literal(
        tokens[pos]->Literal_0,
    ) is Some {
        Ok(string_literal(tokens[pos]->Literal_0)->0)
    } else {
        Err(syntax_error(ErrorKind::MalformedValue, attr, pos, message::EXPECTED_STRING@))
    }
}

/// The case that the string literal at position `pos` names.
pub open spec fn parsed_case(tokens: Seq<TokenView>, pos: int, attr: usize) -> Result<
    LitCase,
    Seq<DiagnosticView>,
> {
    match parsed_string(tokens, pos, attr) {
        Err(e) => Err(e),
        Ok(name) => match LitCase::of_name(name) {
            Some(case) => Ok(case),
            None => Err(
                syntax_error(
                    ErrorKind::MalformedValue,
                    attr,
                    pos,
                    message::UNKNOWN_CASE@,
                ),
            ),
        },
    }
}

/// The boolean literal at position `pos`.
pub open spec fn parsed_bool(tokens: Seq<TokenView>, pos: int, attr: usize) -> Result<
    bool,
    Seq<DiagnosticView>,
> {
    if 0 <= pos < tokens.len() && tokens[pos].is_ident("true"@) {
        Ok(true)
    } else if 0 <= pos < tokens.len() && tokens[pos].is_ident("false"@) {
        Ok(false)
    } else {
        Err(syntax_error(ErrorKind::MalformedValue, attr, pos, message::EXPECTED_BOOL@))
    }
}

/// How deep within groups position `i` lies, counted from position
/// `start`. A closing delimiter that closes nothing is passed over.
pub open spec fn depth(tokens: Seq<TokenView>, start: int, i: int) -> nat
    decreases i - start,
{
    if start < 0 || i <= start || i > tokens.len() {
        0
    } else {
        let before = depth(tokens, start, i - 1);
        match tokens[i - 1] {
            TokenView::Open(_) => before + 1,
            TokenView::Close(_) => if before > 0 {
                (before - 1) as nat
            } else {
                0
            },
            _ => before,
        }
    }
}

/// Whether a value that starts at position `start` may end before position
/// `end`: outside of all groups, at the end of the list or before a comma.
pub open spec fn is_boundary(tokens: Seq<TokenView>, start: int, end: int) -> bool {
    &&& depth(tokens, start, end) == 0
    &&& end == tokens.len() || (0 <= end < tokens.len() && tokens[end].is_punct(','))
}

/// The end of the expression that starts at position `start`: the first
/// boundary at or after `from` up to which the tokens are an expression.
pub open spec fn expression_end(tokens: Seq<TokenView>, start: int, from: int) -> Option<int>
    decreases tokens.len() - from,
{
    if from > tokens.len() || from < start || start < 0 {
        None
    } else if is_boundary(tokens, start, from) && expression(
        rendered(tokens.subrange(start, from)),
    ) {
        Some(from)
    } else if from == tokens.len() {
        None
    } else {
        expression_end(tokens, start, from + 1)
    }
}

/// The expression that starts at position `pos`, with the number of its
/// tokens.
pub open spec fn parsed_expression(tokens: Seq<TokenView>, pos: int, attr: usize) -> Result<
    (Seq<char>, nat),
    Seq<DiagnosticView>,
> {
    match expression_end(tokens, pos, pos) {
        Some(end) => Ok((rendered(tokens.subrange(pos, end)), (end - pos) as nat)),
        None => Err(
            syntax_error(ErrorKind::MalformedValue, attr, pos, message::EXPECTED_EXPRESSION@),
        ),
    }
}

/// The end of the visibility that starts at position `start`: the last
/// position, from `upto` downwards, up to which the tokens are a visibility;
/// `start` itself where they are one up to no position after it.
pub open spec fn visibility_end(tokens: Seq<TokenView>, start: int, upto: int) -> int
    decreases upto - start,
{
    if start < 0 || upto <= start || upto > tokens.len() {
        start
    } else if visibility(rendered(tokens.subrange(start, upto))) {
        upto
    } else {
        visibility_end(tokens, start, upto - 1)
    }
}

/// The visibility that starts at position `pos`, with the number of its
/// tokens: the longest run of tokens from there that is a visibility. Where
/// no run is one, the visibility is the inherited one, of no tokens.
pub open spec fn parsed_visibility(tokens: Seq<TokenView>, pos: int) -> (Seq<char>, nat) {
    let end = visibility_end(tokens, pos, tokens.len() as int);
    if pos < end <= tokens.len() {
        (rendered(tokens.subrange(pos, end)), (end - pos) as nat)
    } else {
        (Seq::<char>::empty(), 0)
    }
}

/// The value of an option of kind `kind` that starts at position `pos`, with
/// the number of its tokens.
pub open spec fn parsed_value(
    tokens: Seq<TokenView>,
    kind: ConfigOptionKind,
    pos: int,
    attr: usize,
) -> Result<(ConfigOptionDataView, nat), Seq<DiagnosticView>> {
    match kind {
        ConfigOptionKind::Vis => Ok(
            (
                ConfigOptionDataView::Vis(parsed_visibility(tokens, pos).0),
                parsed_visibility(tokens, pos).1,
            ),
        ),
        ConfigOptionKind::RenameAll => match parsed_case(tokens, pos, attr) {
            Ok(case) => Ok((ConfigOptionDataView::RenameAll(case), 1)),
            Err(e) => Err(e),
        },
        ConfigOptionKind::Rename => match parsed_string(tokens, pos, attr) {
            Ok(name) => Ok((ConfigOptionDataView::Rename(name), 1)),
            Err(e) => Err(e),
        },
        ConfigOptionKind::Default => match parsed_expression(tokens, pos, attr) {
            Ok((expr, n)) => Ok((ConfigOptionDataView::Default(expr), n)),
            Err(e) => Err(e),
        },
        ConfigOptionKind::Trim => match parsed_bool(tokens, pos, attr) {
            Ok(trim) => Ok((ConfigOptionDataView::Trim(trim), 1)),
            Err(e) => Err(e),
        },
    }
}

/// The option that starts at position `pos`, with the position after it.
pub open spec fn parsed_option(tokens: Seq<TokenView>, pos: int, attr: usize) -> Result<
    (ConfigOptionView, int),
    Seq<DiagnosticView>,
> {
    match parsed_kind(tokens, pos, attr) {
        Err(e) => Err(e),
        Ok(kind) => if pos + 1 < tokens.len() && tokens[pos + 1].is_punct('=') {
            match parsed_value(tokens, kind, pos + 2, attr) {
                Ok((data, n)) => Ok(
                    (
                        ConfigOptionView { span: Span { attr, token: pos as usize }, data },
                        pos + 2 + n,
                    ),
                ),
                Err(e) => Err(e),
            }
        } else {
            Err(syntax_error(ErrorKind::MalformedValue, attr, pos + 1, message::EXPECTED_EQUALS@))
        },
    }
}

/// The options of the list from position `pos` on: options with commas
/// between them, and one more comma at the end if any.
pub open spec fn parsed_list(tokens: Seq<TokenView>, pos: int, attr: usize) -> Result<
    Seq<ConfigOptionView>,
    Seq<DiagnosticView>,
>
    decreases tokens.len() - pos,
{
    if pos < 0 || pos >= tokens.len() {
        Ok(Seq::<ConfigOptionView>::empty())
    } else {
        match parsed_option(tokens, pos, attr) {
            Err(e) => Err(e),
            Ok((option, end)) => if end >= tokens.len() {
                Ok(seq![option])
            } else if end > pos && tokens[end].is_punct(',') {
                match parsed_list(tokens, end + 1, attr) {
                    Ok(rest) => Ok(seq![option] + rest),
                    Err(e) => Err(e),
                }
            } else {
                Err(syntax_error(ErrorKind::MalformedValue, attr, end, message::EXPECTED_COMMA@))
            },
        }
    }
}

/// Reads the string literal at position `pos` and gives its value.
pub fn parse_string(tokens: &Vec<Token>, pos: usize, attr: usize) -> (r: Result<String, BuildError>)
    ensures
        match parsed_string(token_views(tokens@), pos as int, attr) {
            Ok(value) => r matches Ok(s) && s@ == value,
            Err(e) => r matches Err(err) && err@ == e,
        },
{
    if pos < tokens.len() {
        match &tokens[pos] {
            Token::Literal(text) => {
                match string_literal_value(text.as_str()) {
                    Some(value) => {
                        return Ok(value);
                    },
                    None => {},
                }
            },
            _ => {},
        }
    }
    Err(
        BuildError::new(
            ErrorKind::MalformedValue,
            Location::token(Span { attr, token: pos }),
            message::EXPECTED_STRING,
        ),
    )
}

/// Reads the boolean literal at position `pos`.
pub fn parse_bool(tokens: &Vec<Token>, pos: usize, attr: usize) -> (r: Result<bool, BuildError>)
    ensures
        match parsed_bool(token_views(tokens@), pos as int, attr) {
            Ok(value) => r matches Ok(b) && b == value,
            Err(e) => r matches Err(err) && err@ == e,
        },
{
    if pos < tokens.len() && tokens[pos].is_ident("true") {
        Ok(true)
    } else if pos < tokens.len() && tokens[pos].is_ident("false") {
        Ok(false)
    } else {
        Err(
            BuildError::new(
                ErrorKind::MalformedValue,
                Location::token(Span { attr, token: pos }),
                message::EXPECTED_BOOL,
            ),
        )
    }
}

/// Tells how a token changes the depth within groups.
fn step_depth(token: &Token, level: usize) -> (r: usize)
    requires
        level < usize::MAX,
    ensures
        r == match token@ {
            TokenView::Open(_) => level + 1,
            TokenView::Close(_) => if level > 0 {
                level - 1
            } else {
                0
            },
            _ => level as int,
        },
{
    match token {
        Token::Open(_) => level + 1,
        Token::Close(_) => if level > 0 {
            level - 1
        } else {
            0
        },
        _ => level,
    }
}

/// Reads the expression that starts at position `pos`: the tokens up to the
/// first end of the list or comma, outside of all groups, at which they are
/// an expression.
pub fn parse_expression(tokens: &Vec<Token>, pos: usize, attr: usize) -> (r: Result<
    (Expr, usize),
    BuildError,
>)
    ensures
        match parsed_expression(token_views(tokens@), pos as int, attr) {
            Ok((text, n)) => r matches Ok((expr, end)) && expr@ == text && end == pos + n,
            Err(e) => r matches Err(err) && err@ == e,
        },
{
    let ghost all = token_views(tokens@);
    if pos > tokens.len() {
        return Err(
            BuildError::new(
                ErrorKind::MalformedValue,
                Location::token(Span { attr, token: pos }),
                message::EXPECTED_EXPRESSION,
            ),
        );
    }
    let mut end: usize = pos;
    let mut level: usize = 0;
    loop
        invariant
            pos <= end <= tokens.len(),
            all == token_views(tokens@),
            level == depth(all, pos as int, end as int),
            level <= end - pos,
            expression_end(all, pos as int, pos as int) == expression_end(
                all,
                pos as int,
                end as int,
            ),
        decreases tokens.len() - end,
    {
        if level == 0 && (end == tokens.len() || tokens[end].is_punct(',')) {
            let text = render_range(tokens, pos, end);
            if is_expression(text.as_str()) {
                return Ok((Expr { text }, end));
            }
        }
        if end == tokens.len() {
            return Err(
                BuildError::new(
                    ErrorKind::MalformedValue,
                    Location::token(Span { attr, token: pos }),
                    message::EXPECTED_EXPRESSION,
                ),
            );
        }
        level = step_depth(&tokens[end], level);
        end += 1;
    }
}

/// A visibility ends at or after its start and at or before the position up
/// to which it was looked for.
pub proof fn lemma_visibility_end_in_bounds(tokens: Seq<TokenView>, start: int, upto: int)
    requires
        0 <= start <= upto <= tokens.len(),
    ensures
        start <= visibility_end(tokens, start, upto) <= upto,
    decreases upto - start,
{
    if start < upto && !visibility(rendered(tokens.subrange(start, upto))) {
        lemma_visibility_end_in_bounds(tokens, start, upto - 1);
    }
}

/// Reads the visibility that starts at position `pos`: the longest run of
/// tokens from there that is a visibility, and the inherited one where none
/// is. Gives it with the position after it.
pub fn parse_visibility(tokens: &Vec<Token>, pos: usize) -> (r: (Visibility, usize))
    ensures
        r.0@ == parsed_visibility(token_views(tokens@), pos as int).0,
        r.1 == pos + parsed_visibility(token_views(tokens@), pos as int).1,
{
    let ghost all = token_views(tokens@);
    let mut end: usize = tokens.len();
    while end > pos
        invariant
            end <= tokens.len(),
            all == token_views(tokens@),
            visibility_end(all, pos as int, tokens.len() as int) == visibility_end(
                all,
                pos as int,
                end as int,
            ),
        decreases end,
    {
        let text = render_range(tokens, pos, end);
        if is_visibility(text.as_str()) {
            return (Visibility { text }, end);
        }
        end -= 1;
    }
    assert(visibility_end(all, pos as int, end as int) == pos);
    (Visibility { text: String::new() }, pos)
}

impl ConfigOptionData {
    /// The kind of the option.
    pub fn kind(&self) -> (r: ConfigOptionKind)
        ensures
            r == self@.kind(),
    {
        match self {
            ConfigOptionData::Vis(_) => ConfigOptionKind::Vis,
            ConfigOptionData::RenameAll(_) => ConfigOptionKind::RenameAll,
            ConfigOptionData::Rename(_) => ConfigOptionKind::Rename,
            ConfigOptionData::Default(_) => ConfigOptionKind::Default,
            ConfigOptionData::Trim(_) => ConfigOptionKind::Trim,
        }
    }

    /// Reads the value of an option of kind `kind` that starts at position
    /// `pos`, and gives it with the position after it.
    pub fn parse(tokens: &Vec<Token>, kind: ConfigOptionKind, pos: usize, attr: usize) -> (r:
        Result<(ConfigOptionData, usize), BuildError>)
        ensures
            match parsed_value(token_views(tokens@), kind, pos as int, attr) {
                Ok((data, n)) => r matches Ok((d, end)) && d@ == data && end == pos + n,
                Err(e) => r matches Err(err) && err@ == e,
            },
    {
        match kind {
            ConfigOptionKind::Vis => {
                let (vis, end) = parse_visibility(tokens, pos);
                Ok((ConfigOptionData::Vis(vis), end))
            },
            ConfigOptionKind::RenameAll => match LitCase::parse(tokens, pos, attr) {
                Ok(case) => {
                    assert(parsed_string(token_views(tokens@), pos as int, attr) is Ok);
                    assert(pos < tokens.len());
                    Ok((ConfigOptionData::RenameAll(case), pos + 1))
                },
                Err(e) => Err(e),
            },
            ConfigOptionKind::Rename => match parse_string(tokens, pos, attr) {
                Ok(name) => {
                    assert(pos < tokens.len());
                    Ok((ConfigOptionData::Rename(name), pos + 1))
                },
                Err(e) => Err(e),
            },
            ConfigOptionKind::Default => match parse_expression(tokens, pos, attr) {
                Ok((expr, end)) => Ok((ConfigOptionData::Default(expr), end)),
                Err(e) => Err(e),
            },
            ConfigOptionKind::Trim => match parse_bool(tokens, pos, attr) {
                Ok(trim) => {
                    assert(pos < tokens.len());
                    Ok((ConfigOptionData::Trim(trim), pos + 1))
                },
                Err(e) => Err(e),
            },
        }
    }
}

impl ConfigOption {
    /// Reads one option, `key = value`, that starts at position `pos`, and
    /// gives it with the position after it.
    pub fn parse(tokens: &Vec<Token>, pos: usize, attr: usize) -> (r: Result<
        (ConfigOption, usize),
        BuildError,
    >)
        ensures
            match parsed_option(token_views(tokens@), pos as int, attr) {
                Ok((option, end)) => r matches Ok((o, e)) && o@ == option && e == end && pos < e
                    <= tokens.len(),
                Err(e) => r matches Err(err) && err@ == e,
            },
    {
        let kind = match ConfigOptionKind::parse(tokens, pos, attr) {
            Ok(kind) => kind,
            Err(e) => {
                return Err(e);
            },
        };
        assert(pos < tokens.len());
        if pos + 1 < tokens.len() && tokens[pos + 1].is_punct('=') {
            match ConfigOptionData::parse(tokens, kind, pos + 2, attr) {
                Ok((data, end)) => {
                    proof {
                        lemma_value_in_bounds(token_views(tokens@), kind, pos + 2, attr);
                    }
                    Ok((ConfigOption { span: Span { attr, token: pos }, data }, end))
                },
                Err(e) => Err(e),
            }
        } else {
            Err(
                BuildError::new(
                    ErrorKind::MalformedValue,
                    Location::token(Span { attr, token: pos + 1 }),
                    message::EXPECTED_EQUALS,
                ),
            )
        }
    }

    /// A copy of the option.
    pub fn duplicate(&self) -> (r: ConfigOption)
        ensures
            r@ == self@,
    {
        let data = match &self.data {
            ConfigOptionData::Vis(vis) => ConfigOptionData::Vis(
                Visibility { text: vis.text.clone() },
            ),
            ConfigOptionData::RenameAll(case) => ConfigOptionData::RenameAll(*case),
            ConfigOptionData::Rename(name) => ConfigOptionData::Rename(name.clone()),
            ConfigOptionData::Default(expr) => ConfigOptionData::Default(
                Expr { text: expr.text.clone() },
            ),
            ConfigOptionData::Trim(trim) => ConfigOptionData::Trim(*trim),
        };
        ConfigOption { span: self.span, data }
    }
}

/// A value that parses ends within the list.
pub proof fn lemma_value_in_bounds(
    tokens: Seq<TokenView>,
    kind: ConfigOptionKind,
    pos: int,
    attr: usize,
)
    requires
        0 <= pos <= tokens.len(),
    ensures
        parsed_value(tokens, kind, pos, attr) matches Ok((_, n)) ==> pos + n <= tokens.len(),
{
    if kind == ConfigOptionKind::Default {
        lemma_expression_end_in_bounds(tokens, pos, pos);
    }
    if kind == ConfigOptionKind::Vis {
        lemma_visibility_end_in_bounds(tokens, pos, tokens.len() as int);
    }
}

proof fn lemma_expression_end_in_bounds(tokens: Seq<TokenView>, start: int, from: int)
    requires
        0 <= start <= from <= tokens.len(),
    ensures
        expression_end(tokens, start, from) matches Some(end) ==> from <= end <= tokens.len(),
    decreases tokens.len() - from,
{
    if !(is_boundary(tokens, start, from) && expression(rendered(tokens.subrange(start, from))))
        && from < tokens.len() {
        lemma_expression_end_in_bounds(tokens, start, from + 1);
    }
}

/// Reads an option list: options with commas between them, and one more
/// comma at the end if any. The options come out in the order in which they
/// are written, each with the place of its key in the list of the attribute
/// at position `attr`.
pub fn parse_options(tokens: &Vec<Token>, attr: usize) -> (r: Result<Vec<ConfigOption>, BuildError>)
    ensures
        match parsed_list(token_views(tokens@), 0, attr) {
            Ok(options) => r matches Ok(v) && option_views(v@) == options,
            Err(e) => r matches Err(err) && err@ == e,
        },
{
    let ghost all = token_views(tokens@);
    let mut options: Vec<ConfigOption> = Vec::new();
    let mut pos: usize = 0;
    while pos < tokens.len()
        invariant
            pos <= tokens.len(),
            all == token_views(tokens@),
            match parsed_list(all, pos as int, attr) {
                Ok(rest) => parsed_list(all, 0, attr) == Ok::<
                    Seq<ConfigOptionView>,
                    Seq<DiagnosticView>,
                >(option_views(options@) + rest),
                Err(e) => parsed_list(all, 0, attr) == Err::<
                    Seq<ConfigOptionView>,
                    Seq<DiagnosticView>,
                >(e),
            },
        decreases tokens.len() - pos,
    {
        match ConfigOption::parse(tokens, pos, attr) {
            Err(e) => {
                return Err(e);
            },
            Ok((option, end)) => {
                let ghost before = option_views(options@);
                options.push(option);
                assert(option_views(options@) =~= before.push(option@));
                if end >= tokens.len() {
                    assert(before + seq![option@] =~= option_views(options@));
                    return Ok(options);
                }
                if !tokens[end].is_punct(',') {
                    return Err(
                        BuildError::new(
                            ErrorKind::MalformedValue,
                            Location::token(Span { attr, token: end }),
                            message::EXPECTED_COMMA,
                        ),
                    );
                }
                proof {
                    match parsed_list(all, end + 1, attr) {
                        Ok(rest) => {
                            assert(before + (seq![option@] + rest) =~= option_views(options@)
                                + rest);
                        },
                        Err(_) => {},
                    }
                }
                pos = end + 1;
            },
        }
    }
    assert(option_views(options@) + Seq::<ConfigOptionView>::empty() =~= option_views(options@));
    Ok(options)
}

} // verus!

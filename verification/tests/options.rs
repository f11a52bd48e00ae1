use documented::customise::{ensure_unique_options, Customisations, Profile};
use documented::error::{BuildError, ErrorKind, Location, Place, Span};
use documented::option::{
    parse_options, Case, ConfigOption, ConfigOptionData, ConfigOptionKind, Expr, LitCase,
    Visibility,
};
use documented::token::{Delimiter, Spacing, Token, render};

fn flatten(stream: proc_macro2::TokenStream, out: &mut Vec<Token>) {
    for tree in stream {
        match tree {
            proc_macro2::TokenTree::Ident(ident) => out.push(Token::Ident(ident.to_string())),
            proc_macro2::TokenTree::Literal(literal) => {
                out.push(Token::Literal(literal.to_string()))
            }
            proc_macro2::TokenTree::Punct(punct) => out.push(Token::Punct(
                punct.as_char(),
                match punct.spacing() {
                    proc_macro2::Spacing::Alone => Spacing::Alone,
                    proc_macro2::Spacing::Joint => Spacing::Joint,
                },
            )),
            proc_macro2::TokenTree::Group(group) => {
                let delimiter = match group.delimiter() {
                    proc_macro2::Delimiter::Parenthesis => Some(Delimiter::Parenthesis),
                    proc_macro2::Delimiter::Brace => Some(Delimiter::Brace),
                    proc_macro2::Delimiter::Bracket => Some(Delimiter::Bracket),
                    proc_macro2::Delimiter::None => None,
                };
                out.extend(delimiter.map(Token::Open));
                flatten(group.stream(), out);
                out.extend(delimiter.map(Token::Close));
            }
        }
    }
}

/// The tokens of a source text.
fn lex(text: &str) -> Option<Vec<Token>> {
    let mut tokens = Vec::new();
    flatten(text.parse().ok()?, &mut tokens);
    Some(tokens)
}

fn parse(text: &str) -> Result<Vec<ConfigOption>, BuildError> {
    parse_options(&lex(text).unwrap(), 0)
}

fn data(text: &str) -> Vec<ConfigOptionData> {
    parse(text).unwrap().into_iter().map(|o| o.data).collect()
}

fn failure(text: &str) -> (ErrorKind, usize, String) {
    let err = parse(text).unwrap_err();
    assert!(err.rest.is_empty());
    match err.first.location {
        Location { member: None, place: Place::Token(Span { attr: 0, token }) } => {
            (err.first.kind, token, err.first.message)
        }
        other => panic!("not at a token: {:?}", other),
    }
}

fn vis(text: &str) -> ConfigOptionData {
    ConfigOptionData::Vis(Visibility { text: text.into() })
}

fn default(text: &str) -> ConfigOptionData {
    ConfigOptionData::Default(Expr { text: text.into() })
}

#[test]
fn text_is_lexed_into_flat_tokens() {
    assert_eq!(
        lex("vis = pub(crate), x::y").unwrap(),
        vec![
            Token::Ident("vis".into()),
            Token::Punct('=', Spacing::Alone),
            Token::Ident("pub".into()),
            Token::Open(Delimiter::Parenthesis),
            Token::Ident("crate".into()),
            Token::Close(Delimiter::Parenthesis),
            Token::Punct(',', Spacing::Alone),
            Token::Ident("x".into()),
            Token::Punct(':', Spacing::Joint),
            Token::Punct(':', Spacing::Alone),
            Token::Ident("y".into()),
        ]
    );
    assert_eq!(lex("").unwrap(), vec![]);
    assert_eq!(lex("\"a, b\" 'c' 1.5").unwrap().len(), 3);
    assert_eq!(lex("(unbalanced"), None);
    assert_eq!(lex("\"open"), None);
}

#[test]
fn tokens_are_written_out_with_spaces_between() {
    let tokens = lex("a::b(c,d)  +  'x  -> \"s\"").unwrap();
    assert_eq!(render(&tokens), "a :: b (c , d) + 'x -> \"s\"");
    assert_eq!(render(&vec![]), "");
    assert_eq!(render(&tokens[1..3].to_vec()), "::");
    assert_eq!(render(&tokens[3..9].to_vec()), "b (c , d)");
    assert_eq!(render(&tokens[4..9].to_vec()), "(c , d)");
    assert_eq!(render(&lex("[a]{b}( )").unwrap()), "[a] {b} ()");
}

#[test]
fn every_kind_of_option_parses() {
    assert_eq!(
        data("vis = pub(crate), rename_all = \"kebab-case\", rename = \"x\", default = \"none\", trim = false"),
        vec![
            vis("pub (crate)"),
            ConfigOptionData::RenameAll(LitCase(Case::Kebab)),
            ConfigOptionData::Rename("x".into()),
            default("\"none\""),
            ConfigOptionData::Trim(false),
        ]
    );
}

#[test]
fn options_carry_the_place_of_their_key() {
    let options = parse_options(&lex("trim = true, rename = \"a\",").unwrap(), 7).unwrap();
    assert_eq!(options.len(), 2);
    assert_eq!(options[0].span, Span { attr: 7, token: 0 });
    assert_eq!(options[1].span, Span { attr: 7, token: 4 });
    assert_eq!(options[0].data.kind(), ConfigOptionKind::Trim);
    assert_eq!(options[1].data.kind(), ConfigOptionKind::Rename);
}

#[test]
fn the_list_may_be_empty_and_may_end_with_a_comma() {
    assert_eq!(data(""), vec![]);
    assert_eq!(data("trim = true"), vec![ConfigOptionData::Trim(true)]);
    assert_eq!(data("trim = true,"), vec![ConfigOptionData::Trim(true)]);
    assert_eq!(failure("trim = true,,").0, ErrorKind::UnknownOption);
    assert_eq!(failure(",").0, ErrorKind::UnknownOption);
}

#[test]
fn unknown_keys_are_refused() {
    let unknown = "unexpected option; expected one of: `vis`, `rename_all`, `rename`, `default`, `trim`";
    assert_eq!(failure("strip = true"), (ErrorKind::UnknownOption, 0, unknown.into()));
    assert_eq!(failure("trim = true, 5 = 6"), (ErrorKind::UnknownOption, 4, unknown.into()));
    assert_eq!(failure("\"trim\" = true"), (ErrorKind::UnknownOption, 0, unknown.into()));
    assert_eq!(
        failure("trim = true, name = \"x\""),
        (ErrorKind::UnknownOption, 4, "`name` has been removed; use `rename` instead".into())
    );
}

#[test]
fn a_key_takes_an_equals_sign_and_options_take_commas() {
    assert_eq!(failure("trim"), (ErrorKind::MalformedValue, 1, "expected `=`".into()));
    assert_eq!(failure("trim true"), (ErrorKind::MalformedValue, 1, "expected `=`".into()));
    assert_eq!(failure("trim(true)"), (ErrorKind::MalformedValue, 1, "expected `=`".into()));
    assert_eq!(
        failure("trim = true rename = \"x\""),
        (ErrorKind::MalformedValue, 3, "expected `,`".into())
    );
    assert_eq!(
        failure("rename = \"x\" \"y\""),
        (ErrorKind::MalformedValue, 3, "expected `,`".into())
    );
}

#[test]
fn values_are_of_the_type_of_their_key() {
    let string = "expected string literal".to_string();
    let boolean = "expected boolean literal".to_string();
    assert_eq!(failure("trim = 1"), (ErrorKind::MalformedValue, 2, boolean.clone()));
    assert_eq!(failure("trim = \"true\""), (ErrorKind::MalformedValue, 2, boolean.clone()));
    assert_eq!(failure("trim ="), (ErrorKind::MalformedValue, 2, boolean.clone()));
    assert_eq!(failure("vis = pub, trim = yes"), (ErrorKind::MalformedValue, 6, boolean));
    assert_eq!(failure("rename = x"), (ErrorKind::MalformedValue, 2, string.clone()));
    assert_eq!(failure("rename = 'x'"), (ErrorKind::MalformedValue, 2, string.clone()));
    assert_eq!(failure("rename = b\"x\""), (ErrorKind::MalformedValue, 2, string.clone()));
    assert_eq!(failure("rename = "), (ErrorKind::MalformedValue, 2, string.clone()));
    assert_eq!(failure("rename_all = snake_case"), (ErrorKind::MalformedValue, 2, string));
}

#[test]
fn string_literals_give_their_value() {
    assert_eq!(data(r#"rename = "a\tb\\c\"d\u{e9}""#), vec![ConfigOptionData::Rename("a\tb\\c\"dé".into())]);
    assert_eq!(data(r##"rename = r#"raw "text""#"##), vec![ConfigOptionData::Rename("raw \"text\"".into())]);
    assert_eq!(data(r#"rename = """#), vec![ConfigOptionData::Rename("".into())]);
    assert_eq!(Expr { text: "\"Woosh\"".into() }.string_literal(), Some("Woosh".into()));
    assert_eq!(Expr { text: "Woosh".into() }.string_literal(), None);
    assert_eq!(Expr { text: "\"a\" \"b\"".into() }.string_literal(), None);
}

#[test]
fn the_eight_cases_have_their_names() {
    let cases = [
        ("lowercase", Case::Lower),
        ("UPPERCASE", Case::Upper),
        ("PascalCase", Case::Pascal),
        ("camelCase", Case::Camel),
        ("snake_case", Case::Snake),
        ("SCREAMING_SNAKE_CASE", Case::UpperSnake),
        ("kebab-case", Case::Kebab),
        ("SCREAMING-KEBAB-CASE", Case::UpperKebab),
    ];
    for (name, case) in cases {
        assert_eq!(LitCase::from_name(name), Some(LitCase(case)));
        assert_eq!(LitCase::from_name(name).unwrap().value(), case);
        assert_eq!(
            data(&format!("rename_all = \"{}\"", name)),
            vec![ConfigOptionData::RenameAll(LitCase(case))]
        );
    }
    assert_eq!(LitCase::from_name("Title Case"), None);
    assert_eq!(LitCase::from_name(""), None);
    assert_eq!(
        failure("rename_all = \"Title Case\""),
        (
            ErrorKind::MalformedValue,
            2,
            "Case must be one of lowercase, UPPERCASE, PascalCase, camelCase, snake_case, SCREAMING_SNAKE_CASE, kebab-case, SCREAMING-KEBAB-CASE."
                .into()
        )
    );
}

#[test]
fn the_kinds_have_their_keys() {
    let kinds = [
        ("vis", ConfigOptionKind::Vis),
        ("rename_all", ConfigOptionKind::RenameAll),
        ("rename", ConfigOptionKind::Rename),
        ("default", ConfigOptionKind::Default),
        ("trim", ConfigOptionKind::Trim),
    ];
    for (key, kind) in kinds {
        assert_eq!(kind.name(), key);
        assert_eq!(ConfigOptionKind::from_keyword(key), Some(kind));
    }
    assert_eq!(ConfigOptionKind::from_keyword("name"), None);
    assert_eq!(ConfigOptionKind::from_keyword("Trim"), None);
}

#[test]
fn a_default_is_any_expression() {
    assert_eq!(data("default = DOC_STR"), vec![default("DOC_STR")]);
    assert_eq!(data("default = Some(\"x\")"), vec![default("Some (\"x\")")]);
    assert_eq!(data("default = None, trim = true"), vec![default("None"), ConfigOptionData::Trim(true)]);
    assert_eq!(data("default = concat!(\"a\", \"b\"),"), vec![default("concat ! (\"a\" , \"b\")")]);
    assert_eq!(data("default = pick::<A, B>(1, 2)"), vec![default("pick ::< A , B > (1 , 2)")]);
    assert_eq!(
        data("default = |a, b| a + b, trim = false"),
        vec![default("| a , b | a + b"), ConfigOptionData::Trim(false)]
    );
    let expected = "expected an expression".to_string();
    assert_eq!(failure("default = "), (ErrorKind::MalformedValue, 2, expected.clone()));
    assert_eq!(failure("default = , trim = true"), (ErrorKind::MalformedValue, 2, expected.clone()));
    assert_eq!(failure("default = 1 +"), (ErrorKind::MalformedValue, 2, expected.clone()));
    assert_eq!(failure("trim = true, default = a b"), (ErrorKind::MalformedValue, 6, expected));
}

#[test]
fn a_visibility_is_read_as_far_as_it_goes() {
    assert_eq!(data("vis = pub"), vec![vis("pub")]);
    assert_eq!(data("vis = pub(crate)"), vec![vis("pub (crate)")]);
    assert_eq!(data("vis = pub(self)"), vec![vis("pub (self)")]);
    assert_eq!(data("vis = pub(super),"), vec![vis("pub (super)")]);
    assert_eq!(data("vis = pub(in crate::a::b)"), vec![vis("pub (in crate :: a :: b)")]);
    assert_eq!(data("vis = "), vec![vis("")]);
    assert_eq!(data("vis = , trim = true"), vec![vis(""), ConfigOptionData::Trim(true)]);
    assert_eq!(data("vis = pub(in ::a)"), vec![vis("pub (in :: a)")]);
    assert_eq!(data("vis = pub , trim = true"), vec![vis("pub"), ConfigOptionData::Trim(true)]);
    assert_eq!(failure("vis = pub(in 5)"), (ErrorKind::MalformedValue, 3, "expected `,`".into()));
    assert_eq!(failure("vis = pub(in a::)"), (ErrorKind::MalformedValue, 3, "expected `,`".into()));
    assert_eq!(failure("vis = pub(crate) x"), (ErrorKind::MalformedValue, 6, "expected `,`".into()));
    assert_eq!(failure("vis = pub pub"), (ErrorKind::MalformedValue, 3, "expected `,`".into()));
    assert_eq!(failure("vis = pub(friends)"), (ErrorKind::MalformedValue, 3, "expected `,`".into()));
    assert_eq!(
        failure("vis = pub(crate::a)"),
        (ErrorKind::MalformedValue, 3, "expected `,`".into())
    );
    assert_eq!(failure("vis = pub[crate]"), (ErrorKind::MalformedValue, 3, "expected `,`".into()));
    assert_eq!(failure("vis = private"), (ErrorKind::MalformedValue, 2, "expected `,`".into()));
}

#[test]
fn commas_within_groups_end_nothing() {
    assert_eq!(
        data("default = [(1, 2), (3, 4)], trim = false"),
        vec![default("[(1 , 2) , (3 , 4)]"), ConfigOptionData::Trim(false)]
    );
    assert_eq!(data("default = f(a, g(b, c))"), vec![default("f (a , g (b , c))")]);
    assert_eq!(data("default = S { a: 1, b: 2 },"), vec![default("S {a : 1 , b : 2}")]);
    let tokens = |text: &str, extra: Token| {
        let mut all = lex(text).unwrap();
        all.push(extra);
        all
    };
    let open = tokens("default = 1,", Token::Open(Delimiter::Parenthesis));
    assert_eq!(parse_options(&open, 0).unwrap_err().kind(), ErrorKind::UnknownOption);
    let open = tokens("default = f", Token::Open(Delimiter::Parenthesis));
    let err = parse_options(&open, 0).unwrap_err();
    assert_eq!(err.kind(), ErrorKind::MalformedValue);
    assert_eq!(err.first.message, "expected an expression");
    let close = tokens("default = 1", Token::Close(Delimiter::Bracket));
    let err = parse_options(&close, 0).unwrap_err();
    assert_eq!(err.first.message, "expected an expression");
    let vis = tokens("vis = pub", Token::Open(Delimiter::Parenthesis));
    let err = parse_options(&vis, 0).unwrap_err();
    assert_eq!(err.first.message, "expected `,`");
    assert_eq!(err.first.location, Location::token(Span { attr: 0, token: 3 }));
}

#[test]
fn a_kind_may_be_given_once() {
    let options = parse("trim = true, rename = \"a\", trim = false, trim = true").unwrap();
    let err = ensure_unique_options(&options).unwrap_err();
    assert_eq!(err.kind(), ErrorKind::DuplicateOption);
    assert_eq!(err.first.message, "Option trim can only be declared once");
    assert_eq!(err.first.location, Location::token(Span { attr: 0, token: 0 }));
    assert_eq!(err.rest.len(), 2);
    assert_eq!(err.rest[0].message, "Duplicate declaration here");
    assert_eq!(err.rest[0].location, Location::token(Span { attr: 0, token: 8 }));
    assert_eq!(err.rest[1].message, "Duplicate declaration here");
    assert_eq!(err.rest[1].location, Location::token(Span { attr: 0, token: 12 }));

    assert_eq!(ensure_unique_options(&parse("").unwrap()), Ok(()));
    assert_eq!(
        ensure_unique_options(
            &parse("vis = pub, rename_all = \"lowercase\", rename = \"a\", default = 1, trim = true")
                .unwrap()
        ),
        Ok(())
    );
}

#[test]
fn duplicates_are_found_wherever_they_stand() {
    for (text, first, second) in [
        ("rename = \"a\", rename = \"b\"", 0, 4),
        ("rename = \"a\", trim = true, rename = \"b\"", 0, 8),
        ("trim = true, rename = \"a\", vis = pub, rename = \"b\"", 4, 12),
        ("default = 1, default = 1", 0, 4),
        ("vis = pub, vis = pub(crate)", 0, 4),
        ("rename_all = \"snake_case\", rename_all = \"camelCase\"", 0, 4),
    ] {
        let options = parse(text).unwrap();
        for profile in [Profile::member(), Profile::derive()] {
            let err = Customisations::resolve(&options, &profile).unwrap_err();
            assert_eq!(err.kind(), ErrorKind::DuplicateOption);
            assert_eq!(err.first.location, Location::token(Span { attr: 0, token: first }));
            assert_eq!(err.rest.len(), 1);
            assert_eq!(err.rest[0].kind, ErrorKind::DuplicateOption);
            assert_eq!(err.rest[0].location, Location::token(Span { attr: 0, token: second }));
        }
    }
}

#[test]
fn the_duplicates_of_all_kinds_are_reported_together() {
    let options = parse("trim = true, vis = pub, trim = false, vis = pub").unwrap();
    let err = ensure_unique_options(&options).unwrap_err();
    let messages: Vec<(String, usize)> = std::iter::once(&err.first)
        .chain(err.rest.iter())
        .map(|d| match d.location.place {
            Place::Token(span) => (d.message.clone(), span.token),
            _ => unreachable!(),
        })
        .collect();
    assert_eq!(
        messages,
        vec![
            ("Option vis can only be declared once".to_string(), 4),
            ("Duplicate declaration here".to_string(), 12),
            ("Option trim can only be declared once".to_string(), 0),
            ("Duplicate declaration here".to_string(), 8),
        ]
    );
}

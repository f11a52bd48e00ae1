use documented::basic;
use documented::derive_impl::DocumentedImpl;
use documented::docs::Docs;
use documented::error::{BuildError, ErrorKind, Location, Place, Span};
use documented::macros::documented;
use documented::model::{AttrValue, Attribute, Data, DeriveInput, Field, Meta};
use documented::option::Expr;
use documented::token::{Delimiter, Spacing, Token};

fn flatten(stream: proc_macro2::TokenStream, out: &mut Vec<Token>) {
    for tree in stream {
        match tree {
            proc_macro2::TokenTree::Ident(ident) => out.push(Token::Ident(ident.to_string())),
            proc_macro2::TokenTree::Literal(literal) => {
                out.push(Token::Literal(literal.to_string()))
            }
            proc_macro2::TokenTree::Punct(punct) => out.push(Token::Punct(
                punct.as_char(),
                match punct.spacing() {
                    proc_macro2::Spacing::Alone => Spacing::Alone,
                    proc_macro2::Spacing::Joint => Spacing::Joint,
                },
            )),
            proc_macro2::TokenTree::Group(group) => {
                let delimiter = match group.delimiter() {
                    proc_macro2::Delimiter::Parenthesis => Some(Delimiter::Parenthesis),
                    proc_macro2::Delimiter::Brace => Some(Delimiter::Brace),
                    proc_macro2::Delimiter::Bracket => Some(Delimiter::Bracket),
                    proc_macro2::Delimiter::None => None,
                };
                out.extend(delimiter.map(Token::Open));
                flatten(group.stream(), out);
                out.extend(delimiter.map(Token::Close));
            }
        }
    }
}

/// The tokens of a source text.
fn lex(text: &str) -> Option<Vec<Token>> {
    let mut tokens = Vec::new();
    flatten(text.parse().ok()?, &mut tokens);
    Some(tokens)
}

fn doc(text: &str) -> Attribute {
    Attribute { path: "doc".into(), meta: Meta::NameValue(AttrValue::Str(text.into())) }
}

fn options(text: &str) -> Attribute {
    Attribute { path: "documented".into(), meta: Meta::List(lex(text).unwrap()) }
}

fn unit_struct(name: &str, attrs: Vec<Attribute>) -> DeriveInput {
    DeriveInput { ident: name.into(), attrs, data: Data::Struct(vec![]) }
}

fn doge(attrs: Vec<Attribute>) -> DeriveInput {
    DeriveInput {
        ident: "Doge".into(),
        attrs,
        data: Data::Struct(vec![Field { ident: Some("much".into()), attrs: vec![] }]),
    }
}

/// Both generations of the macro give the same for a type without options.
fn docs_of(input: &DeriveInput) -> String {
    let new = documented(input).unwrap();
    let old = basic::documented(input).unwrap();
    assert_eq!(new, old);
    assert_eq!(new.trait_ident, "Documented");
    assert_eq!(new.ident, input.ident);
    match new.docs {
        Docs::Text(text) => text,
        other => panic!("no doc comments: {:?}", other),
    }
}

/// The value of a default, as the host language would compute it.
fn value_of(expr: &Expr, consts: &[(&str, &str)]) -> String {
    if let Some(value) = expr.string_literal() {
        return value;
    }
    let tokens = lex(&expr.text).unwrap();
    match &tokens[..] {
        [Token::Ident(name)] => {
            consts.iter().find(|(n, _)| n == name).map(|(_, v)| v.to_string()).unwrap()
        }
        [Token::Ident(mac), Token::Punct('!', _), Token::Open(_), inner @ .., Token::Close(_)]
            if mac == "concat" =>
        {
            inner
                .iter()
                .filter_map(|t| match t {
                    Token::Literal(text) => Expr { text: text.clone() }.string_literal(),
                    _ => None,
                })
                .collect()
        }
        other => panic!("not a constant text: {:?}", other),
    }
}

fn defaulted(out: Result<DocumentedImpl, BuildError>, consts: &[(&str, &str)]) -> String {
    match out.unwrap().docs {
        Docs::Default(expr) => value_of(&expr, consts),
        other => panic!("no default: {:?}", other),
    }
}

#[test]
fn documented_it_works() {
    let nice = unit_struct("Nice", vec![doc(" 69")]);
    assert_eq!(docs_of(&nice), "69");
}

#[test]
fn documented_multi_line_works() {
    let nice = unit_struct("Nice", vec![doc(" 69"), doc(" 420"), doc(""), doc(" 1337")]);
    let docs = "69\n420\n\n1337";
    assert_eq!(docs_of(&nice), docs);
}

#[test]
fn documented_every_style_works() {
    let nicer =
        unit_struct("Nicer", vec![doc(" 69"), doc(" Very nice\n        420 "), doc("1337")]);
    let docs = "69\nVery nice\n420\n1337";
    assert_eq!(docs_of(&nicer), docs);
}

#[test]
fn readme_example_works() {
    let born_in_69 = unit_struct(
        "BornIn69",
        vec![
            doc(" Nice."),
            doc(" Multiple single-line doc comments are supported."),
            doc(""),
            doc(
                " Multi-line doc comments are supported too.\n        Each line of the multi-line block is individually trimmed.\n        Note the lack of spaces in front of this line.\n        ",
            ),
            doc("Attribute-style documentation is supported too."),
        ],
    );
    let doc_str = "Nice.
Multiple single-line doc comments are supported.

Multi-line doc comments are supported too.
Each line of the multi-line block is individually trimmed.
Note the lack of spaces in front of this line.

Attribute-style documentation is supported too.";
    assert_eq!(docs_of(&born_in_69), doc_str);
}

#[test]
fn documented_generic_type_works() {
    assert_eq!(docs_of(&doge(vec![doc(" Wow")])), "Wow");
}

#[test]
fn documented_generic_type_with_bounds_works() {
    assert_eq!(docs_of(&doge(vec![doc(" Wow")])), "Wow");
}

#[test]
fn documented_const_generic_type_works() {
    assert_eq!(docs_of(&doge(vec![doc(" Wow")])), "Wow");
}

#[test]
fn documented_lifetimed_type_works() {
    assert_eq!(docs_of(&doge(vec![doc(" Wow")])), "Wow");
}

#[test]
fn documented_empty_customise_works() {
    let doge =
        unit_struct("Doge", vec![doc(" Wow\n            much\n            doge\n        "), options("")]);
    let doc_str = "Wow
much
doge
";
    assert_eq!(docs_of(&doge), doc_str);
}

#[test]
fn documented_multiple_attrs_works() {
    let doge = unit_struct(
        "Doge",
        vec![doc(" Wow\n            much\n            doge\n        "), options(""), options("")],
    );
    let doc_str = "Wow
much
doge
";
    assert_eq!(docs_of(&doge), doc_str);

    // the attribute may be repeated, an option may not
    let twice = unit_struct(
        "Doge",
        vec![doc("  Wow  "), options("trim = false"), options(""), options("trim = true")],
    );
    for err in [documented(&twice).unwrap_err(), basic::documented(&twice).unwrap_err()] {
        assert_eq!(err.kind(), ErrorKind::DuplicateOption);
        assert_eq!(err.first.message, "Option trim can only be declared once");
        assert_eq!(
            err.first.location,
            Location { member: None, place: Place::Token(Span { attr: 1, token: 0 }) }
        );
        assert_eq!(err.rest.len(), 1);
        assert_eq!(err.rest[0].message, "Duplicate declaration here");
        assert_eq!(
            err.rest[0].location,
            Location { member: None, place: Place::Token(Span { attr: 3, token: 0 }) }
        );
    }
}

#[test]
fn default_works_with_literal() {
    let age37 = unit_struct("Age37", vec![options("default = \"3 goals 2 assists!\"")]);
    assert_eq!(defaulted(documented(&age37), &[]), "3 goals 2 assists!");
}

#[test]
fn default_works_with_const() {
    const DOC_STR: &str = "3 goals 2 assists!";

    let age37 = unit_struct("Age37", vec![options("default = DOC_STR")]);
    assert_eq!(defaulted(documented(&age37), &[("DOC_STR", DOC_STR)]), DOC_STR);
}

#[test]
fn default_works_with_macros() {
    let age37 =
        unit_struct("Age37", vec![options("default = concat!(\"3 goals \", \"2 assists!\")")]);
    assert_eq!(defaulted(documented(&age37), &[]), "3 goals 2 assists!");
}

#[test]
fn trim_false_works() {
    let doge = unit_struct(
        "Doge",
        vec![doc(" Wow\n            much\n            doge\n        "), options("trim = false")],
    );
    let doc_str = " Wow
            much
            doge
        ";
    assert_eq!(docs_of(&doge), doc_str);
}

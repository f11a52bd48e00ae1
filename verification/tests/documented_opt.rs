use documented::docs::Docs;
use documented::macros::documented_opt;
use documented::model::{AttrValue, Attribute, Data, DeriveInput, Meta};
use documented::option::Expr;
use documented::token::{Delimiter, Spacing, Token};

fn flatten(stream: proc_macro2::TokenStream, out: &mut Vec<Token>) {
    for tree in stream {
        match tree {
            proc_macro2::TokenTree::Ident(ident) => out.push(Token::Ident(ident.to_string())),
            proc_macro2::TokenTree::Literal(literal) => {
                out.push(Token::Literal(literal.to_string()))
            }
            proc_macro2::TokenTree::Punct(punct) => out.push(Token::Punct(
                punct.as_char(),
                match punct.spacing() {
                    proc_macro2::Spacing::Alone => Spacing::Alone,
                    proc_macro2::Spacing::Joint => Spacing::Joint,
                },
            )),
            proc_macro2::TokenTree::Group(group) => {
                let delimiter = match group.delimiter() {
                    proc_macro2::Delimiter::Parenthesis => Some(Delimiter::Parenthesis),
                    proc_macro2::Delimiter::Brace => Some(Delimiter::Brace),
                    proc_macro2::Delimiter::Bracket => Some(Delimiter::Bracket),
                    proc_macro2::Delimiter::None => None,
                };
                out.extend(delimiter.map(Token::Open));
                flatten(group.stream(), out);
                out.extend(delimiter.map(Token::Close));
            }
        }
    }
}

/// The tokens of a source text.
fn lex(text: &str) -> Option<Vec<Token>> {
    let mut tokens = Vec::new();
    flatten(text.parse().ok()?, &mut tokens);
    Some(tokens)
}

fn doc(text: &str) -> Attribute {
    Attribute { path: "doc".into(), meta: Meta::NameValue(AttrValue::Str(text.into())) }
}

fn options(text: &str) -> Attribute {
    Attribute { path: "documented".into(), meta: Meta::List(lex(text).unwrap()) }
}

fn unit_struct(name: &str, attrs: Vec<Attribute>) -> DeriveInput {
    DeriveInput { ident: name.into(), attrs, data: Data::Struct(vec![]) }
}

/// The value of an optional text, as the host language would compute it.
fn optional_value(expr: &Expr) -> Option<String> {
    let tokens = lex(&expr.text).unwrap();
    match &tokens[..] {
        [Token::Ident(none)] if none == "None" => None,
        [Token::Ident(some), Token::Open(_), Token::Literal(text), Token::Close(_)]
            if some == "Some" =>
        {
            Some(Expr { text: text.clone() }.string_literal().unwrap())
        }
        other => panic!("not an optional text: {:?}", other),
    }
}

fn docs_of(input: &DeriveInput) -> Option<String> {
    let out = documented_opt(input).unwrap();
    assert_eq!(out.trait_ident, "DocumentedOpt");
    match out.docs {
        Docs::Text(text) => Some(text),
        Docs::Default(expr) => optional_value(&expr),
        Docs::Absent => None,
    }
}

#[test]
fn some_works() {
    let nice = unit_struct("Nice", vec![doc(" 69")]);
    assert_eq!(docs_of(&nice), Some("69".into()));
}

#[test]
fn none_works() {
    let not_so_nice = unit_struct("NotSoNice", vec![]);
    assert_eq!(docs_of(&not_so_nice), None);
    assert_eq!(documented_opt(&not_so_nice).unwrap().docs, Docs::Absent);
}

#[test]
fn documented_opt_default_works() {
    let nice_flight = unit_struct("NiceFlight", vec![options("default = Some(\"Nice catch!\")")]);
    assert_eq!(docs_of(&nice_flight), Some("Nice catch!".into()));
    assert_eq!(
        documented_opt(&nice_flight).unwrap().docs,
        Docs::Default(Expr { text: "Some (\"Nice catch!\")".into() })
    );
}

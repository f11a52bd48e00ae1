use documented::attr_impl::DocsConst;
use documented::basic::documented_function;
use documented::docs::Docs;
use documented::error::BuildError;
use documented::model::{AttrValue, Attribute, Item, ItemKind, Meta};
use documented::option::Visibility;
use documented::token::{Delimiter, Spacing, Token};

fn flatten(stream: proc_macro2::TokenStream, out: &mut Vec<Token>) {
    for tree in stream {
        match tree {
            proc_macro2::TokenTree::Ident(ident) => out.push(Token::Ident(ident.to_string())),
            proc_macro2::TokenTree::Literal(literal) => {
                out.push(Token::Literal(literal.to_string()))
            }
            proc_macro2::TokenTree::Punct(punct) => out.push(Token::Punct(
                punct.as_char(),
                match punct.spacing() {
                    proc_macro2::Spacing::Alone => Spacing::Alone,
                    proc_macro2::Spacing::Joint => Spacing::Joint,
                },
            )),
            proc_macro2::TokenTree::Group(group) => {
                let delimiter = match group.delimiter() {
                    proc_macro2::Delimiter::Parenthesis => Some(Delimiter::Parenthesis),
                    proc_macro2::Delimiter::Brace => Some(Delimiter::Brace),
                    proc_macro2::Delimiter::Bracket => Some(Delimiter::Bracket),
                    proc_macro2::Delimiter::None => None,
                };
                out.extend(delimiter.map(Token::Open));
                flatten(group.stream(), out);
                out.extend(delimiter.map(Token::Close));
            }
        }
    }
}

/// The tokens of a source text.
fn lex(text: &str) -> Option<Vec<Token>> {
    let mut tokens = Vec::new();
    flatten(text.parse().ok()?, &mut tokens);
    Some(tokens)
}

fn doc(text: &str) -> Attribute {
    Attribute { path: "doc".into(), meta: Meta::NameValue(AttrValue::Str(text.into())) }
}

fn test_fn(attrs: Vec<Attribute>) -> Item {
    Item {
        kind: ItemKind::Fn,
        vis: Visibility { text: String::new() },
        ident: Some("test_fn".into()),
        attrs,
    }
}

fn run(options: &str, item: &Item) -> Result<DocsConst, BuildError> {
    documented_function(&lex(options).unwrap(), item)
}

fn check_plain() {
    let out = run("", &test_fn(vec![doc(" This is a test function")])).unwrap();
    assert_eq!(out.name, "TEST_FN_DOCS");
    assert_eq!(out.vis.text, "");
    assert_eq!(out.docs, Docs::Text("This is a test function".into()));
}

#[test]
fn documented_function_it_works() {
    check_plain();
}

#[test]
fn different_docs_work() {
    let item = test_fn(vec![
        doc(" This is a test function"),
        doc(" This is the second line of the doc"),
        doc("This is the third line of the doc"),
    ]);
    let out = run("", &item).unwrap();
    assert_eq!(out.name, "TEST_FN_DOCS");
    assert_eq!(
        out.docs,
        Docs::Text(
            "This is a test function\nThis is the second line of the doc\nThis is the third line of the doc"
                .into()
        )
    );
}

#[test]
fn parameters_work() {
    check_plain();
}

#[test]
fn return_and_body_works() {
    check_plain();
}

#[test]
fn generics_and_lifetime_works() {
    check_plain();
}

#[test]
fn documented_function_trim_works() {
    let item = test_fn(vec![
        doc("           This is a test function        "),
        doc("        Test Trim"),
    ]);
    let out = run("trim = true", &item).unwrap();
    assert_eq!(out.docs, Docs::Text("This is a test function\nTest Trim".into()));
}

#[test]
fn documented_function_no_trim_works() {
    let item = test_fn(vec![
        doc("           This is a test function        "),
        doc("        Test Trim"),
    ]);
    let out = run("trim = false", &item).unwrap();
    assert_eq!(
        out.docs,
        Docs::Text("           This is a test function        \n        Test Trim".into())
    );
}

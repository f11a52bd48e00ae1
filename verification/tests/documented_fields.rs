use documented::basic;
use documented::derive_impl::FieldsImpl;
use documented::docs::Docs;
use documented::error::{Error, ErrorKind, Location, Place};
use documented::macros::documented_fields;
use documented::model::{AttrValue, Attribute, Data, DeriveInput, Field, Fields, Meta, Variant};
use documented::token::{Delimiter, Spacing, Token};

fn flatten(stream: proc_macro2::TokenStream, out: &mut Vec<Token>) {
    for tree in stream {
        match tree {
            proc_macro2::TokenTree::Ident(ident) => out.push(Token::Ident(ident.to_string())),
            proc_macro2::TokenTree::Literal(literal) => {
                out.push(Token::Literal(literal.to_string()))
            }
            proc_macro2::TokenTree::Punct(punct) => out.push(Token::Punct(
                punct.as_char(),
                match punct.spacing() {
                    proc_macro2::Spacing::Alone => Spacing::Alone,
                    proc_macro2::Spacing::Joint => Spacing::Joint,
                },
            )),
            proc_macro2::TokenTree::Group(group) => {
                let delimiter = match group.delimiter() {
                    proc_macro2::Delimiter::Parenthesis => Some(Delimiter::Parenthesis),
                    proc_macro2::Delimiter::Brace => Some(Delimiter::Brace),
                    proc_macro2::Delimiter::Bracket => Some(Delimiter::Bracket),
                    proc_macro2::Delimiter::None => None,
                };
                out.extend(delimiter.map(Token::Open));
                flatten(group.stream(), out);
                out.extend(delimiter.map(Token::Close));
            }
        }
    }
}

/// The tokens of a source text.
fn lex(text: &str) -> Option<Vec<Token>> {
    let mut tokens = Vec::new();
    flatten(text.parse().ok()?, &mut tokens);
    Some(tokens)
}

fn doc(text: &str) -> Attribute {
    Attribute { path: "doc".into(), meta: Meta::NameValue(AttrValue::Str(text.into())) }
}

fn options(text: &str) -> Attribute {
    Attribute { path: "documented_fields".into(), meta: Meta::List(lex(text).unwrap()) }
}

fn field(name: &str, attrs: Vec<Attribute>) -> Field {
    Field { ident: Some(name.into()), attrs }
}

fn unnamed(attrs: Vec<Attribute>) -> Field {
    Field { ident: None, attrs }
}

fn variant(name: &str, attrs: Vec<Attribute>) -> Variant {
    Variant { ident: name.into(), fields: Fields::Unit, attrs }
}

fn a_struct(name: &str, attrs: Vec<Attribute>, fields: Vec<Field>) -> DeriveInput {
    DeriveInput { ident: name.into(), attrs, data: Data::Struct(fields) }
}

fn an_enum(name: &str, attrs: Vec<Attribute>, variants: Vec<Variant>) -> DeriveInput {
    DeriveInput { ident: name.into(), attrs, data: Data::Enum(variants) }
}

fn text(s: &str) -> Docs {
    Docs::Text(s.into())
}

/// The names that the type exposes, in declaration order.
fn field_names(out: &FieldsImpl) -> Vec<String> {
    out.field_names.iter().flatten().cloned().collect()
}

fn foo_with_one_field() -> DeriveInput {
    a_struct("Foo", vec![], vec![field("foo", vec![doc(" foo")])])
}

#[test]
fn documented_fields_it_works() {
    let foo = a_struct(
        "Foo",
        vec![],
        vec![field("first", vec![doc(" 1")]), field("second", vec![doc(" 2")])],
    );
    let out = documented_fields(&foo).unwrap();
    assert_eq!(out.trait_ident, "DocumentedFields");
    assert_eq!(out.field_docs.len(), 2);
    assert_eq!(out.get_field_docs("first"), Ok(&text("1")));
    assert_eq!(out.get_field_docs("second"), Ok(&text("2")));
    assert_eq!(out.get_field_docs("third"), Err(Error::NoSuchField("third".into())));

    // with the basic macro a field may go without doc comments
    let foo = a_struct(
        "Foo",
        vec![],
        vec![
            field("first", vec![doc(" 1")]),
            field("second", vec![]),
            field("third", vec![doc(" 3")]),
        ],
    );
    let out = basic::documented_fields(&foo).unwrap();
    assert_eq!(out.field_docs.len(), 3);
    assert_eq!(out.get_field_docs("first"), Ok(&text("1")));
    assert_eq!(out.get_field_docs("second"), Err(Error::NoDocComments("second".into())));
    assert_eq!(out.get_field_docs("third"), Ok(&text("3")));
    assert_eq!(out.get_field_docs("fourth"), Err(Error::NoSuchField("fourth".into())));

    // the macro for required documentation refuses it
    let err = documented_fields(&foo).unwrap_err();
    assert_eq!(err.kind(), ErrorKind::MissingDocumentation);
    assert_eq!(err.first.location, Location { member: Some(1), place: Place::Declaration });
    assert_eq!(err.first.message, "Missing doc comments");
}

#[test]
fn documented_fields_enum_works() {
    let bar = an_enum(
        "Bar",
        vec![],
        vec![variant("First", vec![doc(" 1")]), variant("Second", vec![doc(" 2")])],
    );
    let out = documented_fields(&bar).unwrap();
    assert_eq!(out.field_docs.len(), 2);
    assert_eq!(out.get_field_docs("First"), Ok(&text("1")));
    assert_eq!(out.get_field_docs("Second"), Ok(&text("2")));
    assert_eq!(out.get_field_docs("Third"), Err(Error::NoSuchField("Third".into())));

    let bar =
        an_enum("Bar", vec![], vec![variant("First", vec![]), variant("Second", vec![doc(" 2")])]);
    let out = basic::documented_fields(&bar).unwrap();
    assert_eq!(out.field_docs.len(), 2);
    assert_eq!(out.get_field_docs("First"), Err(Error::NoDocComments("First".into())));
    assert_eq!(out.get_field_docs("Second"), Ok(&text("2")));
    assert_eq!(out.get_field_docs("Third"), Err(Error::NoSuchField("Third".into())));
}

#[test]
fn documented_fields_union_works() {
    let foo_bar = DeriveInput {
        ident: "FooBar".into(),
        attrs: vec![],
        data: Data::Union(vec![
            field("first", vec![doc(" 1")]),
            field("second", vec![doc(" 2")]),
        ]),
    };
    let out = documented_fields(&foo_bar).unwrap();
    assert_eq!(out.field_docs.len(), 2);
    assert_eq!(out.get_field_docs("first"), Ok(&text("1")));
    assert_eq!(out.get_field_docs("second"), Ok(&text("2")));

    let foo_bar = DeriveInput {
        ident: "FooBar".into(),
        attrs: vec![],
        data: Data::Union(vec![
            field("first", vec![]),
            field("second", vec![doc(" 2")]),
            field("third", vec![]),
        ]),
    };
    let out = basic::documented_fields(&foo_bar).unwrap();
    assert_eq!(out.field_docs.len(), 3);
    assert_eq!(out.get_field_docs("first"), Err(Error::NoDocComments("first".into())));
    assert_eq!(out.get_field_docs("second"), Ok(&text("2")));
    assert_eq!(out.get_field_docs("third"), Err(Error::NoDocComments("third".into())));
}

#[test]
fn documented_fields_unnamed_fields() {
    let foo = a_struct(
        "Foo",
        vec![],
        vec![unnamed(vec![doc(" 0")]), unnamed(vec![doc(" 1")]), unnamed(vec![doc(" 2")])],
    );
    let out = documented_fields(&foo).unwrap();
    assert_eq!(out.field_docs.len(), 3);
    assert_eq!(out.field_docs[0], text("0"));
    assert_eq!(out.field_docs[1], text("1"));
    assert_eq!(out.field_docs[2], text("2"));
    assert!(out.lookup.is_empty());

    let foo = a_struct(
        "Foo",
        vec![],
        vec![unnamed(vec![doc(" 0")]), unnamed(vec![doc(" 1")]), unnamed(vec![])],
    );
    let out = basic::documented_fields(&foo).unwrap();
    assert_eq!(out.field_docs.len(), 3);
    assert_eq!(out.field_docs[0], text("0"));
    assert_eq!(out.field_docs[1], text("1"));
    assert_eq!(out.field_docs[2], Docs::Absent);
}

#[test]
fn documented_fields_generic_type_works() {
    let out = documented_fields(&foo_with_one_field()).unwrap();
    assert_eq!(out.get_field_docs("foo"), Ok(&text("foo")));
}

#[test]
fn documented_fields_generic_type_with_bounds_works() {
    let out = documented_fields(&foo_with_one_field()).unwrap();
    assert_eq!(out.get_field_docs("foo"), Ok(&text("foo")));
}

#[test]
fn documented_fields_const_generic_type_works() {
    let out = documented_fields(&foo_with_one_field()).unwrap();
    assert_eq!(out.get_field_docs("foo"), Ok(&text("foo")));
}

#[test]
fn documented_fields_lifetimed_type_works() {
    let out = documented_fields(&foo_with_one_field()).unwrap();
    assert_eq!(field_names(&out), ["foo"]);
    assert_eq!(out.get_field_docs("foo"), Ok(&text("foo")));
}

#[test]
fn documented_fields_empty_customise_works() {
    let doge = a_struct(
        "Doge",
        vec![options("")],
        vec![field("coin", vec![doc(" Wow, much coin")])],
    );
    let out = documented_fields(&doge).unwrap();
    assert_eq!(field_names(&out), ["coin"]);
    assert_eq!(out.get_field_docs("coin"), Ok(&text("Wow, much coin")));
}

#[test]
fn documented_fields_multiple_attrs_works() {
    let doge = a_struct(
        "Doge",
        vec![options(""), options("")],
        vec![field("coin", vec![doc(" Wow, much coin"), options(""), options("")])],
    );
    let out = documented_fields(&doge).unwrap();
    assert_eq!(field_names(&out), ["coin"]);
    assert_eq!(out.get_field_docs("coin"), Ok(&text("Wow, much coin")));
}

#[test]
fn documented_fields_container_customise_works() {
    let doge = a_struct(
        "Doge",
        vec![options("trim = false")],
        vec![
            field("coin", vec![doc("     Wow, much coin")]),
            field("doge", vec![doc("     Wow, much doge")]),
        ],
    );
    let out = documented_fields(&doge).unwrap();
    assert_eq!(field_names(&out), ["coin", "doge"]);
    assert_eq!(out.get_field_docs("coin"), Ok(&text("     Wow, much coin")));
    assert_eq!(out.get_field_docs("doge"), Ok(&text("     Wow, much doge")));
}

#[test]
fn documented_fields_field_customise_works() {
    let doge = a_struct(
        "Doge",
        vec![],
        vec![
            field("coin", vec![doc("     Wow, much coin"), options("trim = false")]),
            field("doge", vec![doc("     Wow, much doge")]),
        ],
    );
    let out = documented_fields(&doge).unwrap();
    assert_eq!(field_names(&out), ["coin", "doge"]);
    assert_eq!(out.get_field_docs("coin"), Ok(&text("     Wow, much coin")));
    assert_eq!(out.get_field_docs("doge"), Ok(&text("Wow, much doge")));
}

#[test]
fn documented_fields_field_customise_override_works() {
    let doge = a_struct(
        "Doge",
        vec![options("trim = false")],
        vec![
            field("coin", vec![doc("     Wow, much coin"), options("trim = true")]),
            field("doge", vec![doc("     Wow, much doge")]),
        ],
    );
    let out = documented_fields(&doge).unwrap();
    assert_eq!(field_names(&out), ["coin", "doge"]);
    assert_eq!(out.get_field_docs("coin"), Ok(&text("Wow, much coin")));
    assert_eq!(out.get_field_docs("doge"), Ok(&text("     Wow, much doge")));
}

#[test]
fn documented_fields_default_works() {
    let mission = an_enum(
        "Mission",
        vec![options("default = \"Woosh\"")],
        vec![
            variant("Launch", vec![doc(" Rumble")]),
            variant("Boost", vec![]),
            variant("Touchdown", vec![options("default = \"Boom\"")]),
        ],
    );
    let out = documented_fields(&mission).unwrap();
    let value = |name: &str| match out.get_field_docs(name) {
        Ok(Docs::Text(text)) => Ok(text.clone()),
        Ok(Docs::Default(expr)) => Ok(expr.string_literal().unwrap()),
        Ok(Docs::Absent) => unreachable!(),
        Err(e) => Err(e),
    };
    assert_eq!(field_names(&out), ["Launch", "Boost", "Touchdown"]);
    assert_eq!(value("Launch"), Ok("Rumble".into()));
    assert_eq!(value("Boost"), Ok("Woosh".into()));
    assert_eq!(value("Touchdown"), Ok("Boom".into()));
}

#[test]
fn rename_and_rename_all_work() {
    let always_winning = a_struct(
        "AlwaysWinning",
        vec![options("rename_all = \"SCREAMING-KEBAB-CASE\"")],
        vec![
            field("opposite_colour_bishops", vec![doc(" Gotta be opposite.")]),
            field(
                "rooks",
                vec![
                    doc(" Gotta have rooks."),
                    options("rename_all = \"lowercase\", rename = \"some-ROOKS\""),
                ],
            ),
            field(
                "some_pawns",
                vec![doc(" Gotta have some pawns."), options("rename_all = \"kebab-case\"")],
            ),
        ],
    );
    let out = documented_fields(&always_winning).unwrap();
    assert_eq!(field_names(&out), ["OPPOSITE-COLOUR-BISHOPS", "some-ROOKS", "some-pawns"]);
    assert_eq!(out.get_field_docs("OPPOSITE-COLOUR-BISHOPS"), Ok(&text("Gotta be opposite.")));
    assert_eq!(out.get_field_docs("some-ROOKS"), Ok(&text("Gotta have rooks.")));
    assert_eq!(out.get_field_docs("some-pawns"), Ok(&text("Gotta have some pawns.")));
}

#[test]
fn can_set_name_for_unnamed_fields() {
    let ok_you_win = a_struct(
        "OkYouWin",
        vec![],
        vec![
            unnamed(vec![doc(" Leave me alone."), options("rename = \"ahhh\"")]),
            unnamed(vec![doc(" Just kidding.")]),
        ],
    );
    let out = documented_fields(&ok_you_win).unwrap();
    assert_eq!(field_names(&out), ["ahhh"]);
    assert_eq!(out.field_docs.len(), 2);
    assert_eq!(out.field_docs, [text("Leave me alone."), text("Just kidding.")]);
    assert_eq!(out.get_field_docs("ahhh"), Ok(&text("Leave me alone.")));
}

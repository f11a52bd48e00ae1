use documented::error::{ErrorKind, Location, Place};
use documented::model::{AttrValue, Attribute, Meta};
use documented::text::{chars_of, normalize, string_of, trim};
use documented::token::{Delimiter, Spacing, Token};
use documented::util::get_docs;

fn flatten(stream: proc_macro2::TokenStream, out: &mut Vec<Token>) {
    for tree in stream {
        match tree {
            proc_macro2::TokenTree::Ident(ident) => out.push(Token::Ident(ident.to_string())),
            proc_macro2::TokenTree::Literal(literal) => {
                out.push(Token::Literal(literal.to_string()))
            }
            proc_macro2::TokenTree::Punct(punct) => out.push(Token::Punct(
                punct.as_char(),
                match punct.spacing() {
                    proc_macro2::Spacing::Alone => Spacing::Alone,
                    proc_macro2::Spacing::Joint => Spacing::Joint,
                },
            )),
            proc_macro2::TokenTree::Group(group) => {
                let delimiter = match group.delimiter() {
                    proc_macro2::Delimiter::Parenthesis => Some(Delimiter::Parenthesis),
                    proc_macro2::Delimiter::Brace => Some(Delimiter::Brace),
                    proc_macro2::Delimiter::Bracket => Some(Delimiter::Bracket),
                    proc_macro2::Delimiter::None => None,
                };
                out.extend(delimiter.map(Token::Open));
                flatten(group.stream(), out);
                out.extend(delimiter.map(Token::Close));
            }
        }
    }
}

/// The tokens of a source text.
fn lex(text: &str) -> Option<Vec<Token>> {
    let mut tokens = Vec::new();
    flatten(text.parse().ok()?, &mut tokens);
    Some(tokens)
}

fn strings(fragments: &[&str]) -> Vec<String> {
    fragments.iter().map(|f| f.to_string()).collect()
}

fn doc(text: &str) -> Attribute {
    Attribute { path: "doc".into(), meta: Meta::NameValue(AttrValue::Str(text.into())) }
}

#[test]
fn no_fragments_give_no_text() {
    assert_eq!(normalize(&vec![], true), None);
    assert_eq!(normalize(&vec![], false), None);
}

#[test]
fn fragments_are_trimmed_and_joined() {
    let fragments = strings(&["  a  ", " b"]);
    assert_eq!(normalize(&fragments, true), Some("a\nb".into()));
}

#[test]
fn fragments_are_joined_as_they_are() {
    let fragments = strings(&["  a  ", " b"]);
    assert_eq!(normalize(&fragments, false), Some("  a  \n b".into()));
}

#[test]
fn every_line_of_a_fragment_is_trimmed() {
    let fragments = strings(&["  first \n\t second\t\n third  "]);
    assert_eq!(normalize(&fragments, true), Some("first\nsecond\nthird".into()));
    assert_eq!(normalize(&fragments, false), Some("  first \n\t second\t\n third  ".into()));
}

#[test]
fn empty_lines_stay() {
    assert_eq!(normalize(&strings(&[""]), true), Some("".into()));
    assert_eq!(normalize(&strings(&["", ""]), true), Some("\n".into()));
    assert_eq!(normalize(&strings(&["a\n"]), true), Some("a\n".into()));
    assert_eq!(normalize(&strings(&["\n\n"]), true), Some("\n\n".into()));
    assert_eq!(normalize(&strings(&["   "]), true), Some("".into()));
}

#[test]
fn carriage_returns_are_white_space() {
    assert_eq!(normalize(&strings(&["a\r\nb\r\n"]), true), Some("a\nb\n".into()));
}

#[test]
fn white_space_beyond_ascii_is_trimmed() {
    assert_eq!(normalize(&strings(&["\u{3000}wide\u{a0}"]), true), Some("wide".into()));
    assert_eq!(trim(&chars_of("\u{2003}x y\u{2003}")), chars_of("x y"));
    let spaces = "\t\n\u{b}\u{c}\r \u{85}\u{a0}\u{1680}\u{2000}\u{2001}\u{2002}\u{2003}\u{2004}\u{2005}\u{2006}\u{2007}\u{2008}\u{2009}\u{200a}\u{2028}\u{2029}\u{202f}\u{205f}\u{3000}";
    assert_eq!(trim(&chars_of(spaces)), chars_of(""));
    for inner in ["\u{8}", "\u{e}", "\u{1f}", "!", "\u{84}", "\u{86}", "\u{9f}", "\u{a1}", "\u{167f}", "\u{1681}", "\u{180e}", "\u{1fff}", "\u{200b}", "\u{2027}", "\u{202a}", "\u{202e}", "\u{2030}", "\u{205e}", "\u{2060}", "\u{2fff}", "\u{3001}", "\u{feff}"] {
        let text = format!("{}{}{}", spaces, inner, spaces);
        assert_eq!(trim(&chars_of(&text)), chars_of(inner));
    }
}

#[test]
fn inner_white_space_stays() {
    assert_eq!(trim(&chars_of("  a  b  ")), chars_of("a  b"));
    assert_eq!(trim(&chars_of("")), chars_of(""));
    assert_eq!(trim(&chars_of(" \t ")), chars_of(""));
    assert_eq!(trim(&chars_of("x")), chars_of("x"));
}

#[test]
fn normalizing_twice_changes_nothing() {
    for fragments in [
        strings(&["  a  ", " b"]),
        strings(&[" one \n two ", "", "three\n"]),
        strings(&["\n", " \n "]),
    ] {
        let once = normalize(&fragments, true).unwrap();
        let twice = normalize(&vec![once.clone()], true).unwrap();
        assert_eq!(twice, once);
    }
}

#[test]
fn clean_text_is_its_own_normal_form() {
    let text = "a b\n\nc".to_string();
    assert_eq!(normalize(&vec![text.clone()], true), Some(text));
}

#[test]
fn characters_and_strings_convert_both_ways() {
    let chars = chars_of("hé\u{1f600}");
    assert_eq!(chars, vec!['h', 'é', '\u{1f600}']);
    assert_eq!(string_of(&chars), "hé\u{1f600}");
    assert_eq!(string_of(&vec![]), "");
}

#[test]
fn doc_comments_are_read_off_the_attributes() {
    let attrs = vec![
        Attribute { path: "derive".into(), meta: Meta::List(lex("Clone").unwrap()) },
        doc(" one "),
        Attribute { path: "doc".into(), meta: Meta::List(lex("hidden").unwrap()) },
        Attribute { path: "must_use".into(), meta: Meta::Path },
        Attribute {
            path: "path".into(),
            meta: Meta::NameValue(AttrValue::Str("elsewhere".into())),
        },
        doc(" two"),
    ];
    assert_eq!(get_docs(&attrs, true), Ok(Some("one\ntwo".into())));
    assert_eq!(get_docs(&attrs, false), Ok(Some(" one \n two".into())));
    assert_eq!(get_docs(&attrs[..1].to_vec(), true), Ok(None));
}

#[test]
fn a_doc_comment_must_be_a_string_literal() {
    let attrs = vec![
        doc(" one"),
        Attribute { path: "doc".into(), meta: Meta::NameValue(AttrValue::Other) },
        Attribute { path: "doc".into(), meta: Meta::NameValue(AttrValue::Other) },
    ];
    let err = get_docs(&attrs, true).unwrap_err();
    assert_eq!(err.kind(), ErrorKind::MalformedValue);
    assert_eq!(err.first.message, "Doc comment is not a string literal");
    assert_eq!(err.first.location, Location { member: None, place: Place::Attribute(1) });
    assert!(err.rest.is_empty());
}

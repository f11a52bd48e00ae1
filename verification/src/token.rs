//! Tokens of the host language, as far as the option language reads them.
//!
//! An option list arrives as a flat sequence of tokens: a delimited group
//! is its opening delimiter, the tokens within, and its closing delimiter.

use vstd::prelude::*;
use crate::text::{chars_of, string_of};

verus! {

broadcast use vstd::string::group_string_axioms;

/// Whether a punctuation character is followed at once by another one.
#[derive(Clone, Copy, Debug, PartialEq, Eq, Structural)]
pub enum Spacing {
    Alone,
    Joint,
}

/// The delimiters of a group.
#[derive(Clone, Copy, Debug, PartialEq, Eq, Structural)]
pub enum Delimiter {
    /// `(` and `)`.
    Parenthesis,
    /// `{` and `}`.
    Brace,
    /// `[` and `]`.
    Bracket,
}

/// One token.
#[derive(Clone, Debug, PartialEq, Eq)]
pub enum Token {
    /// A word: an identifier or a keyword.
    Ident(String),
    /// One punctuation character.
    Punct(char, Spacing),
    /// A literal, by its source text.
    Literal(String),
    /// The opening delimiter of a group.
    Open(Delimiter),
    /// The closing delimiter of a group.
    Close(Delimiter),
}

/// What a token is, with its text as a sequence of characters.
pub enum TokenView {
    Ident(Seq<char>),
    Punct(char, Spacing),
    Literal(Seq<char>),
    Open(Delimiter),
    Close(Delimiter),
}

impl Delimiter {
    /// The text of the opening delimiter.
    pub open spec fn opening(self) -> Seq<char> {
        match self {
            Delimiter::Parenthesis => seq!['('],
            Delimiter::Brace => seq!['{'],
            Delimiter::Bracket => seq!['['],
        }
    }

    /// The text of the closing delimiter.
    pub open spec fn closing(self) -> Seq<char> {
        match self {
            Delimiter::Parenthesis => seq![')'],
            Delimiter::Brace => seq!['}'],
            Delimiter::Bracket => seq![']'],
        }
    }
}

impl View for Token {
    type V = TokenView;

    open spec fn view(&self) -> TokenView {
        match self {
            Token::Ident(s) => TokenView::Ident(s@),
            Token::Punct(c, spacing) => TokenView::Punct(*c, *spacing),
            Token::Literal(s) => TokenView::Literal(s@),
            Token::Open(delimiter) => TokenView::Open(*delimiter),
            Token::Close(delimiter) => TokenView::Close(*delimiter),
        }
    }
}

/// The views of a sequence of tokens.
pub open spec fn token_views(tokens: Seq<Token>) -> Seq<TokenView> {
    tokens.map_values(|t: Token| t@)
}

impl TokenView {
    /// The source text of the token.
    pub open spec fn text(self) -> Seq<char> {
        match self {
            TokenView::Ident(s) => s,
            TokenView::Punct(c, _) => seq![c],
            TokenView::Literal(s) => s,
            TokenView::Open(delimiter) => delimiter.opening(),
            TokenView::Close(delimiter) => delimiter.closing(),
        }
    }

    /// Whether the token is the word `name`.
    pub open spec fn is_ident(self, name: Seq<char>) -> bool {
        self matches TokenView::Ident(s) && s == name
    }

    /// Whether the token is the punctuation character `c`.
    pub open spec fn is_punct(self, c: char) -> bool {
        self matches TokenView::Punct(p, _) && p == c
    }

    /// Whether white space separates the token from the token `next` after
    /// it when a token sequence is written out: none stands after a
    /// punctuation character that is joined to what follows it, none after
    /// an opening delimiter, and none before a closing one.
    pub open spec fn spaced(self, next: TokenView) -> bool {
        !(self matches TokenView::Punct(_, Spacing::Joint)) && !(self is Open) && !(next is Close)
    }
}

/// The source text of a token sequence: the tokens' texts with one space
/// between neighbours, but none after a punctuation character that is joined
/// to what follows it, and none within the delimiters of a group.
pub open spec fn rendered(tokens: Seq<TokenView>) -> Seq<char>
    decreases tokens.len(),
{
    if tokens.len() == 0 {
        Seq::<char>::empty()
    } else if tokens.len() == 1 {
        tokens[0].text()
    } else {
        let front = tokens.drop_last();
        if front.last().spaced(tokens.last()) {
            rendered(front).push(' ') + tokens.last().text()
        } else {
            rendered(front) + tokens.last().text()
        }
    }
}

impl Token {
    /// Whether the token is the word `name`.
    pub fn is_ident(&self, name: &str) -> (r: bool)
        ensures
            r == self@.is_ident(name@),
    {
        match self {
            Token::Ident(s) => *s == name.to_owned(),
            _ => false,
        }
    }

    /// Whether the token is the punctuation character `c`.
    pub fn is_punct(&self, c: char) -> (r: bool)
        ensures
            r == self@.is_punct(c),
    {
        match self {
            Token::Punct(p, _) => *p == c,
            _ => false,
        }
    }

    /// Appends the token's source text to `out`.
    fn write_text(&self, out: &mut Vec<char>)
        ensures
            final(out)@ == old(out)@ + self@.text(),
    {
        match self {
            Token::Punct(c, _) => {
                out.push(*c);
                assert(out@ =~= old(out)@ + seq![*c]);
            },
            Token::Open(delimiter) => {
                match delimiter {
                    Delimiter::Parenthesis => out.push('('),
                    Delimiter::Brace => out.push('{'),
                    Delimiter::Bracket => out.push('['),
                }
                assert(out@ =~= old(out)@ + delimiter.opening());
            },
            Token::Close(delimiter) => {
                match delimiter {
                    Delimiter::Parenthesis => out.push(')'),
                    Delimiter::Brace => out.push('}'),
                    Delimiter::Bracket => out.push(']'),
                }
                assert(out@ =~= old(out)@ + delimiter.closing());
            },
            Token::Ident(s) | Token::Literal(s) => {
                let chars = chars_of(s.as_str());
                let ghost start = out@;
                let mut i: usize = 0;
                while i < chars.len()
                    invariant
                        i <= chars.len(),
                        out@ == start + chars@.take(i as int),
                    decreases chars.len() - i,
                {
                    out.push(chars[i]);
                    i += 1;
                    assert(out@ =~= start + chars@.take(i as int));
                }
                assert(chars@.take(chars.len() as int) =~= chars@);
            },
        }
    }
}

/// The source text of a token sequence.
pub fn render(tokens: &Vec<Token>) -> (r: String)
    ensures
        r@ == rendered(token_views(tokens@)),
{
    assert(token_views(tokens@).subrange(0, tokens.len() as int) =~= token_views(tokens@));
    render_range(tokens, 0, tokens.len())
}

/// The source text of the tokens from position `from` up to `to`.
pub(crate) fn render_range(tokens: &Vec<Token>, from: usize, to: usize) -> (r: String)
    requires
        from <= to <= tokens.len(),
    ensures
        r@ == rendered(token_views(tokens@).subrange(from as int, to as int)),
{
    let ghost all = token_views(tokens@);
    let mut out: Vec<char> = Vec::new();
    let mut i: usize = from;
    while i < to
        invariant
            from <= i <= to <= tokens.len(),
            all == token_views(tokens@),
            out@ == rendered(all.subrange(from as int, i as int)),
        decreases to - i,
    {
        proof {
            let now = all.subrange(from as int, i + 1);
            assert(now.drop_last() =~= all.subrange(from as int, i as int));
            assert(now.last() == tokens@[i as int]@);
            if i > from {
                assert(now.drop_last().last() == tokens@[i - 1]@);
            }
        }
        if i > from {
            let glued = match (&tokens[i - 1], &tokens[i]) {
                (Token::Punct(_, Spacing::Joint), _) => true,
                (Token::Open(_), _) => true,
                (_, Token::Close(_)) => true,
                _ => false,
            };
            if !glued {
                out.push(' ');
            }
        }
        tokens[i].write_text(&mut out);
        i += 1;
    }
    string_of(&out)
}

} // verus!

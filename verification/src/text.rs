//! Text normalisation: turning the raw fragments of a declaration's doc
//! comments into one documentation string.
//!
//! With trimming on, every fragment is split on line breaks, every line loses
//! its leading and trailing white space, and all lines of all fragments are
//! joined with `\n`. With trimming off, the fragments are joined with `\n` as
//! they are.

use vstd::prelude::*;

verus! {

broadcast use vstd::string::group_string_axioms;

/// Whether `c` is white space, which is to have the Unicode property
/// `White_Space`: the space, the characters from the tabulator to the
/// carriage return, the next line character, the no-break spaces, the Ogham
/// space mark, the spaces of fixed width, the line and the paragraph
/// separator, the medium mathematical space and the ideographic space.
pub open spec fn white_space(c: char) -> bool {
    ||| c == ' '
    ||| ('\t' <= c && c <= '\r')
    ||| c == '\u{85}'
    ||| c == '\u{a0}'
    ||| c == '\u{1680}'
    ||| ('\u{2000}' <= c && c <= '\u{200a}')
    ||| c == '\u{2028}'
    ||| c == '\u{2029}'
    ||| c == '\u{202f}'
    ||| c == '\u{205f}'
    ||| c == '\u{3000}'
}

/// `char::is_whitespace` of std, which tells whether a character has the
/// Unicode property `White_Space`. The contract lists the characters that
/// have it.
pub assume_specification[ char::is_whitespace ](c: char) -> (r: bool)
    ensures
        r == white_space(c),
;

/// `String::push` of std appends one character.
pub assume_specification[ String::push ](s: &mut String, c: char)
    ensures
        final(s)@ == old(s)@.push(c),
;

/// `s` without its leading white space.
pub open spec fn trim_start(s: Seq<char>) -> Seq<char>
    decreases s.len(),
{
    if s.len() > 0 && white_space(s[0]) {
        trim_start(s.drop_first())
    } else {
        s
    }
}

/// `s` without its trailing white space.
pub open spec fn trim_end(s: Seq<char>) -> Seq<char>
    decreases s.len(),
{
    if s.len() > 0 && white_space(s.last()) {
        trim_end(s.drop_last())
    } else {
        s
    }
}

/// `s` without leading and trailing white space.
pub open spec fn trimmed(s: Seq<char>) -> Seq<char> {
    trim_end(trim_start(s))
}

/// The lines of `s`: the pieces between its line breaks. There is always at
/// least one line, and a trailing line break is followed by an empty line.
pub open spec fn split_lines(s: Seq<char>) -> Seq<Seq<char>>
    decreases s.len(),
{
    if s.len() == 0 {
        seq![Seq::<char>::empty()]
    } else {
        let before = split_lines(s.drop_last());
        if s.last() == '\n' {
            before.push(Seq::<char>::empty())
        } else {
            before.drop_last().push(before.last().push(s.last()))
        }
    }
}

/// The lines joined with `\n` between them.
pub open spec fn join_lines(lines: Seq<Seq<char>>) -> Seq<char>
    decreases lines.len(),
{
    if lines.len() == 0 {
        Seq::<char>::empty()
    } else if lines.len() == 1 {
        lines[0]
    } else {
        join_lines(lines.drop_last()).push('\n') + lines.last()
    }
}

/// The trimmed lines of all fragments, in order.
pub open spec fn trimmed_lines(fragments: Seq<Seq<char>>) -> Seq<Seq<char>>
    decreases fragments.len(),
{
    if fragments.len() == 0 {
        Seq::<Seq<char>>::empty()
    } else {
        trimmed_lines(fragments.drop_last()) + split_lines(fragments.last()).map_values(
            |l: Seq<char>| trimmed(l),
        )
    }
}

/// The documentation text that a list of fragments stands for.
pub open spec fn normalized(fragments: Seq<Seq<char>>, trim: bool) -> Option<Seq<char>> {
    if fragments.len() == 0 {
        None
    } else if trim {
        Some(join_lines(trimmed_lines(fragments)))
    } else {
        Some(join_lines(fragments))
    }
}

/// The views of a list of strings.
pub open spec fn views(v: Seq<String>) -> Seq<Seq<char>> {
    v.map_values(|s: String| s@)
}

/// The view of an optional string.
pub open spec fn text_view(s: Option<String>) -> Option<Seq<char>> {
    match s {
        Some(s) => Some(s@),
        None => None,
    }
}

/// Whether two strings hold the same text.
pub fn same_text(a: &str, b: &str) -> (r: bool)
    ensures
        r == (a@ == b@),
{
    a.to_owned() == b.to_owned()
}

/// `s` has no line break in it.
pub open spec fn single_line(s: Seq<char>) -> bool {
    forall|i: int| 0 <= i < s.len() ==> s[i] != '\n'
}

/// `s` neither starts nor ends with white space.
pub open spec fn is_trimmed(s: Seq<char>) -> bool {
    s.len() > 0 ==> !white_space(s[0]) && !white_space(s.last())
}

/// Where the first `k` characters are white space and the next one is not,
/// trimming at the start drops exactly those.
pub proof fn lemma_trim_start_skip(s: Seq<char>, k: int)
    requires
        0 <= k <= s.len(),
        forall|i: int| 0 <= i < k ==> white_space(s[i]),
        k < s.len() ==> !white_space(s[k]),
    ensures
        trim_start(s) == s.skip(k),
    decreases k,
{
    if k == 0 {
        assert(s.skip(0) =~= s);
    } else {
        lemma_trim_start_skip(s.drop_first(), k - 1);
        assert(s.drop_first().skip(k - 1) =~= s.skip(k));
    }
}

/// Where the characters from position `k` on are white space and the one
/// before is not, trimming at the end drops exactly those.
pub proof fn lemma_trim_end_take(s: Seq<char>, k: int)
    requires
        0 <= k <= s.len(),
        forall|i: int| k <= i < s.len() ==> white_space(s[i]),
        k > 0 ==> !white_space(s[k - 1]),
    ensures
        trim_end(s) == s.take(k),
    decreases s.len() - k,
{
    if k == s.len() {
        assert(s.take(k) =~= s);
    } else {
        lemma_trim_end_take(s.drop_last(), k);
        assert(s.drop_last().take(k) =~= s.take(k));
    }
}

proof fn lemma_trim_start_shape(s: Seq<char>)
    ensures
        trim_start(s).len() <= s.len(),
        trim_start(s) == s.skip(s.len() - trim_start(s).len()),
        trim_start(s).len() > 0 ==> !white_space(trim_start(s)[0]),
    decreases s.len(),
{
    if s.len() > 0 && white_space(s[0]) {
        let rest = s.drop_first();
        lemma_trim_start_shape(rest);
        assert(rest.skip(rest.len() - trim_start(rest).len()) =~= s.skip(
            s.len() - trim_start(rest).len(),
        ));
    } else {
        assert(s.skip(0) =~= s);
    }
}

proof fn lemma_trim_end_shape(s: Seq<char>)
    ensures
        trim_end(s).len() <= s.len(),
        trim_end(s) == s.take(trim_end(s).len() as int),
        trim_end(s).len() > 0 ==> !white_space(trim_end(s).last()),
    decreases s.len(),
{
    if s.len() > 0 && white_space(s.last()) {
        let rest = s.drop_last();
        lemma_trim_end_shape(rest);
        assert(rest.take(trim_end(rest).len() as int) =~= s.take(trim_end(rest).len() as int));
    } else {
        assert(s.take(s.len() as int) =~= s);
    }
}

/// Trimmed text neither starts nor ends with white space, and every
/// character of it is a character of the untrimmed text.
pub proof fn lemma_trimmed_shape(s: Seq<char>)
    ensures
        is_trimmed(trimmed(s)),
        single_line(s) ==> single_line(trimmed(s)),
{
    let u = trim_start(s);
    let t = trim_end(u);
    lemma_trim_start_shape(s);
    lemma_trim_end_shape(u);
    if t.len() > 0 {
        assert(t[0] == u[0]);
    }
    if single_line(s) {
        assert forall|i: int| 0 <= i < t.len() implies t[i] != '\n' by {
            assert(t[i] == u[i]);
            assert(u[i] == s[i + (s.len() - u.len())]);
        }
    }
}

/// Text that neither starts nor ends with white space is left as it is.
pub proof fn lemma_trimmed_fixpoint(s: Seq<char>)
    requires
        is_trimmed(s),
    ensures
        trimmed(s) == s,
{
}

/// The characters of `s`.
pub fn chars_of(s: &str) -> (r: Vec<char>)
    ensures
        r@ == s@,
{
    let mut out: Vec<char> = Vec::new();
    for c in it: s.chars()
        invariant
            it.seq() == s@,
            out@ == it.seq().take(it.index() as int),
    {
        out.push(c);
    }
    out
}

/// The string made of `chars`.
pub fn string_of(chars: &Vec<char>) -> (r: String)
    ensures
        r@ == chars@,
{
    let mut out = String::new();
    let mut i: usize = 0;
    while i < chars.len()
        invariant
            i <= chars.len(),
            out@ == chars@.take(i as int),
        decreases chars.len() - i,
    {
        out.push(chars[i]);
        i += 1;
        assert(chars@.take(i as int) =~= chars@.take(i - 1).push(chars@[i - 1]));
    }
    assert(chars@.take(chars.len() as int) =~= chars@);
    out
}

/// `line` without its leading and trailing white space.
pub fn trim(line: &Vec<char>) -> (r: Vec<char>)
    ensures
        r@ == trimmed(line@),
{
    let n = line.len();
    let mut lo: usize = 0;
    while lo < n && line[lo].is_whitespace()
        invariant
            lo <= n,
            n == line.len(),
            forall|i: int| 0 <= i < lo ==> white_space(line@[i]),
        decreases n - lo,
    {
        lo += 1;
    }
    let mut hi: usize = n;
    while hi > lo && line[hi - 1].is_whitespace()
        invariant
            lo <= hi <= n,
            n == line.len(),
            forall|i: int| hi <= i < n ==> white_space(line@[i]),
        decreases hi,
    {
        hi -= 1;
    }
    let mut out: Vec<char> = Vec::new();
    let mut i: usize = lo;
    while i < hi
        invariant
            lo <= i <= hi <= n,
            n == line.len(),
            out@ == line@.subrange(lo as int, i as int),
        decreases hi - i,
    {
        out.push(line[i]);
        i += 1;
        assert(line@.subrange(lo as int, i as int) =~= line@.subrange(lo as int, i - 1).push(
            line@[i - 1],
        ));
    }
    proof {
        let rest = line@.skip(lo as int);
        lemma_trim_start_skip(line@, lo as int);
        lemma_trim_end_take(rest, hi - lo);
        assert(rest.take(hi - lo) =~= line@.subrange(lo as int, hi as int));
    }
    out
}

/// Appends one more line to the joined text in `out`.
fn append_line(out: &mut Vec<char>, line: &Vec<char>, first: bool, Ghost(lines): Ghost<
    Seq<Seq<char>>,
>)
    requires
        old(out)@ == join_lines(lines),
        first == (lines.len() == 0),
    ensures
        final(out)@ == join_lines(lines.push(line@)),
{
    if !first {
        out.push('\n');
    }
    let ghost start = out@;
    let mut i: usize = 0;
    while i < line.len()
        invariant
            i <= line.len(),
            out@ == start + line@.take(i as int),
        decreases line.len() - i,
    {
        out.push(line[i]);
        i += 1;
        assert(line@.take(i as int) =~= line@.take(i - 1).push(line@[i - 1]));
        assert(out@ =~= start + line@.take(i as int));
    }
    proof {
        assert(line@.take(line.len() as int) =~= line@);
        assert(lines.push(line@).drop_last() =~= lines);
        if first {
            assert(join_lines(lines) =~= Seq::<char>::empty());
            assert(out@ =~= line@);
        }
    }
}

/// Appends the trimmed lines of `text` to the joined text in `out`.
fn append_trimmed_lines(out: &mut Vec<char>, text: &Vec<char>, first: bool, Ghost(lines): Ghost<
    Seq<Seq<char>>,
>)
    requires
        old(out)@ == join_lines(lines),
        first == (lines.len() == 0),
    ensures
        final(out)@ == join_lines(
            lines + split_lines(text@).map_values(|l: Seq<char>| trimmed(l)),
        ),
{
    let ghost trimming = |l: Seq<char>| trimmed(l);
    let ghost mut done: Seq<Seq<char>> = Seq::empty();
    let mut line: Vec<char> = Vec::new();
    let mut i: usize = 0;
    let mut fresh = first;
    assert(lines + done.map_values(trimming) =~= lines);
    while i < text.len()
        invariant
            i <= text.len(),
            done.push(line@) == split_lines(text@.take(i as int)),
            out@ == join_lines(lines + done.map_values(trimming)),
            fresh == ((lines + done.map_values(trimming)).len() == 0),
            trimming == |l: Seq<char>| trimmed(l),
        decreases text.len() - i,
    {
        let c = text[i];
        proof {
            assert(text@.take(i + 1).drop_last() =~= text@.take(i as int));
            assert(done.push(line@).drop_last() =~= done);
        }
        if c == '\n' {
            let t = trim(&line);
            append_line(out, &t, fresh, Ghost(lines + done.map_values(trimming)));
            proof {
                assert((lines + done.map_values(trimming)).push(t@) =~= lines + done.push(
                    line@,
                ).map_values(trimming));
                done = done.push(line@);
            }
            fresh = false;
            line = Vec::new();
        } else {
            line.push(c);
        }
        i += 1;
    }
    let t = trim(&line);
    append_line(out, &t, fresh, Ghost(lines + done.map_values(trimming)));
    proof {
        assert(text@.take(text.len() as int) =~= text@);
        assert((lines + done.map_values(trimming)).push(t@) =~= lines + done.push(
            line@,
        ).map_values(trimming));
    }
}

/// Joins the doc fragments of one declaration into its documentation text.
///
/// No fragments give `None`. With `trim`, the result holds every line of
/// every fragment, trimmed, in order; without, the fragments as they are.
/// Either way `\n` stands between the pieces.
pub fn normalize(fragments: &Vec<String>, trim: bool) -> (r: Option<String>)
    ensures
        match normalized(views(fragments@), trim) {
            Some(text) => r matches Some(s) && s@ == text,
            None => r is None,
        },
{
    if fragments.len() == 0 {
        return None;
    }
    let ghost all = views(fragments@);
    let mut out: Vec<char> = Vec::new();
    let mut k: usize = 0;
    while k < fragments.len()
        invariant
            k <= fragments.len(),
            all == views(fragments@),
            trim ==> out@ == join_lines(trimmed_lines(all.take(k as int))),
            trim ==> (k == 0 <==> trimmed_lines(all.take(k as int)).len() == 0),
            !trim ==> out@ == join_lines(all.take(k as int)),
        decreases fragments.len() - k,
    {
        let text = chars_of(fragments[k].as_str());
        proof {
            assert(all.take(k + 1).drop_last() =~= all.take(k as int));
            assert(all.take(k + 1).last() == text@);
            lemma_split_lines_nonempty(text@);
        }
        if trim {
            append_trimmed_lines(&mut out, &text, k == 0, Ghost(trimmed_lines(all.take(k as int))));
        } else {
            append_line(&mut out, &text, k == 0, Ghost(all.take(k as int)));
            assert(all.take(k as int).push(text@) =~= all.take(k + 1));
        }
        k += 1;
    }
    assert(all.take(fragments.len() as int) =~= all);
    Some(string_of(&out))
}

/// Every text has at least one line, and no line holds a line break.
pub proof fn lemma_split_lines_nonempty(s: Seq<char>)
    ensures
        split_lines(s).len() >= 1,
        forall|i: int| 0 <= i < split_lines(s).len() ==> single_line(#[trigger] split_lines(s)[i]),
    decreases s.len(),
{
    if s.len() > 0 {
        lemma_split_lines_nonempty(s.drop_last());
    }
}

/// Joining the lines of a text gives the text back.
pub proof fn lemma_join_split(s: Seq<char>)
    ensures
        join_lines(split_lines(s)) == s,
    decreases s.len(),
{
    if s.len() == 0 {
        assert(join_lines(split_lines(s)) =~= s);
    } else {
        let front = s.drop_last();
        let before = split_lines(front);
        lemma_join_split(front);
        lemma_split_lines_nonempty(front);
        if s.last() == '\n' {
            let after = before.push(Seq::<char>::empty());
            assert(after.drop_last() =~= before);
            assert(join_lines(after) =~= front.push('\n'));
        } else {
            let after = before.drop_last().push(before.last().push(s.last()));
            assert(after.drop_last() =~= before.drop_last());
            if before.len() == 1 {
                assert(join_lines(after) =~= front.push(s.last()));
            } else {
                assert(join_lines(after) =~= (join_lines(before.drop_last()).push('\n')
                    + before.last()).push(s.last()));
            }
        }
        assert(front.push(s.last()) =~= s);
    }
}

/// A text without line breaks is its only line.
pub proof fn lemma_split_single(b: Seq<char>)
    requires
        single_line(b),
    ensures
        split_lines(b) == seq![b],
    decreases b.len(),
{
    if b.len() == 0 {
        assert(b =~= Seq::<char>::empty());
    } else {
        let front = b.drop_last();
        lemma_split_single(front);
        assert(front.push(b.last()) =~= b);
        assert(seq![front].drop_last().push(seq![front].last().push(b.last())) =~= seq![b]);
    }
}

/// A line break and a further single line add one line.
pub proof fn lemma_split_append(a: Seq<char>, b: Seq<char>)
    requires
        single_line(b),
    ensures
        split_lines(a.push('\n') + b) == split_lines(a).push(b),
    decreases b.len(),
{
    let whole = a.push('\n') + b;
    if b.len() == 0 {
        assert(whole =~= a.push('\n'));
        assert(whole.drop_last() =~= a);
        assert(b =~= Seq::<char>::empty());
    } else {
        let front = b.drop_last();
        lemma_split_append(a, front);
        assert(whole.drop_last() =~= a.push('\n') + front);
        assert(whole.last() == b.last());
        assert(front.push(b.last()) =~= b);
        assert(split_lines(a).push(front).drop_last() =~= split_lines(a));
    }
}

/// Splitting what was joined from single lines gives the lines back.
pub proof fn lemma_split_join(lines: Seq<Seq<char>>)
    requires
        lines.len() >= 1,
        forall|i: int| 0 <= i < lines.len() ==> single_line(#[trigger] lines[i]),
    ensures
        split_lines(join_lines(lines)) == lines,
    decreases lines.len(),
{
    if lines.len() == 1 {
        lemma_split_single(lines[0]);
        assert(seq![lines[0]] =~= lines);
    } else {
        let front = lines.drop_last();
        assert forall|i: int| 0 <= i < front.len() implies single_line(#[trigger] front[i]) by {
            assert(front[i] == lines[i]);
        }
        lemma_split_join(front);
        lemma_split_append(join_lines(front), lines.last());
        assert(front.push(lines.last()) =~= lines);
    }
}

/// Every trimmed line of a list of fragments is a single line that neither
/// starts nor ends with white space; a list that is not empty has one.
pub proof fn lemma_trimmed_lines_clean(fragments: Seq<Seq<char>>)
    ensures
        fragments.len() > 0 ==> trimmed_lines(fragments).len() >= 1,
        forall|i: int|
            0 <= i < trimmed_lines(fragments).len() ==> single_line(
                #[trigger] trimmed_lines(fragments)[i],
            ) && is_trimmed(trimmed_lines(fragments)[i]),
    decreases fragments.len(),
{
    if fragments.len() > 0 {
        let front = trimmed_lines(fragments.drop_last());
        let lines = split_lines(fragments.last());
        let back = lines.map_values(|l: Seq<char>| trimmed(l));
        lemma_trimmed_lines_clean(fragments.drop_last());
        lemma_split_lines_nonempty(fragments.last());
        assert forall|i: int| 0 <= i < (front + back).len() implies single_line(
            #[trigger] (front + back)[i],
        ) && is_trimmed((front + back)[i]) by {
            if i >= front.len() {
                let j = i - front.len();
                assert((front + back)[i] == trimmed(lines[j]));
                lemma_trimmed_shape(lines[j]);
            }
        }
    }
}

/// Normalising with trimming is idempotent: the normalised text, taken as a
/// single fragment and normalised again, stays as it is.
pub proof fn law_normalize_idempotent(fragments: Seq<Seq<char>>)
    requires
        fragments.len() > 0,
    ensures
        normalized(seq![normalized(fragments, true)->0], true) == normalized(fragments, true),
{
    let lines = trimmed_lines(fragments);
    let text = join_lines(lines);
    let again = seq![text];
    lemma_trimmed_lines_clean(fragments);
    lemma_split_join(lines);
    assert(again.drop_last() =~= Seq::<Seq<char>>::empty());
    assert(trimmed_lines(again.drop_last()) =~= Seq::<Seq<char>>::empty());
    assert forall|i: int| 0 <= i < lines.len() implies lines.map_values(
        |l: Seq<char>| trimmed(l),
    )[i] == lines[i] by {
        lemma_trimmed_fixpoint(lines[i]);
    }
    assert(lines.map_values(|l: Seq<char>| trimmed(l)) =~= lines);
    assert(trimmed_lines(again) =~= lines);
}

/// A text whose lines carry no leading or trailing white space is its own
/// normal form.
pub proof fn law_normalize_clean_text(s: Seq<char>)
    requires
        forall|i: int| 0 <= i < split_lines(s).len() ==> is_trimmed(#[trigger] split_lines(s)[i]),
    ensures
        normalized(seq![s], true) == Some(s),
        normalized(seq![normalized(seq![s], true)->0], true) == normalized(seq![s], true),
{
    let lines = split_lines(s);
    let one = seq![s];
    assert(one.drop_last() =~= Seq::<Seq<char>>::empty());
    assert(trimmed_lines(one.drop_last()) =~= Seq::<Seq<char>>::empty());
    assert forall|i: int| 0 <= i < lines.len() implies lines.map_values(
        |l: Seq<char>| trimmed(l),
    )[i] == lines[i] by {
        lemma_trimmed_fixpoint(lines[i]);
    }
    assert(lines.map_values(|l: Seq<char>| trimmed(l)) =~= lines);
    assert(trimmed_lines(one) =~= lines);
    lemma_join_split(s);
}

} // verus!

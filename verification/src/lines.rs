//! The fixed-field line parser: finds, in the body of an observation file,
//! the lines that hold a record of a given number of whitespace-separated
//! tokens.
//!
//! A *field* is a token, which is one or more characters of the format's
//! alphabet, followed by whitespace. A *record* is `arity` fields in a row.
//! The body is read line by line, and each line alone: the line feed ends
//! the last field of a line and nothing runs past it. A line is searched from
//! its start; the first place at which a record stands gives the line's
//! record, and what stands behind the record is left out. So a line yields
//! one record or none, and header lines, blank lines and lines with too few
//! tokens are passed over.

use vstd::prelude::*;
use crate::text::{chars_of, string_of};

verus! {

/// The characters of which the tokens of a file are made.
#[derive(Clone, Copy, Debug, PartialEq, Eq, Structural)]
pub enum TokenAlphabet {
    /// Digits, the letter `M`, and `+`, `.`, `-`.
    Numeric,
    /// Digits, the capital letters, and `+`, `.`, `-`, `_`.
    Coded,
}

/// What the parser looks for.
#[derive(Clone, Copy, Debug, PartialEq, Eq, Structural)]
pub struct LineFormat {
    /// The number of fields of a record.
    pub arity: usize,
    /// The characters that tokens are made of.
    pub alphabet: TokenAlphabet,
    /// Whether a record may only start at the start of a line.
    pub anchored: bool,
}

/// Whether a character is whitespace: a character with the Unicode property
/// `White_Space`.
pub open spec fn is_space(c: char) -> bool {
    ||| '\u{9}' <= c <= '\u{d}'
    ||| c == ' '
    ||| c == '\u{85}'
    ||| c == '\u{a0}'
    ||| c == '\u{1680}'
    ||| '\u{2000}' <= c <= '\u{200a}'
    ||| c == '\u{2028}'
    ||| c == '\u{2029}'
    ||| c == '\u{202f}'
    ||| c == '\u{205f}'
    ||| c == '\u{3000}'
}

/// Whether a character may stand in a token.
pub open spec fn is_token_char(alphabet: TokenAlphabet, c: char) -> bool {
    match alphabet {
        TokenAlphabet::Numeric => ('0' <= c <= '9') || c == 'M' || c == '+' || c == '.' || c
            == '-',
        TokenAlphabet::Coded => ('0' <= c <= '9') || ('A' <= c <= 'Z') || c == '+' || c == '.'
            || c == '-' || c == '_',
    }
}

/// The length of the longest run of token characters that `s` starts with.
pub open spec fn token_len(alphabet: TokenAlphabet, s: Seq<char>) -> nat
    decreases s.len(),
{
    if s.len() > 0 && is_token_char(alphabet, s[0]) {
        1 + token_len(alphabet, s.skip(1))
    } else {
        0
    }
}

/// The length of the longest run of whitespace that `s` starts with.
pub open spec fn space_len(s: Seq<char>) -> nat
    decreases s.len(),
{
    if s.len() > 0 && is_space(s[0]) {
        1 + space_len(s.skip(1))
    } else {
        0
    }
}

/// The `count` fields that `s` starts with: their tokens, and the number of
/// characters that the fields take up. `None` if `s` does not start with so
/// many fields.
pub open spec fn fields(alphabet: TokenAlphabet, s: Seq<char>, count: nat) -> Option<
    (Seq<Seq<char>>, nat),
>
    decreases count,
{
    if count == 0 {
        Some((Seq::empty(), 0nat))
    } else {
        let t = token_len(alphabet, s);
        let g = space_len(s.skip(t as int));
        if t == 0 || g == 0 {
            None
        } else {
            match fields(alphabet, s.skip((t + g) as int), (count - 1) as nat) {
                Some((rest, n)) => Some((seq![s.take(t as int)] + rest, t + g + n)),
                None => None,
            }
        }
    }
}

/// The number of characters of `s` before its first line feed: all of them
/// where it has none.
pub open spec fn line_len(s: Seq<char>) -> nat
    decreases s.len(),
{
    if s.len() == 0 || s[0] == '\n' {
        0
    } else {
        1 + line_len(s.skip(1))
    }
}

/// What stands behind the first line of `s` and its line feed.
pub open spec fn after_line(s: Seq<char>) -> Seq<char> {
    if line_len(s) < s.len() {
        s.skip(line_len(s) as int + 1)
    } else {
        Seq::empty()
    }
}

/// The tokens of the first record that stands in `s`, which is a line, or
/// what is left of one, with the line feed that ends it. A format that is
/// anchored looks for the record at the start alone.
pub open spec fn seek(format: LineFormat, s: Seq<char>) -> Option<Seq<Seq<char>>>
    decreases s.len(),
{
    if s.len() == 0 {
        None
    } else if fields(format.alphabet, s, format.arity as nat) is Some {
        let (tokens, n) = fields(format.alphabet, s, format.arity as nat)->0;
        Some(tokens)
    } else if format.anchored {
        None
    } else {
        seek(format, s.skip(1))
    }
}

/// The record of a line, which is given without its line feed: the tokens of
/// the first record that stands in it, where one does. A format of no fields
/// finds nothing.
pub open spec fn record_in(format: LineFormat, line: Seq<char>) -> Option<Seq<Seq<char>>> {
    if format.arity == 0 {
        None
    } else {
        seek(format, line.push('\n'))
    }
}

/// The records found in a body: the record of each line that holds one, in
/// the order of the lines. The last line need not end with a line feed.
pub open spec fn records_of(format: LineFormat, body: Seq<char>) -> Seq<Seq<Seq<char>>>
    decreases body.len(),
{
    if body.len() == 0 {
        Seq::empty()
    } else {
        proof {
            lemma_line_len_bound(body);
        }
        let rest = records_of(format, after_line(body));
        match record_in(format, body.take(line_len(body) as int)) {
            Some(tokens) => seq![tokens] + rest,
            None => rest,
        }
    }
}

/// A line is no longer than the text it starts.
pub proof fn lemma_line_len_bound(s: Seq<char>)
    ensures
        line_len(s) <= s.len(),
    decreases s.len(),
{
    if s.len() > 0 && s[0] != '\n' {
        lemma_line_len_bound(s.skip(1));
    }
}

/// Where no line feed stands before place `n` of a text, and the text ends
/// there or has a line feed there, the first line of the text has `n`
/// characters.
pub proof fn lemma_line_len(s: Seq<char>, n: int)
    requires
        0 <= n <= s.len(),
        forall|i: int| 0 <= i < n ==> s[i] != '\n',
        n == s.len() || s[n] == '\n',
    ensures
        line_len(s) == n,
    decreases n,
{
    if n > 0 {
        assert forall|i: int| 0 <= i < n - 1 implies s.skip(1)[i] != '\n' by {
            assert(s.skip(1)[i] == s[i + 1]);
        }
        lemma_line_len(s.skip(1), n - 1);
    }
}

/// A run of token characters is no longer than the text it starts.
pub proof fn lemma_token_len_bound(alphabet: TokenAlphabet, s: Seq<char>)
    ensures
        token_len(alphabet, s) <= s.len(),
    decreases s.len(),
{
    if s.len() > 0 && is_token_char(alphabet, s[0]) {
        lemma_token_len_bound(alphabet, s.skip(1));
    }
}

/// A run of whitespace is no longer than the text it starts.
pub proof fn lemma_space_len_bound(s: Seq<char>)
    ensures
        space_len(s) <= s.len(),
    decreases s.len(),
{
    if s.len() > 0 && is_space(s[0]) {
        lemma_space_len_bound(s.skip(1));
    }
}

/// Fields lie inside the text, there are as many tokens as were asked for,
/// and one or more fields take up at least two characters.
pub proof fn lemma_fields_extent(alphabet: TokenAlphabet, s: Seq<char>, count: nat)
    ensures
        fields(alphabet, s, count) matches Some((tokens, n)) ==> tokens.len() == count && n
            <= s.len() && (count > 0 ==> n >= 2),
    decreases count,
{
    if count > 0 {
        let t = token_len(alphabet, s);
        lemma_token_len_bound(alphabet, s);
        let g = space_len(s.skip(t as int));
        lemma_space_len_bound(s.skip(t as int));
        if t != 0 && g != 0 {
            lemma_fields_extent(alphabet, s.skip((t + g) as int), (count - 1) as nat);
        }
    }
}

/// Whether a character is whitespace.
pub fn space_char(c: char) -> (r: bool)
    ensures
        r == is_space(c),
{
    (c >= '\u{9}' && c <= '\u{d}') || c == ' ' || c == '\u{85}' || c == '\u{a0}' || c
        == '\u{1680}' || (c >= '\u{2000}' && c <= '\u{200a}') || c == '\u{2028}' || c
        == '\u{2029}' || c == '\u{202f}' || c == '\u{205f}' || c == '\u{3000}'
}

/// Whether a character may stand in a token.
pub fn token_char(alphabet: TokenAlphabet, c: char) -> (r: bool)
    ensures
        r == is_token_char(alphabet, c),
{
    let common = (c >= '0' && c <= '9') || c == '+' || c == '.' || c == '-';
    match alphabet {
        TokenAlphabet::Numeric => common || c == 'M',
        TokenAlphabet::Coded => common || (c >= 'A' && c <= 'Z') || c == '_',
    }
}

/// The end of the run of token characters that starts at `pos`.
fn token_end(alphabet: TokenAlphabet, text: &Vec<char>, pos: usize) -> (end: usize)
    requires
        pos <= text.len(),
    ensures
        pos <= end <= text.len(),
        end - pos == token_len(alphabet, text@.skip(pos as int)),
{
    let mut end: usize = pos;
    while end < text.len() && token_char(alphabet, text[end])
        invariant
            pos <= end <= text.len(),
            token_len(alphabet, text@.skip(pos as int)) == (end - pos) + token_len(
                alphabet,
                text@.skip(end as int),
            ),
        decreases text.len() - end,
    {
        proof {
            assert(text@.skip(end as int).skip(1) =~= text@.skip(end as int + 1));
        }
        end += 1;
    }
    end
}

/// The end of the run of whitespace that starts at `pos`.
fn space_end(text: &Vec<char>, pos: usize) -> (end: usize)
    requires
        pos <= text.len(),
    ensures
        pos <= end <= text.len(),
        end - pos == space_len(text@.skip(pos as int)),
{
    let mut end: usize = pos;
    while end < text.len() && space_char(text[end])
        invariant
            pos <= end <= text.len(),
            space_len(text@.skip(pos as int)) == (end - pos) + space_len(
                text@.skip(end as int),
            ),
        decreases text.len() - end,
    {
        proof {
            assert(text@.skip(end as int).skip(1) =~= text@.skip(end as int + 1));
        }
        end += 1;
    }
    end
}

/// The `count` fields that start at `pos`, if so many start there: their
/// tokens and the position behind them.
fn fields_at(alphabet: TokenAlphabet, text: &Vec<char>, pos: usize, count: usize) -> (r: Option<
    (Vec<String>, usize),
>)
    requires
        pos <= text.len(),
    ensures
        match r {
            Some((tokens, end)) => pos <= end <= text.len() && fields(
                alphabet,
                text@.skip(pos as int),
                count as nat,
            ) == Some((tokens.deep_view(), (end - pos) as nat)),
            None => fields(alphabet, text@.skip(pos as int), count as nat) is None,
        },
{
    let mut tokens: Vec<String> = Vec::new();
    let mut cur: usize = pos;
    let mut done: usize = 0;
    proof {
        assert(tokens.deep_view() =~= Seq::<Seq<char>>::empty());
        assert(Seq::<Seq<char>>::empty() + Seq::<Seq<char>>::empty() =~= Seq::<
            Seq<char>,
        >::empty());
    }
    while done < count
        invariant
            done <= count,
            pos <= cur <= text.len(),
            tokens.len() == done,
            fields(alphabet, text@.skip(pos as int), count as nat) == (match fields(
                alphabet,
                text@.skip(cur as int),
                (count - done) as nat,
            ) {
                Some((rest, n)) => Some((tokens.deep_view() + rest, (cur - pos + n) as nat)),
                None => None,
            }),
        decreases count - done,
    {
        let t_end = token_end(alphabet, text, cur);
        let s_end = space_end(text, t_end);
        proof {
            assert(text@.skip(cur as int).skip((t_end - cur) as int) =~= text@.skip(
                t_end as int,
            ));
        }
        if t_end == cur || s_end == t_end {
            return None;
        }
        let token = string_of(text, cur, t_end);
        proof {
            let s = text@.skip(cur as int);
            assert(s.skip((s_end - cur) as int) =~= text@.skip(s_end as int));
            assert(s.take((t_end - cur) as int) =~= text@.subrange(cur as int, t_end as int));
            let old_tokens = tokens.deep_view();
            let next = fields(
                alphabet,
                text@.skip(s_end as int),
                (count - done - 1) as nat,
            );
            if next is Some {
                let (rest, n) = next->0;
                assert(old_tokens.push(token@) + rest =~= old_tokens + (seq![token@] + rest));
            }
        }
        let ghost before = tokens.deep_view();
        tokens.push(token);
        proof {
            assert(tokens.deep_view() =~= before.push(token@));
        }
        cur = s_end;
        done += 1;
    }
    proof {
        assert(tokens.deep_view() + Seq::<Seq<char>>::empty() =~= tokens.deep_view());
    }
    Some((tokens, cur))
}

/// The end of the line that starts at `pos`: the place of its line feed, or
/// the end of the text.
fn line_end(text: &Vec<char>, pos: usize) -> (end: usize)
    requires
        pos <= text.len(),
    ensures
        pos <= end <= text.len(),
        end - pos == line_len(text@.skip(pos as int)),
{
    let mut end: usize = pos;
    while end < text.len() && text[end] != '\n'
        invariant
            pos <= end <= text.len(),
            line_len(text@.skip(pos as int)) == (end - pos) + line_len(text@.skip(end as int)),
        decreases text.len() - end,
    {
        proof {
            assert(text@.skip(end as int).skip(1) =~= text@.skip(end as int + 1));
        }
        end += 1;
    }
    end
}

/// The characters `text[from..to]` with a line feed behind them.
fn ended_line(text: &Vec<char>, from: usize, to: usize) -> (line: Vec<char>)
    requires
        from <= to <= text.len(),
    ensures
        line@ == text@.subrange(from as int, to as int).push('\n'),
{
    let mut line: Vec<char> = Vec::new();
    let mut i: usize = from;
    while i < to
        invariant
            from <= i <= to <= text.len(),
            line@ == text@.subrange(from as int, i as int),
        decreases to - i,
    {
        line.push(text[i]);
        proof {
            assert(text@.subrange(from as int, i as int).push(text@[i as int])
                =~= text@.subrange(from as int, i as int + 1));
        }
        i += 1;
    }
    line.push('\n');
    line
}

/// The tokens of the first record that stands in a line, which is given
/// with the line feed that ends it.
fn find_record(format: &LineFormat, line: &Vec<char>) -> (r: Option<Vec<String>>)
    ensures
        match r {
            Some(tokens) => seek(*format, line@) == Some(tokens.deep_view()) && tokens.len()
                == format.arity,
            None => seek(*format, line@) is None,
        },
{
    let mut from: usize = 0;
    proof {
        assert(line@.skip(0) =~= line@);
    }
    while from < line.len()
        invariant
            from <= line.len(),
            seek(*format, line@) == seek(*format, line@.skip(from as int)),
        decreases line.len() - from,
    {
        match fields_at(format.alphabet, line, from, format.arity) {
            Some((tokens, _end)) => {
                proof {
                    lemma_fields_extent(
                        format.alphabet,
                        line@.skip(from as int),
                        format.arity as nat,
                    );
                }
                return Some(tokens);
            },
            None => {
                if format.anchored {
                    return None;
                }
            },
        }
        proof {
            assert(line@.skip(from as int).skip(1) =~= line@.skip(from as int + 1));
        }
        from += 1;
    }
    None
}

/// The records found in a body: for each line that holds one, its tokens
/// in order.
pub fn parse_lines(body: &str, format: &LineFormat) -> (r: Vec<Vec<String>>)
    ensures
        r.deep_view() == records_of(*format, body@),
        forall|i: int| 0 <= i < r.len() ==> (#[trigger] r[i]).len() == format.arity,
{
    let text = chars_of(body);
    let mut out: Vec<Vec<String>> = Vec::new();
    let mut pos: usize = 0;
    proof {
        assert(out.deep_view() =~= Seq::<Seq<Seq<char>>>::empty());
        assert(text@.skip(0) =~= text@);
        assert(out.deep_view() + records_of(*format, body@) =~= records_of(*format, body@));
    }
    while pos < text.len()
        invariant
            pos <= text.len(),
            text@ == body@,
            records_of(*format, body@) == out.deep_view() + records_of(
                *format,
                text@.skip(pos as int),
            ),
            forall|i: int| 0 <= i < out.len() ==> (#[trigger] out[i]).len() == format.arity,
        decreases text.len() - pos,
    {
        let end = line_end(&text, pos);
        let ghost s = text@.skip(pos as int);
        let ghost before = out.deep_view();
        let ghost rest = records_of(*format, after_line(s));
        proof {
            assert(s.take((end - pos) as int) =~= text@.subrange(pos as int, end as int));
            if end < text.len() {
                assert(s.skip((end - pos) as int + 1) =~= text@.skip(end as int + 1));
            } else {
                assert(text@.skip(end as int) =~= Seq::<char>::empty());
            }
        }
        if format.arity > 0 {
            let line = ended_line(&text, pos, end);
            match find_record(format, &line) {
                Some(tokens) => {
                    let ghost pushed = tokens.deep_view();
                    out.push(tokens);
                    proof {
                        assert(out.deep_view() =~= before.push(pushed));
                        assert(before.push(pushed) + rest =~= before + (seq![pushed] + rest));
                    }
                },
                None => {},
            }
        }
        pos = if end < text.len() {
            end + 1
        } else {
            end
        };
    }
    proof {
        assert(text@.skip(pos as int).len() == 0);
        assert(out.deep_view() + Seq::<Seq<Seq<char>>>::empty() =~= out.deep_view());
    }
    out
}

/// Whether a text is a token: one or more characters of the alphabet.
pub open spec fn is_token(alphabet: TokenAlphabet, t: Seq<char>) -> bool {
    t.len() > 0 && forall|i: int| 0 <= i < t.len() ==> is_token_char(alphabet, #[trigger] t[i])
}

/// Whether a text is made of whitespace alone. It may be empty.
pub open spec fn is_blank(g: Seq<char>) -> bool {
    forall|i: int| 0 <= i < g.len() ==> is_space(#[trigger] g[i])
}

/// Whether a text is a gap: one or more whitespace characters.
pub open spec fn is_gap(g: Seq<char>) -> bool {
    g.len() > 0 && is_blank(g)
}

/// Whether `tokens` are tokens and `gaps` as many gaps.
pub open spec fn spaced(alphabet: TokenAlphabet, tokens: Seq<Seq<char>>, gaps: Seq<Seq<char>>)
    -> bool {
    &&& tokens.len() == gaps.len()
    &&& forall|i: int| 0 <= i < tokens.len() ==> is_token(alphabet, #[trigger] tokens[i])
    &&& forall|i: int| 0 <= i < gaps.len() ==> is_gap(#[trigger] gaps[i])
}

/// The text in which each of `tokens` is followed by the gap of its place.
/// Where the last gap ends with the one line feed of the text, the text is
/// a line with the line feed that ends it.
pub open spec fn line_of(tokens: Seq<Seq<char>>, gaps: Seq<Seq<char>>) -> Seq<char>
    decreases tokens.len(),
{
    if tokens.len() == 0 || gaps.len() == 0 {
        Seq::empty()
    } else {
        tokens[0] + gaps[0] + line_of(tokens.drop_first(), gaps.drop_first())
    }
}

proof fn lemma_token_run(alphabet: TokenAlphabet, x: Seq<char>, y: Seq<char>)
    requires
        forall|i: int| 0 <= i < x.len() ==> is_token_char(alphabet, #[trigger] x[i]),
        y.len() == 0 || !is_token_char(alphabet, y[0]),
    ensures
        token_len(alphabet, x + y) == x.len(),
    decreases x.len(),
{
    if x.len() > 0 {
        assert((x + y).skip(1) =~= x.skip(1) + y);
        assert((x + y)[0] == x[0]);
        assert forall|i: int| 0 <= i < x.skip(1).len() implies is_token_char(
            alphabet,
            #[trigger] x.skip(1)[i],
        ) by {
            assert(x.skip(1)[i] == x[i + 1]);
        }
        lemma_token_run(alphabet, x.skip(1), y);
    } else {
        assert(x + y =~= y);
    }
}

proof fn lemma_space_run(x: Seq<char>, y: Seq<char>)
    requires
        is_blank(x),
        y.len() == 0 || !is_space(y[0]),
    ensures
        space_len(x + y) == x.len(),
    decreases x.len(),
{
    if x.len() > 0 {
        assert((x + y).skip(1) =~= x.skip(1) + y);
        assert((x + y)[0] == x[0]);
        assert forall|i: int| 0 <= i < x.skip(1).len() implies is_space(
            #[trigger] x.skip(1)[i],
        ) by {
            assert(x.skip(1)[i] == x[i + 1]);
        }
        lemma_space_run(x.skip(1), y);
    } else {
        assert(x + y =~= y);
    }
}

proof fn lemma_line_head(alphabet: TokenAlphabet, tokens: Seq<Seq<char>>, gaps: Seq<Seq<char>>)
    requires
        spaced(alphabet, tokens, gaps),
    ensures
        tokens.len() == 0 ==> line_of(tokens, gaps).len() == 0,
        tokens.len() > 0 ==> line_of(tokens, gaps).len() > 0 && is_token_char(
            alphabet,
            line_of(tokens, gaps)[0],
        ) && !is_space(line_of(tokens, gaps)[0]),
{
    if tokens.len() > 0 {
        assert(is_token(alphabet, tokens[0]));
        assert(line_of(tokens, gaps)[0] == tokens[0][0]);
    }
}

proof fn lemma_spaced_tail(
    alphabet: TokenAlphabet,
    tokens: Seq<Seq<char>>,
    gaps: Seq<Seq<char>>,
    from: int,
)
    requires
        spaced(alphabet, tokens, gaps),
        0 <= from <= tokens.len(),
    ensures
        spaced(alphabet, tokens.skip(from), gaps.skip(from)),
{
    assert forall|i: int| 0 <= i < tokens.skip(from).len() implies is_token(
        alphabet,
        #[trigger] tokens.skip(from)[i],
    ) by {
        assert(tokens.skip(from)[i] == tokens[i + from]);
    }
    assert forall|i: int| 0 <= i < gaps.skip(from).len() implies is_gap(
        #[trigger] gaps.skip(from)[i],
    ) by {
        assert(gaps.skip(from)[i] == gaps[i + from]);
    }
}

/// A line of tokens and gaps starts with as many fields as it has tokens,
/// and with no more; behind the first `count` of them stands the line of
/// the others.
pub proof fn lemma_fields_of_line(
    alphabet: TokenAlphabet,
    tokens: Seq<Seq<char>>,
    gaps: Seq<Seq<char>>,
    count: nat,
)
    requires
        spaced(alphabet, tokens, gaps),
    ensures
        fields(alphabet, line_of(tokens, gaps), count) is Some <==> count <= tokens.len(),
        fields(alphabet, line_of(tokens, gaps), count) matches Some((found, n)) ==> found
            == tokens.take(count as int) && n <= line_of(tokens, gaps).len() && line_of(
            tokens,
            gaps,
        ).skip(n as int) == line_of(tokens.skip(count as int), gaps.skip(count as int)),
    decreases count,
{
    let line = line_of(tokens, gaps);
    if count == 0 {
        assert(tokens.take(0) =~= Seq::<Seq<char>>::empty());
        assert(line.skip(0) =~= line);
        assert(tokens.skip(0) =~= tokens);
        assert(gaps.skip(0) =~= gaps);
    } else if tokens.len() == 0 {
    } else {
        let t0 = tokens[0];
        let g0 = gaps[0];
        let rest_tokens = tokens.drop_first();
        let rest_gaps = gaps.drop_first();
        let rest = line_of(rest_tokens, rest_gaps);
        lemma_spaced_tail(alphabet, tokens, gaps, 1);
        lemma_line_head(alphabet, rest_tokens, rest_gaps);
        assert(is_token(alphabet, t0));
        assert(is_gap(g0));
        assert(line =~= t0 + (g0 + rest));
        assert((g0 + rest)[0] == g0[0]);
        lemma_token_run(alphabet, t0, g0 + rest);
        assert(line.skip(t0.len() as int) =~= g0 + rest);
        lemma_space_run(g0, rest);
        assert(line.skip((t0.len() + g0.len()) as int) =~= rest);
        assert(line.take(t0.len() as int) =~= t0);
        lemma_fields_of_line(alphabet, rest_tokens, rest_gaps, (count - 1) as nat);
        let next = fields(alphabet, rest, (count - 1) as nat);
        if next is Some {
            let (found, n) = next->0;
            assert(seq![t0] + rest_tokens.take(count - 1) =~= tokens.take(count as int));
            assert(line.skip((t0.len() + g0.len() + n) as int) =~= rest.skip(n as int));
            assert(rest_tokens.skip(count - 1) =~= tokens.skip(count as int));
            assert(rest_gaps.skip(count - 1) =~= gaps.skip(count as int));
        }
    }
}

/// Whitespace followed by a text of fewer tokens than a record has fields
/// holds no record.
pub proof fn lemma_no_record(
    format: LineFormat,
    lead: Seq<char>,
    tokens: Seq<Seq<char>>,
    gaps: Seq<Seq<char>>,
)
    requires
        is_blank(lead),
        spaced(format.alphabet, tokens, gaps),
        tokens.len() < format.arity,
    ensures
        seek(format, lead + line_of(tokens, gaps)) is None,
    decreases (lead + line_of(tokens, gaps)).len(),
{
    let line = line_of(tokens, gaps);
    let text = lead + line;
    if text.len() > 0 {
        if lead.len() > 0 {
            assert(text[0] == lead[0]);
            assert(!is_token_char(format.alphabet, text[0]));
            assert(token_len(format.alphabet, text) == 0);
            assert(fields(format.alphabet, text, format.arity as nat) is None);
            assert(text.skip(1) =~= lead.skip(1) + line);
            assert forall|i: int| 0 <= i < lead.skip(1).len() implies is_space(
                #[trigger] lead.skip(1)[i],
            ) by {
                assert(lead.skip(1)[i] == lead[i + 1]);
            }
            lemma_no_record(format, lead.skip(1), tokens, gaps);
        } else {
            assert(text =~= line);
            lemma_fields_of_line(format.alphabet, tokens, gaps, format.arity as nat);
            assert(fields(format.alphabet, text, format.arity as nat) is None);
            let t0 = tokens[0];
            let g0 = gaps[0];
            let rest_tokens = tokens.drop_first();
            let rest_gaps = gaps.drop_first();
            let rest = line_of(rest_tokens, rest_gaps);
            lemma_spaced_tail(format.alphabet, tokens, gaps, 1);
            assert(is_token(format.alphabet, t0));
            assert(is_gap(g0));
            if t0.len() > 1 {
                let cut = tokens.update(0, t0.skip(1));
                assert(cut.drop_first() =~= rest_tokens);
                assert(line_of(cut, gaps) =~= t0.skip(1) + g0 + rest);
                assert(text.skip(1) =~= t0.skip(1) + g0 + rest);
                assert forall|i: int| 0 <= i < cut.len() implies is_token(
                    format.alphabet,
                    #[trigger] cut[i],
                ) by {
                    if i == 0 {
                        assert forall|j: int| 0 <= j < t0.skip(1).len() implies is_token_char(
                            format.alphabet,
                            #[trigger] t0.skip(1)[j],
                        ) by {
                            assert(t0.skip(1)[j] == t0[j + 1]);
                        }
                    } else {
                        assert(cut[i] == tokens[i]);
                    }
                }
                let empty = Seq::<char>::empty();
                assert(empty + line_of(cut, gaps) =~= text.skip(1));
                lemma_no_record(format, empty, cut, gaps);
            } else {
                assert(text.skip(1) =~= g0 + rest);
                lemma_no_record(format, g0, rest_tokens, rest_gaps);
            }
        }
    }
}

/// A line of whitespace-separated tokens yields one record where it has at
/// least as many tokens as a record has fields, and that record holds the
/// first of them, as many as a record has fields; what stands behind them
/// is left out. A line with fewer tokens yields nothing.
pub proof fn lemma_record_of_line(
    format: LineFormat,
    line: Seq<char>,
    tokens: Seq<Seq<char>>,
    gaps: Seq<Seq<char>>,
)
    requires
        spaced(format.alphabet, tokens, gaps),
        line.push('\n') == line_of(tokens, gaps),
    ensures
        record_in(format, line) == (if 1 <= format.arity <= tokens.len() {
            Some(tokens.take(format.arity as int))
        } else {
            None
        }),
{
    let text = line_of(tokens, gaps);
    if format.arity == 0 {
    } else if tokens.len() < format.arity {
        let empty = Seq::<char>::empty();
        assert(empty + text =~= text);
        lemma_no_record(format, empty, tokens, gaps);
    } else {
        lemma_fields_of_line(format.alphabet, tokens, gaps, format.arity as nat);
    }
}

/// Whether no character of a text is a line feed.
pub open spec fn is_line(line: Seq<char>) -> bool {
    forall|i: int| 0 <= i < line.len() ==> #[trigger] line[i] != '\n'
}

/// A body is read line by line: what its first line yields comes first, and
/// behind it what the rest of the body yields.
pub proof fn lemma_first_line(format: LineFormat, line: Seq<char>, rest: Seq<char>)
    requires
        is_line(line),
    ensures
        records_of(format, line.push('\n') + rest) == (match record_in(format, line) {
            Some(tokens) => seq![tokens] + records_of(format, rest),
            None => records_of(format, rest),
        }),
{
    let body = line.push('\n') + rest;
    assert forall|i: int| 0 <= i < line.len() implies body[i] != '\n' by {
        assert(body[i] == line[i]);
    }
    assert(body[line.len() as int] == '\n');
    lemma_line_len(body, line.len() as int);
    assert(body.take(line.len() as int) =~= line);
    assert(body.skip(line.len() as int + 1) =~= rest);
}

/// The body made of lines, each followed by a line feed.
pub open spec fn lines_text(lines: Seq<Seq<char>>) -> Seq<char>
    decreases lines.len(),
{
    if lines.len() == 0 {
        Seq::empty()
    } else {
        lines[0].push('\n') + lines_text(lines.drop_first())
    }
}

/// What lines yield, each read alone: the record of each line that holds
/// one, in the order of the lines.
pub open spec fn lines_records(format: LineFormat, lines: Seq<Seq<char>>) -> Seq<
    Seq<Seq<char>>,
>
    decreases lines.len(),
{
    if lines.len() == 0 {
        Seq::empty()
    } else {
        let rest = lines_records(format, lines.drop_first());
        match record_in(format, lines[0]) {
            Some(tokens) => seq![tokens] + rest,
            None => rest,
        }
    }
}

/// A body of lines yields what its lines yield, each read alone: no record
/// is made of the tokens of two lines.
pub proof fn lemma_lines_read_alone(format: LineFormat, lines: Seq<Seq<char>>)
    requires
        forall|i: int| 0 <= i < lines.len() ==> is_line(#[trigger] lines[i]),
    ensures
        records_of(format, lines_text(lines)) == lines_records(format, lines),
    decreases lines.len(),
{
    if lines.len() > 0 {
        let rest = lines.drop_first();
        assert forall|i: int| 0 <= i < rest.len() implies is_line(#[trigger] rest[i]) by {
            assert(rest[i] == lines[i + 1]);
        }
        lemma_lines_read_alone(format, rest);
        lemma_first_line(format, lines[0], lines_text(rest));
    }
}

/// Whether a text is a line of whitespace-separated tokens: it has no line
/// feed, and it is made of `tokens` and the gaps behind them, of which the
/// last runs up to the line feed that ends the line.
pub open spec fn token_line(
    format: LineFormat,
    line: Seq<char>,
    tokens: Seq<Seq<char>>,
    gaps: Seq<Seq<char>>,
) -> bool {
    &&& is_line(line)
    &&& spaced(format.alphabet, tokens, gaps)
    &&& line.push('\n') == line_of(tokens, gaps)
}

/// Whether a text is a line of whitespace-separated tokens that holds a
/// record: it has at least as many tokens as a record has fields.
pub open spec fn full_line(
    format: LineFormat,
    line: Seq<char>,
    tokens: Seq<Seq<char>>,
    gaps: Seq<Seq<char>>,
) -> bool {
    token_line(format, line, tokens, gaps) && tokens.len() >= format.arity
}

/// A body of lines of which each has fewer tokens than a record has fields
/// yields nothing, however many tokens the lines have together.
pub proof fn lemma_short_lines_yield_nothing(
    format: LineFormat,
    lines: Seq<Seq<char>>,
    rows: Seq<Seq<Seq<char>>>,
    gaps: Seq<Seq<Seq<char>>>,
)
    requires
        lines.len() == rows.len(),
        lines.len() == gaps.len(),
        forall|i: int|
            0 <= i < lines.len() ==> #[trigger] token_line(format, lines[i], rows[i], gaps[i])
                && rows[i].len() < format.arity,
    ensures
        records_of(format, lines_text(lines)) == Seq::<Seq<Seq<char>>>::empty(),
{
    assert forall|i: int| 0 <= i < lines.len() implies is_line(#[trigger] lines[i]) by {
        assert(token_line(format, lines[i], rows[i], gaps[i]));
    }
    lemma_lines_read_alone(format, lines);
    lemma_short_lines_records(format, lines, rows, gaps);
}

proof fn lemma_short_lines_records(
    format: LineFormat,
    lines: Seq<Seq<char>>,
    rows: Seq<Seq<Seq<char>>>,
    gaps: Seq<Seq<Seq<char>>>,
)
    requires
        lines.len() == rows.len(),
        lines.len() == gaps.len(),
        forall|i: int|
            0 <= i < lines.len() ==> #[trigger] token_line(format, lines[i], rows[i], gaps[i])
                && rows[i].len() < format.arity,
    ensures
        lines_records(format, lines) == Seq::<Seq<Seq<char>>>::empty(),
    decreases lines.len(),
{
    if lines.len() > 0 {
        let rest_lines = lines.drop_first();
        let rest_rows = rows.drop_first();
        let rest_gaps = gaps.drop_first();
        assert forall|i: int| 0 <= i < rest_lines.len() implies #[trigger] token_line(
            format,
            rest_lines[i],
            rest_rows[i],
            rest_gaps[i],
        ) && rest_rows[i].len() < format.arity by {
            assert(token_line(format, lines[i + 1], rows[i + 1], gaps[i + 1]));
        }
        lemma_short_lines_records(format, rest_lines, rest_rows, rest_gaps);
        assert(token_line(format, lines[0], rows[0], gaps[0]));
        lemma_record_of_line(format, lines[0], rows[0], gaps[0]);
    }
}

/// A body of lines, each with at least as many tokens as a record has
/// fields, yields one record for each line, in the order of the lines: the
/// first tokens of the line, as many as a record has fields.
pub proof fn lemma_full_lines_yield_one_each(
    format: LineFormat,
    lines: Seq<Seq<char>>,
    rows: Seq<Seq<Seq<char>>>,
    gaps: Seq<Seq<Seq<char>>>,
)
    requires
        format.arity >= 1,
        lines.len() == rows.len(),
        lines.len() == gaps.len(),
        forall|i: int|
            0 <= i < lines.len() ==> #[trigger] full_line(format, lines[i], rows[i], gaps[i]),
    ensures
        records_of(format, lines_text(lines)) == Seq::new(
            lines.len(),
            |i: int| rows[i].take(format.arity as int),
        ),
{
    assert forall|i: int| 0 <= i < lines.len() implies is_line(#[trigger] lines[i]) by {
        assert(full_line(format, lines[i], rows[i], gaps[i]));
    }
    lemma_lines_read_alone(format, lines);
    lemma_full_lines_records(format, lines, rows, gaps);
}

proof fn lemma_full_lines_records(
    format: LineFormat,
    lines: Seq<Seq<char>>,
    rows: Seq<Seq<Seq<char>>>,
    gaps: Seq<Seq<Seq<char>>>,
)
    requires
        format.arity >= 1,
        lines.len() == rows.len(),
        lines.len() == gaps.len(),
        forall|i: int|
            0 <= i < lines.len() ==> #[trigger] full_line(format, lines[i], rows[i], gaps[i]),
    ensures
        lines_records(format, lines) == Seq::new(
            lines.len(),
            |i: int| rows[i].take(format.arity as int),
        ),
    decreases lines.len(),
{
    let want = Seq::new(lines.len(), |i: int| rows[i].take(format.arity as int));
    if lines.len() == 0 {
        assert(lines_records(format, lines) =~= want);
    } else {
        let rest_lines = lines.drop_first();
        let rest_rows = rows.drop_first();
        let rest_gaps = gaps.drop_first();
        assert forall|i: int| 0 <= i < rest_lines.len() implies #[trigger] full_line(
            format,
            rest_lines[i],
            rest_rows[i],
            rest_gaps[i],
        ) by {
            assert(full_line(format, lines[i + 1], rows[i + 1], gaps[i + 1]));
        }
        lemma_full_lines_records(format, rest_lines, rest_rows, rest_gaps);
        assert(full_line(format, lines[0], rows[0], gaps[0]));
        lemma_record_of_line(format, lines[0], rows[0], gaps[0]);
        let rest_want = Seq::new(
            rest_lines.len(),
            |i: int| rest_rows[i].take(format.arity as int),
        );
        assert(seq![rows[0].take(format.arity as int)] + rest_want =~= want);
    }
}

/// A body of one line of whitespace-separated tokens yields exactly one
/// record where the line has at least as many tokens as a record has
/// fields: the first of them, as many as a record has fields. Where the line
/// has fewer tokens the body yields nothing.
pub proof fn lemma_line_yields_its_first_tokens(
    format: LineFormat,
    line: Seq<char>,
    tokens: Seq<Seq<char>>,
    gaps: Seq<Seq<char>>,
)
    requires
        is_line(line),
        spaced(format.alphabet, tokens, gaps),
        line.push('\n') == line_of(tokens, gaps),
    ensures
        records_of(format, line.push('\n')) == (if 1 <= format.arity <= tokens.len() {
            seq![tokens.take(format.arity as int)]
        } else {
            Seq::empty()
        }),
{
    let none = Seq::<char>::empty();
    lemma_first_line(format, line, none);
    lemma_record_of_line(format, line, tokens, gaps);
    assert(line.push('\n') + none =~= line.push('\n'));
    if 1 <= format.arity <= tokens.len() {
        let found = tokens.take(format.arity as int);
        assert(seq![found] + Seq::<Seq<Seq<char>>>::empty() =~= seq![found]);
    }
}

} // verus!

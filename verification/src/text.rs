//! Character-level helpers shared by the scanners and the address builders.
//!
//! Text is modelled as `Seq<char>`: the view of `str` and `String`. The
//! scanners work on a `Vec<char>` copy of their input, so that positions are
//! character positions whatever the encoding.

use vstd::prelude::*;
use vstd::std_specs::iter::IteratorSpec;
use vstd::utf8::is_ascii_chars;

verus! {

/// `String::push` appends one character and leaves the rest as it was.
pub assume_specification[ String::push ](s: &mut String, ch: char)
    ensures
        final(s)@ == old(s)@.push(ch),
;

/// What `str::to_uppercase` returns for a text: its Unicode upper-case form.
pub uninterp spec fn unicode_uppercase_of(s: Seq<char>) -> Seq<char>;

/// What `str::to_lowercase` returns for a text: its Unicode lower-case form.
pub uninterp spec fn unicode_lowercase_of(s: Seq<char>) -> Seq<char>;

/// What `char::is_alphabetic` answers for a character: whether it has the
/// Unicode property `Alphabetic`.
pub uninterp spec fn unicode_alphabetic(c: char) -> bool;

/// Calls `str::to_uppercase`. The mapping is the Unicode one, which the
/// standard library tabulates; the contract only names its result.
#[verifier::external_body]
fn unicode_uppercase(s: &str) -> (r: String)
    ensures
        r@ == unicode_uppercase_of(s@),
{
    s.to_uppercase()
}

/// Calls `str::to_lowercase`. The mapping is the Unicode one, which the
/// standard library tabulates; the contract only names its result.
#[verifier::external_body]
fn unicode_lowercase(s: &str) -> (r: String)
    ensures
        r@ == unicode_lowercase_of(s@),
{
    s.to_lowercase()
}

/// Calls `char::is_alphabetic`. The property is tabulated by the standard
/// library; the contract only names its answer. The library asks it of no
/// ASCII character.
#[verifier::external_body]
fn char_is_alphabetic(c: char) -> (b: bool)
    ensures
        b == unicode_alphabetic(c),
{
    c.is_alphabetic()
}

/// The upper-case form of an ASCII letter; any other character is unchanged.
pub open spec fn ascii_upper_char(c: char) -> char {
    if 'a' <= c && c <= 'z' {
        ((c as u8) - 32) as char
    } else {
        c
    }
}

/// The lower-case form of an ASCII letter; any other character is unchanged.
pub open spec fn ascii_lower_char(c: char) -> char {
    if 'A' <= c && c <= 'Z' {
        ((c as u8) + 32) as char
    } else {
        c
    }
}

/// A text with every ASCII letter in upper case.
pub open spec fn ascii_upper(s: Seq<char>) -> Seq<char> {
    Seq::new(s.len(), |i: int| ascii_upper_char(s[i]))
}

/// A text with every ASCII letter in lower case.
pub open spec fn ascii_lower(s: Seq<char>) -> Seq<char> {
    Seq::new(s.len(), |i: int| ascii_lower_char(s[i]))
}

/// The upper-case form of a text. For ASCII text, which is what station
/// codes are made of, it is the letter-by-letter mapping; for any other text
/// it is the Unicode mapping of the standard library.
pub open spec fn upper(s: Seq<char>) -> Seq<char> {
    if is_ascii_chars(s) {
        ascii_upper(s)
    } else {
        unicode_uppercase_of(s)
    }
}

/// The lower-case form of a text, split as [`upper`] is.
pub open spec fn lower(s: Seq<char>) -> Seq<char> {
    if is_ascii_chars(s) {
        ascii_lower(s)
    } else {
        unicode_lowercase_of(s)
    }
}

/// Whether a character is a letter. Of the ASCII characters the letters are
/// `a` to `z` and `A` to `Z`; of any other character the standard library's
/// property `Alphabetic` decides.
pub open spec fn is_letter(c: char) -> bool {
    if c <= '\u{7f}' {
        ('a' <= c <= 'z') || ('A' <= c <= 'Z')
    } else {
        unicode_alphabetic(c)
    }
}

/// Whether some character of the text is a letter.
pub open spec fn has_alphabetic(s: Seq<char>) -> bool {
    exists|i: int| 0 <= i < s.len() && is_letter(#[trigger] s[i])
}

/// The characters of a text, in order.
pub fn chars_of(s: &str) -> (v: Vec<char>)
    ensures
        v@ == s@,
{
    let mut v: Vec<char> = Vec::new();
    for c in it: s.chars()
        invariant
            it.seq() == s@,
            v@ == it.seq().take(it.index() as int),
    {
        v.push(c);
    }
    v
}

/// The text made of the characters `chars[from..to]`.
pub fn string_of(chars: &Vec<char>, from: usize, to: usize) -> (s: String)
    requires
        from <= to <= chars.len(),
    ensures
        s@ == chars@.subrange(from as int, to as int),
{
    let mut s = String::new();
    let mut i: usize = from;
    while i < to
        invariant
            from <= i <= to <= chars.len(),
            s@ == chars@.subrange(from as int, i as int),
        decreases to - i,
    {
        s.push(chars[i]);
        proof {
            assert(chars@.subrange(from as int, i as int).push(chars@[i as int])
                =~= chars@.subrange(from as int, i as int + 1));
        }
        i += 1;
    }
    s
}

/// Whether two texts hold the same characters.
pub fn same_text(a: &str, b: &str) -> (r: bool)
    ensures
        r == (a@ == b@),
{
    let x = chars_of(a);
    let y = chars_of(b);
    if x.len() != y.len() {
        return false;
    }
    let mut i: usize = 0;
    while i < x.len()
        invariant
            i <= x.len(),
            x.len() == y.len(),
            x@ == a@,
            y@ == b@,
            forall|j: int| 0 <= j < i ==> x@[j] == y@[j],
        decreases x.len() - i,
    {
        if x[i] != y[i] {
            return false;
        }
        i += 1;
    }
    proof {
        assert(a@ =~= b@);
    }
    true
}

/// The upper-case form of an ASCII letter; any other character unchanged.
pub fn upper_char(c: char) -> (r: char)
    ensures
        r == ascii_upper_char(c),
{
    if c >= 'a' && c <= 'z' {
        ((c as u8) - 32) as char
    } else {
        c
    }
}

/// The lower-case form of an ASCII letter; any other character unchanged.
pub fn lower_char(c: char) -> (r: char)
    ensures
        r == ascii_lower_char(c),
{
    if c >= 'A' && c <= 'Z' {
        ((c as u8) + 32) as char
    } else {
        c
    }
}

/// The upper-case form of a text: see [`upper`].
pub fn to_upper(s: &str) -> (r: String)
    ensures
        r@ == upper(s@),
{
    if s.is_ascii() {
        let chars = chars_of(s);
        let mut r = String::new();
        let mut i: usize = 0;
        while i < chars.len()
            invariant
                i <= chars.len(),
                chars@ == s@,
                r@ == ascii_upper(s@).take(i as int),
            decreases chars.len() - i,
        {
            r.push(upper_char(chars[i]));
            proof {
                assert(ascii_upper(s@).take(i as int).push(ascii_upper_char(s@[i as int]))
                    =~= ascii_upper(s@).take(i as int + 1));
            }
            i += 1;
        }
        proof {
            assert(ascii_upper(s@).take(i as int) =~= ascii_upper(s@));
        }
        r
    } else {
        unicode_uppercase(s)
    }
}

/// The lower-case form of a text: see [`lower`].
pub fn to_lower(s: &str) -> (r: String)
    ensures
        r@ == lower(s@),
{
    if s.is_ascii() {
        let chars = chars_of(s);
        let mut r = String::new();
        let mut i: usize = 0;
        while i < chars.len()
            invariant
                i <= chars.len(),
                chars@ == s@,
                r@ == ascii_lower(s@).take(i as int),
            decreases chars.len() - i,
        {
            r.push(lower_char(chars[i]));
            proof {
                assert(ascii_lower(s@).take(i as int).push(ascii_lower_char(s@[i as int]))
                    =~= ascii_lower(s@).take(i as int + 1));
            }
            i += 1;
        }
        proof {
            assert(ascii_lower(s@).take(i as int) =~= ascii_lower(s@));
        }
        r
    } else {
        unicode_lowercase(s)
    }
}

/// Whether a character is a letter: see [`is_letter`].
pub fn letter(c: char) -> (r: bool)
    ensures
        r == is_letter(c),
{
    if c <= '\u{7f}' {
        (c >= 'a' && c <= 'z') || (c >= 'A' && c <= 'Z')
    } else {
        char_is_alphabetic(c)
    }
}

/// Whether some character of the text is a letter.
pub fn contains_alphabetic(s: &str) -> (r: bool)
    ensures
        r == has_alphabetic(s@),
{
    let chars = chars_of(s);
    let mut i: usize = 0;
    while i < chars.len()
        invariant
            i <= chars.len(),
            chars@ == s@,
            forall|j: int| 0 <= j < i ==> !is_letter(#[trigger] s@[j]),
        decreases chars.len() - i,
    {
        if letter(chars[i]) {
            return true;
        }
        i += 1;
    }
    false
}

/// Upper-casing an ASCII text leaves it ASCII and gives the same result when
/// done again.
pub proof fn lemma_ascii_upper_idempotent(s: Seq<char>)
    requires
        is_ascii_chars(s),
    ensures
        is_ascii_chars(ascii_upper(s)),
        ascii_upper(ascii_upper(s)) == ascii_upper(s),
{
    assert(ascii_upper(ascii_upper(s)) =~= ascii_upper(s));
}

/// Lower-casing an ASCII text leaves it ASCII, and upper-casing the result
/// gives the upper-case form of the text one started with.
pub proof fn lemma_ascii_lower_then_upper(s: Seq<char>)
    requires
        is_ascii_chars(s),
    ensures
        is_ascii_chars(ascii_lower(s)),
        ascii_upper(ascii_lower(s)) == ascii_upper(s),
{
    assert(ascii_upper(ascii_lower(s)) =~= ascii_upper(s));
}

/// Upper-casing an ASCII text, then lower-casing it gives the lower-case
/// form of the text one started with.
pub proof fn lemma_ascii_upper_then_lower(s: Seq<char>)
    requires
        is_ascii_chars(s),
    ensures
        is_ascii_chars(ascii_upper(s)),
        ascii_lower(ascii_upper(s)) == ascii_lower(s),
{
    assert(ascii_lower(ascii_upper(s)) =~= ascii_lower(s));
}

/// Putting a station code of ASCII characters into small letters and then
/// into capital letters gives the code in capital letters: a code that is in
/// capital letters comes back as it was. Doing either once more changes
/// nothing.
pub proof fn lemma_case_round_trip(code: Seq<char>)
    requires
        is_ascii_chars(code),
    ensures
        upper(lower(code)) == upper(code),
        lower(upper(code)) == lower(code),
        upper(upper(code)) == upper(code),
        lower(lower(code)) == lower(code),
        upper(code) == code ==> upper(lower(code)) == code,
{
    lemma_ascii_upper_idempotent(code);
    lemma_ascii_lower_then_upper(code);
    lemma_ascii_upper_then_lower(code);
    assert(is_ascii_chars(ascii_lower(code)));
    assert(ascii_lower(ascii_lower(code)) =~= ascii_lower(code));
}

} // verus!

//! The grammar of the numbers that observation files hold.
//!
//! A measurement is kept as the text in which it was published. What this
//! module decides is whether that text is a number: a decimal literal in the
//! grammar that the standard library reads floating-point numbers by.

use vstd::prelude::*;
use crate::text::{ascii_lower, lower_char};

verus! {

/// Whether a character is a decimal digit.
pub open spec fn is_digit(c: char) -> bool {
    '0' <= c <= '9'
}

/// Whether a character is a sign.
pub open spec fn is_sign(c: char) -> bool {
    c == '+' || c == '-'
}

/// The length of the longest run of digits that `s` starts with.
pub open spec fn digit_len(s: Seq<char>) -> nat
    decreases s.len(),
{
    if s.len() > 0 && is_digit(s[0]) {
        1 + digit_len(s.skip(1))
    } else {
        0
    }
}

/// Whether a text is an exponent: `e` or `E`, a sign or none, and one or
/// more digits.
pub open spec fn is_exponent(s: Seq<char>) -> bool {
    &&& s.len() >= 2
    &&& (s[0] == 'e' || s[0] == 'E')
    &&& {
        let digits = if is_sign(s[1]) {
            s.skip(2)
        } else {
            s.skip(1)
        };
        digits.len() > 0 && digit_len(digits) == digits.len()
    }
}

/// Whether a text is an unsigned decimal: digits with a point before, among
/// or behind them or with none, at least one digit in all, and an exponent
/// or none.
pub open spec fn is_decimal(s: Seq<char>) -> bool {
    let whole = digit_len(s);
    let behind = s.skip(whole as int);
    if behind.len() > 0 && behind[0] == '.' {
        let fraction = digit_len(behind.skip(1));
        let tail = behind.skip(1 + fraction as int);
        whole + fraction >= 1 && (tail.len() == 0 || is_exponent(tail))
    } else {
        whole >= 1 && (behind.len() == 0 || is_exponent(behind))
    }
}

/// Whether a text is one of the words for a value that is no finite number:
/// `inf`, `infinity` or `nan`, in capital or small letters.
pub open spec fn is_special(s: Seq<char>) -> bool {
    let word = ascii_lower(s);
    word == "inf"@ || word == "infinity"@ || word == "nan"@
}

/// Whether a text is a number: a sign or none, and then a decimal or one of
/// the special words.
pub open spec fn is_number(s: Seq<char>) -> bool {
    let unsigned = if s.len() > 0 && is_sign(s[0]) {
        s.skip(1)
    } else {
        s
    };
    is_decimal(unsigned) || is_special(unsigned)
}

fn digit_end(text: &Vec<char>, pos: usize) -> (end: usize)
    requires
        pos <= text.len(),
    ensures
        pos <= end <= text.len(),
        end - pos == digit_len(text@.skip(pos as int)),
{
    let mut end: usize = pos;
    while end < text.len() && text[end] >= '0' && text[end] <= '9'
        invariant
            pos <= end <= text.len(),
            digit_len(text@.skip(pos as int)) == (end - pos) + digit_len(text@.skip(end as int)),
        decreases text.len() - end,
    {
        proof {
            assert(text@.skip(end as int).skip(1) =~= text@.skip(end as int + 1));
        }
        end += 1;
    }
    end
}

fn exponent_at(text: &Vec<char>, pos: usize) -> (r: bool)
    requires
        pos <= text.len(),
    ensures
        r == is_exponent(text@.skip(pos as int)),
{
    let n: usize = text.len();
    if n - pos < 2 {
        return false;
    }
    if text[pos] != 'e' && text[pos] != 'E' {
        return false;
    }
    let start: usize = if text[pos + 1] == '+' || text[pos + 1] == '-' {
        pos + 2
    } else {
        pos + 1
    };
    let end = digit_end(text, start);
    proof {
        let s = text@.skip(pos as int);
        assert(s.skip(start - pos) =~= text@.skip(start as int));
    }
    start < n && end == n
}

fn decimal_at(text: &Vec<char>, pos: usize) -> (r: bool)
    requires
        pos <= text.len(),
    ensures
        r == is_decimal(text@.skip(pos as int)),
{
    let n: usize = text.len();
    let whole_end = digit_end(text, pos);
    let ghost s = text@.skip(pos as int);
    proof {
        assert(s.skip(whole_end - pos) =~= text@.skip(whole_end as int));
    }
    if whole_end < n && text[whole_end] == '.' {
        let fraction_end = digit_end(text, whole_end + 1);
        proof {
            let behind = text@.skip(whole_end as int);
            assert(behind.skip(1) =~= text@.skip(whole_end as int + 1));
            assert(behind.skip(1 + (fraction_end - whole_end - 1)) =~= text@.skip(
                fraction_end as int,
            ));
        }
        let digits: usize = (whole_end - pos) + (fraction_end - whole_end - 1);
        digits >= 1 && (fraction_end == n || exponent_at(text, fraction_end))
    } else {
        whole_end > pos && (whole_end == n || exponent_at(text, whole_end))
    }
}

fn special_at(text: &Vec<char>, pos: usize) -> (r: bool)
    requires
        pos <= text.len(),
    ensures
        r == is_special(text@.skip(pos as int)),
{
    let n: usize = text.len() - pos;
    let ghost s = text@.skip(pos as int);
    let ghost word = ascii_lower(s);
    proof {
        reveal_strlit("inf");
        reveal_strlit("infinity");
        reveal_strlit("nan");
        assert(word.len() == n);
        assert("inf"@.len() == 3 && "nan"@.len() == 3 && "infinity"@.len() == 8);
    }
    if n == 3 {
        let a = lower_char(text[pos]);
        let b = lower_char(text[pos + 1]);
        let c = lower_char(text[pos + 2]);
        proof {
            assert(word[0] == a && word[1] == b && word[2] == c);
            assert("inf"@[0] == 'i' && "inf"@[1] == 'n' && "inf"@[2] == 'f');
            assert("nan"@[0] == 'n' && "nan"@[1] == 'a' && "nan"@[2] == 'n');
            if a == 'i' && b == 'n' && c == 'f' {
                assert(word =~= "inf"@);
            }
            if a == 'n' && b == 'a' && c == 'n' {
                assert(word =~= "nan"@);
            }
        }
        (a == 'i' && b == 'n' && c == 'f') || (a == 'n' && b == 'a' && c == 'n')
    } else if n == 8 {
        let a = lower_char(text[pos]);
        let b = lower_char(text[pos + 1]);
        let c = lower_char(text[pos + 2]);
        let d = lower_char(text[pos + 3]);
        let e = lower_char(text[pos + 4]);
        let f = lower_char(text[pos + 5]);
        let g = lower_char(text[pos + 6]);
        let h = lower_char(text[pos + 7]);
        proof {
            let w = "infinity"@;
            assert(word[0] == a && word[1] == b && word[2] == c && word[3] == d);
            assert(word[4] == e && word[5] == f && word[6] == g && word[7] == h);
            assert(w[0] == 'i' && w[1] == 'n' && w[2] == 'f' && w[3] == 'i');
            assert(w[4] == 'n' && w[5] == 'i' && w[6] == 't' && w[7] == 'y');
            if a == 'i' && b == 'n' && c == 'f' && d == 'i' && e == 'n' && f == 'i' && g == 't'
                && h == 'y' {
                assert(word =~= w);
            }
        }
        a == 'i' && b == 'n' && c == 'f' && d == 'i' && e == 'n' && f == 'i' && g == 't' && h
            == 'y'
    } else {
        false
    }
}

/// Whether a text is a number: see [`is_number`].
pub fn number_text(token: &str) -> (r: bool)
    ensures
        r == is_number(token@),
{
    let text = crate::text::chars_of(token);
    let start: usize = if text.len() > 0 && (text[0] == '+' || text[0] == '-') {
        1
    } else {
        0
    };
    proof {
        assert(text@.skip(0) =~= text@);
    }
    decimal_at(&text, start) || special_at(&text, start)
}

} // verus!

//! The tokens by which the agency marks a measurement as not available.

use vstd::prelude::*;
use crate::text::chars_of;

verus! {

/// Whether a token is one that stands for "no data": a run of one to four
/// nines, alone or followed by a point and one to three zeros, or a run of
/// one to four letters `M`.
pub open spec fn is_missing(token: Seq<char>) -> bool {
    ||| token == "9"@
    ||| token == "9.0"@
    ||| token == "9.00"@
    ||| token == "9.000"@
    ||| token == "99"@
    ||| token == "99.0"@
    ||| token == "99.00"@
    ||| token == "99.000"@
    ||| token == "999"@
    ||| token == "999.0"@
    ||| token == "999.00"@
    ||| token == "999.000"@
    ||| token == "9999"@
    ||| token == "9999.0"@
    ||| token == "9999.00"@
    ||| token == "9999.000"@
    ||| token == "M"@
    ||| token == "MM"@
    ||| token == "MMM"@
    ||| token == "MMMM"@
}

/// The shape that the tokens of [`is_missing`] share: `nines` nines and then,
/// if `zeros` is not 0, a point and `zeros` zeros.
pub open spec fn nines_and_zeros(nines: int, zeros: int) -> Seq<char> {
    if zeros == 0 {
        Seq::new(nines as nat, |i: int| '9')
    } else {
        Seq::new(nines as nat, |i: int| '9') + seq!['.'] + Seq::new(zeros as nat, |i: int| '0')
    }
}

/// The tokens of [`is_missing`] are the runs of one to four `M` and the
/// texts of one to four nines with at most three zeros behind a point.
pub proof fn lemma_missing_shapes(token: Seq<char>)
    ensures
        is_missing(token) <==> ((1 <= token.len() <= 4 && token == Seq::new(
            token.len(),
            |i: int| 'M',
        )) || exists|n: int, z: int|
            1 <= n <= 4 && 0 <= z <= 3 && token == #[trigger] nines_and_zeros(n, z)),
{
    reveal_strlit("9");
    reveal_strlit("9.0");
    reveal_strlit("9.00");
    reveal_strlit("9.000");
    reveal_strlit("99");
    reveal_strlit("99.0");
    reveal_strlit("99.00");
    reveal_strlit("99.000");
    reveal_strlit("999");
    reveal_strlit("999.0");
    reveal_strlit("999.00");
    reveal_strlit("999.000");
    reveal_strlit("9999");
    reveal_strlit("9999.0");
    reveal_strlit("9999.00");
    reveal_strlit("9999.000");
    reveal_strlit("M");
    reveal_strlit("MM");
    reveal_strlit("MMM");
    reveal_strlit("MMMM");
    assert("9"@ =~= nines_and_zeros(1, 0));
    assert("9.0"@ =~= nines_and_zeros(1, 1));
    assert("9.00"@ =~= nines_and_zeros(1, 2));
    assert("9.000"@ =~= nines_and_zeros(1, 3));
    assert("99"@ =~= nines_and_zeros(2, 0));
    assert("99.0"@ =~= nines_and_zeros(2, 1));
    assert("99.00"@ =~= nines_and_zeros(2, 2));
    assert("99.000"@ =~= nines_and_zeros(2, 3));
    assert("999"@ =~= nines_and_zeros(3, 0));
    assert("999.0"@ =~= nines_and_zeros(3, 1));
    assert("999.00"@ =~= nines_and_zeros(3, 2));
    assert("999.000"@ =~= nines_and_zeros(3, 3));
    assert("9999"@ =~= nines_and_zeros(4, 0));
    assert("9999.0"@ =~= nines_and_zeros(4, 1));
    assert("9999.00"@ =~= nines_and_zeros(4, 2));
    assert("9999.000"@ =~= nines_and_zeros(4, 3));
    assert("M"@ =~= Seq::new(1, |i: int| 'M'));
    assert("MM"@ =~= Seq::new(2, |i: int| 'M'));
    assert("MMM"@ =~= Seq::new(3, |i: int| 'M'));
    assert("MMMM"@ =~= Seq::new(4, |i: int| 'M'));
    if exists|n: int, z: int|
        1 <= n <= 4 && 0 <= z <= 3 && token == #[trigger] nines_and_zeros(n, z) {
        let (n, z) = choose|n: int, z: int|
            1 <= n <= 4 && 0 <= z <= 3 && token == #[trigger] nines_and_zeros(n, z);
        assert(is_missing(token));
    }
}

/// A text that starts with `nines` nines and has another character behind
/// them has the shape of `k` nines and `z` zeros only where `k` is `nines`
/// and the character is the point.
proof fn lemma_count_of_nines(token: Seq<char>, nines: int, k: int, z: int)
    requires
        0 < nines < token.len(),
        forall|j: int| 0 <= j < nines ==> token[j] == '9',
        token[nines] != '9',
        1 <= k <= 4,
        0 <= z <= 3,
        token == nines_and_zeros(k, z),
    ensures
        k == nines,
        z >= 1,
        token[nines] == '.',
        token.len() == k + 1 + z,
{
    let s = nines_and_zeros(k, z);
    if k < nines {
        assert(s[k] == '.' || s.len() == k);
    } else if k > nines {
        assert(s[nines] == '9');
    } else {
        assert(s[k] == '.' || s.len() == k);
    }
}

/// Whether a token marks a measurement as not available.
#[verifier::loop_isolation(false)]
pub fn check_null_string(value: &str) -> (b: bool)
    ensures
        b == is_missing(value@),
{
    let t = chars_of(value);
    let n: usize = t.len();
    proof {
        lemma_missing_shapes(value@);
    }
    if n == 0 {
        proof {
            assert forall|k: int, z: int| 1 <= k <= 4 && 0 <= z <= 3 implies value@
                != #[trigger] nines_and_zeros(k, z) by {
                assert(nines_and_zeros(k, z).len() >= 1);
            }
        }
        return false;
    }
    if t[0] == 'M' {
        let mut i: usize = 1;
        while i < n
            invariant
                1 <= i <= n,
                n == t.len(),
                forall|j: int| 0 <= j < i ==> t@[j] == 'M',
            decreases n - i,
        {
            if t[i] != 'M' {
                proof {
                    assert forall|k: int, z: int| 1 <= k <= 4 && 0 <= z <= 3 implies value@
                        != #[trigger] nines_and_zeros(k, z) by {
                        assert(nines_and_zeros(k, z)[0] == '9');
                    }
                    assert(value@ != Seq::new(value@.len(), |j: int| 'M')) by {
                        assert(Seq::new(value@.len(), |j: int| 'M')[i as int] == 'M');
                    }
                }
                return false;
            }
            i += 1;
        }
        proof {
            assert(value@ =~= Seq::new(value@.len(), |j: int| 'M'));
            assert forall|k: int, z: int| 1 <= k <= 4 && 0 <= z <= 3 implies value@
                != #[trigger] nines_and_zeros(k, z) by {
                assert(nines_and_zeros(k, z)[0] == '9');
            }
        }
        return n <= 4;
    }
    proof {
        assert(value@ != Seq::new(value@.len(), |j: int| 'M')) by {
            assert(Seq::new(value@.len(), |j: int| 'M')[0] == 'M');
        }
    }
    let mut nines: usize = 0;
    while nines < n && t[nines] == '9'
        invariant
            nines <= n,
            n == t.len(),
            forall|j: int| 0 <= j < nines ==> t@[j] == '9',
        decreases n - nines,
    {
        nines += 1;
    }
    if nines == 0 || nines > 4 {
        proof {
            assert forall|k: int, z: int| 1 <= k <= 4 && 0 <= z <= 3 implies value@
                != #[trigger] nines_and_zeros(k, z) by {
                let s = nines_and_zeros(k, z);
                assert(s[0] == '9');
                if nines > 4 && value@ == s {
                    assert(s.len() > k);
                    assert(s[k] == '.');
                }
            }
        }
        return false;
    }
    if nines == n {
        proof {
            assert(value@ =~= nines_and_zeros(nines as int, 0));
        }
        return true;
    }
    if t[nines] != '.' {
        proof {
            assert forall|k: int, z: int| 1 <= k <= 4 && 0 <= z <= 3 implies value@
                != #[trigger] nines_and_zeros(k, z) by {
                if value@ == nines_and_zeros(k, z) {
                    lemma_count_of_nines(value@, nines as int, k, z);
                }
            }
        }
        return false;
    }
    let mut end: usize = nines + 1;
    while end < n && t[end] == '0'
        invariant
            nines < end <= n,
            n == t.len(),
            forall|j: int| nines < j < end ==> t@[j] == '0',
        decreases n - end,
    {
        end += 1;
    }
    let zeros: usize = end - nines - 1;
    if end == n && 1 <= zeros && zeros <= 3 {
        proof {
            assert(value@ =~= nines_and_zeros(nines as int, zeros as int));
        }
        true
    } else {
        proof {
            assert forall|k: int, z: int| 1 <= k <= 4 && 0 <= z <= 3 implies value@
                != #[trigger] nines_and_zeros(k, z) by {
                let s = nines_and_zeros(k, z);
                if value@ == s {
                    lemma_count_of_nines(value@, nines as int, k, z);
                    if end < n {
                        assert(s[end as int] == '0');
                    } else {
                        assert(zeros == z);
                    }
                }
            }
        }
        false
    }
}

} // verus!

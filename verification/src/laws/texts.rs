//! Laws on text.
use vstd::prelude::*;

use crate::text::{
    decimal, digit, digits, is_white_space, occurs_in, trimmed, trimmed_end, trimmed_start,
};

verus! {

/// White space is the tab, the line breaks, the space, and what Unicode adds to these.
pub proof fn white_space_is_what_separates(c: char)
    ensures
        is_white_space(c) <==> {
            ||| c == '\t'
            ||| c == '\n'
            ||| c == '\u{b}'
            ||| c == '\u{c}'
            ||| c == '\r'
            ||| c == ' '
            ||| c == '\u{85}'
            ||| c == '\u{a0}'
            ||| c == '\u{1680}'
            ||| '\u{2000}' <= c <= '\u{200a}'
            ||| c == '\u{2028}'
            ||| c == '\u{2029}'
            ||| c == '\u{202f}'
            ||| c == '\u{205f}'
            ||| c == '\u{3000}'
        },
{
}

proof fn lemma_trimmed_start_is_a_suffix(s: Seq<char>) -> (from: int)
    ensures
        0 <= from <= s.len(),
        trimmed_start(s) == s.subrange(from, s.len() as int),
        forall|i: int| 0 <= i < from ==> is_white_space(#[trigger] s[i]),
        from < s.len() ==> !is_white_space(s[from]),
    decreases s.len(),
{
    if s.len() > 0 && is_white_space(s[0]) {
        let rest = s.drop_first();
        let from = lemma_trimmed_start_is_a_suffix(rest);
        assert(rest.subrange(from, rest.len() as int) =~= s.subrange(from + 1, s.len() as int));
        assert forall|i: int| 0 <= i < from + 1 implies is_white_space(#[trigger] s[i]) by {
            if i > 0 {
                assert(rest[i - 1] == s[i]);
            }
        }
        from + 1
    } else {
        assert(s.subrange(0, s.len() as int) =~= s);
        0
    }
}

proof fn lemma_trimmed_end_is_a_prefix(s: Seq<char>) -> (to: int)
    ensures
        0 <= to <= s.len(),
        trimmed_end(s) == s.subrange(0, to),
        forall|i: int| to <= i < s.len() ==> is_white_space(#[trigger] s[i]),
        to > 0 ==> !is_white_space(s[to - 1]),
    decreases s.len(),
{
    if s.len() > 0 && is_white_space(s.last()) {
        let rest = s.drop_last();
        let to = lemma_trimmed_end_is_a_prefix(rest);
        assert(rest.subrange(0, to) =~= s.subrange(0, to));
        assert forall|i: int| to <= i < s.len() implies is_white_space(#[trigger] s[i]) by {
            if i < rest.len() {
                assert(rest[i] == s[i]);
            }
        }
        to
    } else {
        assert(s.subrange(0, s.len() as int) =~= s);
        s.len() as int
    }
}

/// Trimming takes white space off both ends and nothing else: what is left is a stretch of the
/// text with white space only before it and after it, and it neither starts nor ends with any.
pub proof fn trimming_takes_white_space_off_both_ends(s: Seq<char>)
    ensures
        exists|from: int, to: int|
            {
                &&& 0 <= from <= to <= s.len()
                &&& trimmed(s) == #[trigger] s.subrange(from, to)
                &&& forall|i: int| 0 <= i < from ==> is_white_space(#[trigger] s[i])
                &&& forall|i: int| to <= i < s.len() ==> is_white_space(#[trigger] s[i])
            },
        trimmed(s).len() > 0 ==> !is_white_space(trimmed(s)[0]) && !is_white_space(
            trimmed(s).last(),
        ),
{
    let from = lemma_trimmed_start_is_a_suffix(s);
    let mid = trimmed_start(s);
    let to = lemma_trimmed_end_is_a_prefix(mid);
    assert(mid.subrange(0, to) =~= s.subrange(from, from + to));
    assert forall|i: int| from + to <= i < s.len() implies is_white_space(#[trigger] s[i]) by {
        assert(mid[i - from] == s[i]);
    }
}

/// A text occurs in another exactly where that one is made of something, the text, and something.
pub proof fn a_part_has_something_round_it(part: Seq<char>, s: Seq<char>)
    ensures
        occurs_in(part, s) <==> exists|before: Seq<char>, after: Seq<char>|
            s == #[trigger] (before + part + after),
{
    if occurs_in(part, s) {
        let at = choose|at: int|
            0 <= at && at + part.len() <= s.len() && #[trigger] s.subrange(at, at + part.len())
                == part;
        let before = s.subrange(0, at);
        let after = s.subrange(at + part.len(), s.len() as int);
        assert(s =~= before + s.subrange(at, at + part.len()) + after);
        assert(s == before + part + after);
    }
    if exists|before: Seq<char>, after: Seq<char>| s == #[trigger] (before + part + after) {
        let (before, after) = choose|before: Seq<char>, after: Seq<char>|
            s == #[trigger] (before + part + after);
        let at = before.len() as int;
        assert(s.subrange(at, at + part.len()) =~= part);
    }
}

/// The number that a row of digits reads as.
pub open spec fn number_read(s: Seq<char>) -> int
    decreases s.len(),
{
    if s.len() == 0 {
        0
    } else {
        10 * number_read(s.drop_last()) + (s.last() as int - '0' as int)
    }
}

proof fn lemma_digits_read_back(n: nat)
    ensures
        digits(n).len() > 0,
        number_read(digits(n)) == n,
        forall|i: int| 0 <= i < digits(n).len() ==> '0' <= #[trigger] digits(n)[i] <= '9',
        n > 0 ==> digits(n)[0] != '0',
    decreases n,
{
    if n < 10 {
        assert(digits(n) == seq![digit(n)]);
        assert(digits(n).drop_last() =~= Seq::<char>::empty());
        reveal_with_fuel(number_read, 2);
    } else {
        lemma_digits_read_back(n / 10);
        let front = digits(n / 10);
        assert(digits(n).drop_last() =~= front);
        assert forall|i: int| 0 <= i < digits(n).len() implies '0' <= #[trigger] digits(n)[i]
            <= '9' by {
            if i < front.len() {
                assert(digits(n)[i] == front[i]);
            }
        }
        assert(digits(n)[0] == front[0]);
    }
}

/// A number in decimal notation reads back as that number: digits only, none of them a leading
/// zero, and a minus sign in front of a negative one.
pub proof fn decimals_read_back(n: int)
    ensures
        n >= 0 ==> number_read(decimal(n)) == n,
        n < 0 ==> decimal(n)[0] == '-' && number_read(decimal(n).drop_first()) == -n,
        forall|i: int|
            0 <= i < decimal(n).len() && !(n < 0 && i == 0) ==> '0' <= #[trigger] decimal(n)[i]
                <= '9',
        n > 0 ==> decimal(n)[0] != '0',
        n < 0 ==> decimal(n)[1] != '0',
        n == 0 ==> decimal(n).len() == 1,
{
    if n < 0 {
        lemma_digits_read_back((-n) as nat);
        assert(decimal(n).drop_first() =~= digits((-n) as nat));
        assert forall|i: int| 1 <= i < decimal(n).len() implies '0' <= #[trigger] decimal(n)[i]
            <= '9' by {
            assert(decimal(n)[i] == digits((-n) as nat)[i - 1]);
        }
    } else {
        lemma_digits_read_back(n as nat);
    }
}

} // verus!

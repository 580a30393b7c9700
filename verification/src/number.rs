//! Recognising the text of a number.
//!
//! A number is written with an optional sign, then either one of the words
//! `inf`, `infinity` and `nan` in letters of either case, or decimal digits
//! with at most one point among them and at least one digit, optionally
//! followed by an exponent: `e` or `E`, an optional sign and digits.

use crate::text::{all_digits, is_digit};
use vstd::prelude::*;
use vstd::string::*;

verus! {

/// How many digits `s` begins with.
pub open spec fn digits_len(s: Seq<char>) -> int
    decreases s.len(),
{
    if s.len() == 0 || !is_digit(s[0]) {
        0
    } else {
        1 + digits_len(s.skip(1))
    }
}

/// `s` without one leading sign.
pub open spec fn unsigned(s: Seq<char>) -> Seq<char> {
    if s.len() > 0 && (s[0] == '+' || s[0] == '-') {
        s.skip(1)
    } else {
        s
    }
}

/// Whether `s` spells a word, each letter in either case. `lower` and
/// `upper` are the word in the two cases.
pub open spec fn is_word(s: Seq<char>, lower: Seq<char>, upper: Seq<char>) -> bool {
    s.len() == lower.len() && forall|i: int|
        0 <= i < s.len() ==> #[trigger] s[i] == lower[i] || s[i] == upper[i]
}

/// Whether `s` names an infinity or no number.
pub open spec fn is_special(s: Seq<char>) -> bool {
    ||| is_word(s, seq!['i', 'n', 'f'], seq!['I', 'N', 'F'])
    ||| is_word(
        s,
        seq!['i', 'n', 'f', 'i', 'n', 'i', 't', 'y'],
        seq!['I', 'N', 'F', 'I', 'N', 'I', 'T', 'Y'],
    )
    ||| is_word(s, seq!['n', 'a', 'n'], seq!['N', 'A', 'N'])
}

/// Whether `s` is an exponent: `e` or `E`, an optional sign, and digits.
pub open spec fn is_exponent(s: Seq<char>) -> bool {
    &&& s.len() >= 2
    &&& s[0] == 'e' || s[0] == 'E'
    &&& unsigned(s.skip(1)).len() >= 1
    &&& all_digits(unsigned(s.skip(1)))
}

/// Whether `s` is nothing or an exponent.
pub open spec fn is_tail(s: Seq<char>) -> bool {
    s.len() == 0 || is_exponent(s)
}

/// Whether `s` is a decimal numeral: digits, with at most one point among
/// them, then nothing or an exponent.
pub open spec fn is_decimal(s: Seq<char>) -> bool {
    let whole = digits_len(s);
    let rest = s.skip(whole);
    if rest.len() > 0 && rest[0] == '.' {
        let fraction = digits_len(rest.skip(1));
        whole + fraction >= 1 && is_tail(rest.skip(1 + fraction))
    } else {
        whole >= 1 && is_tail(rest)
    }
}

/// Whether `s` is the text of a number.
pub open spec fn is_number_text(s: Seq<char>) -> bool {
    is_special(unsigned(s)) || is_decimal(unsigned(s))
}

/// A run of digits that ends at something else, or at the end of the text,
/// is as long as the digits that the text has from where the run starts.
pub proof fn lemma_digits_len_of_run(s: Seq<char>, from: int, to: int)
    requires
        0 <= from <= to <= s.len(),
        forall|k: int| from <= k < to ==> is_digit(s[k]),
        to == s.len() || !is_digit(s[to]),
    ensures
        digits_len(s.skip(from)) == to - from,
    decreases to - from,
{
    let rest = s.skip(from);
    if from == to {
        if to < s.len() {
            assert(rest[0] == s[to]);
        }
    } else {
        assert(rest[0] == s[from]);
        assert(rest.skip(1) =~= s.skip(from + 1));
        lemma_digits_len_of_run(s, from + 1, to);
    }
}

/// Is `c` an ASCII digit?
pub fn digit(c: char) -> (r: bool)
    ensures
        r == is_digit(c),
{
    '0' <= c && c <= '9'
}

/// The end of the digits that `text` has from `from`.
fn digits_end(text: &str, from: usize, n: usize) -> (to: usize)
    requires
        from <= n,
        n == text@.len(),
    ensures
        from <= to <= n,
        to - from == digits_len(text@.skip(from as int)),
        forall|k: int| from <= k < to ==> is_digit(text@[k]),
        to == n || !is_digit(text@[to as int]),
{
    let mut to = from;
    while to < n && digit(text.get_char(to))
        invariant
            from <= to <= n,
            n == text@.len(),
            forall|k: int| from <= k < to ==> is_digit(text@[k]),
        decreases n - to,
    {
        to += 1;
    }
    proof {
        lemma_digits_len_of_run(text@, from as int, to as int);
    }
    to
}

/// The place after one sign at `from`, or `from` where there is none.
fn sign_end(text: &str, from: usize, n: usize) -> (to: usize)
    requires
        from <= n,
        n == text@.len(),
    ensures
        from <= to <= n,
        text@.skip(to as int) == unsigned(text@.skip(from as int)),
{
    if from < n {
        let c = text.get_char(from);
        assert(text@.skip(from as int)[0] == c);
        if c == '+' || c == '-' {
            assert(text@.skip(from as int).skip(1) =~= text@.skip(from + 1));
            return from + 1;
        }
    }
    from
}

/// Does `text` spell, from `from` to its end, the word in either case?
fn spells(text: &str, from: usize, n: usize, lower: &str, upper: &str) -> (r: bool)
    requires
        from <= n,
        n == text@.len(),
        lower@.len() == upper@.len(),
    ensures
        r == is_word(text@.skip(from as int), lower@, upper@),
{
    let m = lower.unicode_len();
    if n - from != m {
        return false;
    }
    let ghost s = text@.skip(from as int);
    let mut i: usize = 0;
    while i < m
        invariant
            i <= m,
            m == lower@.len(),
            m == upper@.len(),
            n == text@.len(),
            n - from == m,
            s == text@.skip(from as int),
            forall|k: int| 0 <= k < i ==> #[trigger] s[k] == lower@[k] || s[k] == upper@[k],
        decreases m - i,
    {
        let c = text.get_char(from + i);
        assert(s[i as int] == c);
        if c != lower.get_char(i) && c != upper.get_char(i) {
            return false;
        }
        i += 1;
    }
    true
}

/// Is what `text` holds from `from` nothing, or an exponent?
fn tail_at(text: &str, from: usize, n: usize) -> (r: bool)
    requires
        from <= n,
        n == text@.len(),
    ensures
        r == is_tail(text@.skip(from as int)),
{
    if from == n {
        return true;
    }
    let ghost s = text@.skip(from as int);
    let c = text.get_char(from);
    assert(s[0] == c);
    if c != 'e' && c != 'E' {
        return false;
    }
    assert(s.skip(1) =~= text@.skip(from + 1));
    let start = sign_end(text, from + 1, n);
    let end = digits_end(text, start, n);
    proof {
        let digits = text@.skip(start as int);
        assert(digits == unsigned(s.skip(1)));
        if end == n {
            assert forall|k: int| 0 <= k < digits.len() implies is_digit(#[trigger] digits[k]) by {
                assert(digits[k] == text@[start + k]);
            }
        } else {
            assert(digits[end - start] == text@[end as int]);
            assert(!is_digit(digits[end - start]));
        }
    }
    start < n && end == n
}

/// Is `text` the text of a number?
pub fn is_number(text: &str) -> (r: bool)
    ensures
        r == is_number_text(text@),
{
    let n = text.unicode_len();
    assert(text@.skip(0) =~= text@);
    let start = sign_end(text, 0, n);
    let ghost s = text@.skip(start as int);
    proof {
        reveal_strlit("inf");
        reveal_strlit("INF");
        reveal_strlit("infinity");
        reveal_strlit("INFINITY");
        reveal_strlit("nan");
        reveal_strlit("NAN");
        assert("inf"@ =~= seq!['i', 'n', 'f']);
        assert("INF"@ =~= seq!['I', 'N', 'F']);
        assert("infinity"@ =~= seq!['i', 'n', 'f', 'i', 'n', 'i', 't', 'y']);
        assert("INFINITY"@ =~= seq!['I', 'N', 'F', 'I', 'N', 'I', 'T', 'Y']);
        assert("nan"@ =~= seq!['n', 'a', 'n']);
        assert("NAN"@ =~= seq!['N', 'A', 'N']);
    }
    if spells(text, start, n, "inf", "INF") || spells(text, start, n, "infinity", "INFINITY")
        || spells(text, start, n, "nan", "NAN") {
        return true;
    }
    let whole_end = digits_end(text, start, n);
    let ghost rest = s.skip(whole_end - start);
    assert(rest =~= text@.skip(whole_end as int));
    if whole_end < n && text.get_char(whole_end) == '.' {
        assert(rest[0] == text@[whole_end as int]);
        assert(rest.skip(1) =~= text@.skip(whole_end + 1));
        let fraction_end = digits_end(text, whole_end + 1, n);
        assert(rest.skip(1 + (fraction_end - whole_end - 1)) =~= text@.skip(fraction_end as int));
        fraction_end - start >= 2 && tail_at(text, fraction_end, n)
    } else {
        if whole_end < n {
            assert(rest[0] == text@[whole_end as int]);
        }
        whole_end > start && tail_at(text, whole_end, n)
    }
}

} // verus!

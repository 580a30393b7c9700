//! Splitting a list of numbers into its tokens.

use vstd::prelude::*;
use vstd::string::*;

verus! {

/// Whether `c` parts two tokens: a comma, a space, a tab or a line break.
pub open spec fn is_separator(c: char) -> bool {
    c == ',' || c == ' ' || c == '\t' || c == '\n' || c == '\r'
}

/// The length of the token that `s` begins with: of its longest prefix
/// without a separator.
pub open spec fn token_len(s: Seq<char>) -> int
    decreases s.len(),
{
    if s.len() == 0 || is_separator(s[0]) {
        0
    } else {
        1 + token_len(s.skip(1))
    }
}

/// The tokens of `s`: its longest runs without a separator, in order. Two
/// separators in a row part nothing, so no token is empty.
pub open spec fn tokens(s: Seq<char>) -> Seq<Seq<char>>
    decreases s.len(),
    via tokens_decreases
{
    if s.len() == 0 {
        Seq::empty()
    } else if is_separator(s[0]) {
        tokens(s.skip(1))
    } else {
        seq![s.take(token_len(s))] + tokens(s.skip(token_len(s)))
    }
}

#[via_fn]
proof fn tokens_decreases(s: Seq<char>) {
    if s.len() > 0 && !is_separator(s[0]) {
        lemma_token_len_bounds(s);
    }
}

/// A token is no longer than the text, and not empty where the text begins
/// with something else than a separator.
pub proof fn lemma_token_len_bounds(s: Seq<char>)
    ensures
        0 <= token_len(s) <= s.len(),
        s.len() > 0 && !is_separator(s[0]) ==> token_len(s) >= 1,
    decreases s.len(),
{
    if s.len() > 0 && !is_separator(s[0]) {
        lemma_token_len_bounds(s.skip(1));
    }
}

/// A run without separators that ends at a separator, or at the end of the
/// text, is the token that starts where the run starts.
pub proof fn lemma_token_len_of_run(s: Seq<char>, from: int, to: int)
    requires
        0 <= from <= to <= s.len(),
        forall|k: int| from <= k < to ==> !is_separator(s[k]),
        to == s.len() || is_separator(s[to]),
    ensures
        token_len(s.skip(from)) == to - from,
    decreases to - from,
{
    let rest = s.skip(from);
    if from == to {
        if to < s.len() {
            assert(rest[0] == s[to]);
        }
    } else {
        assert(rest[0] == s[from]);
        assert(rest.skip(1) =~= s.skip(from + 1));
        lemma_token_len_of_run(s, from + 1, to);
    }
}

/// Is `c` a separator?
pub fn separates(c: char) -> (r: bool)
    ensures
        r == is_separator(c),
{
    c == ',' || c == ' ' || c == '\t' || c == '\n' || c == '\r'
}

/// Splits `text` at commas and white space into its tokens.
pub fn split_tokens(text: &str) -> (out: Vec<String>)
    ensures
        out.deep_view() == tokens(text@),
{
    let n = text.unicode_len();
    let mut out: Vec<String> = Vec::new();
    let mut i: usize = 0;
    assert(text@.skip(0) =~= text@);
    while i < n
        invariant
            i <= n,
            n == text@.len(),
            tokens(text@) == out.deep_view() + tokens(text@.skip(i as int)),
        decreases n - i,
    {
        let ghost rest = text@.skip(i as int);
        assert(rest[0] == text@[i as int]);
        if separates(text.get_char(i)) {
            assert(rest.skip(1) =~= text@.skip(i + 1));
            i += 1;
        } else {
            let mut j: usize = i + 1;
            while j < n && !separates(text.get_char(j))
                invariant
                    i < j <= n,
                    n == text@.len(),
                    forall|k: int| i <= k < j ==> !is_separator(text@[k]),
                decreases n - j,
            {
                j += 1;
            }
            proof {
                lemma_token_len_of_run(text@, i as int, j as int);
                assert(rest.take(j - i) =~= text@.subrange(i as int, j as int));
                assert(rest.skip(j - i) =~= text@.skip(j as int));
            }
            let token = text.substring_char(i, j).to_owned();
            let ghost before = out.deep_view();
            out.push(token);
            assert(out.deep_view() =~= before + seq![text@.subrange(i as int, j as int)]);
            i = j;
        }
    }
    assert(text@.skip(n as int) =~= Seq::<char>::empty());
    assert(out.deep_view() + Seq::<Seq<char>>::empty() =~= out.deep_view());
    out
}

} // verus!

//! Whitespace-delimited token counting.
//!
//! A token is a maximal run of non-whitespace characters. Every extractor
//! in this crate reduces a file to text and then counts tokens with the
//! functions of this module.

use vstd::prelude::*;
use vstd::std_specs::iter::IteratorSpec;

verus! {

broadcast use vstd::string::group_string_axioms;

/// A character counts as whitespace exactly when it has the Unicode
/// `White_Space` property; splitting text into tokens goes by this set.
pub open spec fn is_ws_char(c: char) -> bool {
    let u = c as u32;
    u == 0x20 || u == 0x09 || u == 0x0A || u == 0x0D || u == 0x0B || u == 0x0C || u == 0x85
        || u == 0xA0 || u == 0x1680 || (0x2000 <= u && u <= 0x200A) || u == 0x2028 || u == 0x2029
        || u == 0x202F || u == 0x205F || u == 0x3000
}

/// Runtime test for [`is_ws_char`].
pub fn is_whitespace(c: char) -> (r: bool)
    ensures
        r == is_ws_char(c),
{
    let u = c as u32;
    u == 0x20 || u == 0x09 || u == 0x0A || u == 0x0D || u == 0x0B || u == 0x0C || u == 0x85
        || u == 0xA0 || u == 0x1680 || (0x2000 <= u && u <= 0x200A) || u == 0x2028 || u == 0x2029
        || u == 0x202F || u == 0x205F || u == 0x3000
}

/// Tokens found in `s` when the character just before `s` was whitespace
/// (or there was none) iff `prev_ws`: a token starts at each non-whitespace
/// character that does not continue a run.
pub open spec fn token_count_from(s: Seq<char>, prev_ws: bool) -> nat
    decreases s.len(),
{
    if s.len() == 0 {
        0
    } else {
        (if prev_ws && !is_ws_char(s[0]) {
            1nat
        } else {
            0nat
        }) + token_count_from(s.drop_first(), is_ws_char(s[0]))
    }
}

/// The number of maximal non-whitespace runs in `s`.
pub open spec fn token_count(s: Seq<char>) -> nat {
    token_count_from(s, true)
}

/// There are never more tokens than characters.
pub proof fn lemma_token_count_le_len(s: Seq<char>, prev_ws: bool)
    ensures
        token_count_from(s, prev_ws) <= s.len(),
    decreases s.len(),
{
    if s.len() > 0 {
        lemma_token_count_le_len(s.drop_first(), is_ws_char(s[0]));
    }
}

proof fn lemma_token_count_split_from(a: Seq<char>, c: char, b: Seq<char>, prev_ws: bool)
    requires
        is_ws_char(c),
    ensures
        token_count_from(a.push(c) + b, prev_ws) == token_count_from(a, prev_ws)
            + token_count_from(b, true),
    decreases a.len(),
{
    let s = a.push(c) + b;
    if a.len() == 0 {
        assert(s =~= seq![c] + b);
        assert(s.drop_first() =~= b);
    } else {
        assert(s[0] == a[0]);
        assert(s.drop_first() =~= a.drop_first().push(c) + b);
        lemma_token_count_split_from(a.drop_first(), c, b, is_ws_char(a[0]));
    }
}

/// Splitting text at a whitespace character splits its token count: the
/// tokens of a text are the tokens of its lines, summed, for any choice of
/// whitespace line separator.
pub proof fn lemma_token_count_split(a: Seq<char>, c: char, b: Seq<char>)
    requires
        is_ws_char(c),
    ensures
        token_count(a.push(c) + b) == token_count(a) + token_count(b),
{
    lemma_token_count_split_from(a, c, b, true);
}

/// The characters of `s`, in order, as a vector.
pub fn chars_to_vec(s: &str) -> (v: Vec<char>)
    ensures
        v@ == s@,
{
    let mut it = s.chars();
    let mut v: Vec<char> = Vec::new();
    loop
        invariant
            it.obeys_prophetic_iter_laws(),
            it.decrease() is Some,
            v@ + it.remaining() == s@,
        ensures
            v@ == s@,
        decreases it.decrease()->0,
    {
        match it.next() {
            Some(c) => {
                v.push(c);
            },
            None => {
                proof {
                    assert(v@ + it.remaining() =~= v@);
                }
                break ;
            },
        }
    }
    v
}

/// Counts the tokens of the character sequence `cs`.
pub fn count_tokens_in_chars(cs: &Vec<char>) -> (n: usize)
    ensures
        n == token_count(cs@),
{
    let mut n: usize = 0;
    let mut prev_ws: bool = true;
    let mut i: usize = 0;
    proof {
        assert(cs@.skip(0) =~= cs@);
    }
    while i < cs.len()
        invariant
            i <= cs.len(),
            n <= i,
            token_count(cs@) == n + token_count_from(cs@.skip(i as int), prev_ws),
        decreases cs.len() - i,
    {
        let c = cs[i];
        let ws = is_whitespace(c);
        proof {
            let rest = cs@.skip(i as int);
            assert(rest.len() > 0);
            assert(rest[0] == cs@[i as int]);
            assert(rest.drop_first() =~= cs@.skip(i as int + 1));
        }
        if prev_ws && !ws {
            n = n + 1;
        }
        prev_ws = ws;
        i = i + 1;
    }
    proof {
        assert(cs@.skip(cs@.len() as int) =~= Seq::<char>::empty());
    }
    n
}

/// Counts the tokens of `s`: the number of maximal non-whitespace runs.
pub fn count_tokens(s: &str) -> (n: usize)
    ensures
        n == token_count(s@),
{
    let cs = chars_to_vec(s);
    count_tokens_in_chars(&cs)
}

/// The token counts of each text in `ts`, summed.
pub open spec fn sum_token_counts(ts: Seq<Seq<char>>) -> nat
    decreases ts.len(),
{
    if ts.len() == 0 {
        0
    } else {
        sum_token_counts(ts.drop_last()) + token_count(ts.last())
    }
}

/// The lengths of the texts in `ts`, summed.
pub open spec fn sum_lens(ts: Seq<Seq<char>>) -> nat
    decreases ts.len(),
{
    if ts.len() == 0 {
        0
    } else {
        sum_lens(ts.drop_last()) + ts.last().len()
    }
}

/// Summed token counts never exceed summed lengths.
pub proof fn lemma_sum_token_counts_le_sum_lens(ts: Seq<Seq<char>>)
    ensures
        sum_token_counts(ts) <= sum_lens(ts),
    decreases ts.len(),
{
    if ts.len() > 0 {
        lemma_sum_token_counts_le_sum_lens(ts.drop_last());
        lemma_token_count_le_len(ts.last(), true);
    }
}

pub proof fn lemma_sum_token_counts_take_succ(ts: Seq<Seq<char>>, k: int)
    requires
        0 <= k < ts.len(),
    ensures
        sum_token_counts(ts.take(k + 1)) == sum_token_counts(ts.take(k)) + token_count(ts[k]),
{
    assert(ts.take(k + 1).drop_last() =~= ts.take(k));
    assert(ts.take(k + 1).last() == ts[k]);
}

pub proof fn lemma_sum_token_counts_take_le(ts: Seq<Seq<char>>, k: int)
    requires
        0 <= k <= ts.len(),
    ensures
        sum_token_counts(ts.take(k)) <= sum_token_counts(ts),
    decreases ts.len() - k,
{
    if k == ts.len() {
        assert(ts.take(k) =~= ts);
    } else {
        lemma_sum_token_counts_take_succ(ts, k);
        lemma_sum_token_counts_take_le(ts, k + 1);
    }
}

} // verus!

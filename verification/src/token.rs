//! Whitespace tokenization of the input document.
//!
//! The grammar is whitespace- and indentation-tolerant: structure is
//! carried entirely by the tokens, which are the maximal runs of
//! non-whitespace characters of the input, in source order.

use vstd::prelude::*;

verus! {

/// The whitespace characters the grammar tolerates between tokens.
pub open spec fn is_space_char(c: char) -> bool {
    c == ' ' || c == '\t' || c == '\r' || c == '\n'
}

/// Runtime check for [`is_space_char`].
pub fn space_char(c: char) -> (r: bool)
    ensures
        r == is_space_char(c),
{
    c == ' ' || c == '\t' || c == '\r' || c == '\n'
}

/// The end of the token starting at `i`: the first position at or after
/// `i` that holds a whitespace character, or the end of the input.
pub open spec fn token_end(s: Seq<char>, i: int) -> int
    decreases s.len() - i,
{
    if i < 0 || i >= s.len() || is_space_char(s[i]) {
        i
    } else {
        token_end(s, i + 1)
    }
}

/// The tokens of `s` at or after position `i`, appended to `acc`.
/// Skips whitespace; at a non-whitespace character takes the maximal
/// non-whitespace run as one token.
pub open spec fn tokens_from(s: Seq<char>, i: int, acc: Seq<Seq<char>>) -> Seq<Seq<char>>
    decreases s.len() - i,
    when 0 <= i
    via tokens_from_dec
{
    if i >= s.len() {
        acc
    } else if is_space_char(s[i]) {
        tokens_from(s, i + 1, acc)
    } else {
        tokens_from(s, token_end(s, i), acc.push(s.subrange(i, token_end(s, i))))
    }
}

#[via_fn]
proof fn tokens_from_dec(s: Seq<char>, i: int, acc: Seq<Seq<char>>) {
    lemma_token_end_bounds(s, i + 1);
}

/// `token_end(s, i)` never moves backwards and never runs past the input.
pub proof fn lemma_token_end_bounds(s: Seq<char>, i: int)
    requires
        0 <= i,
    ensures
        i <= token_end(s, i),
        token_end(s, i) <= s.len() || i >= s.len(),
    decreases s.len() - i,
{
    if i < s.len() && !is_space_char(s[i]) {
        lemma_token_end_bounds(s, i + 1);
    }
}

/// The token sequence of an input document.
pub open spec fn tokens_of(s: Seq<char>) -> Seq<Seq<char>> {
    tokens_from(s, 0, Seq::empty())
}

/// The views of a vector of owned tokens.
pub open spec fn views_of(toks: Seq<String>) -> Seq<Seq<char>> {
    toks.map_values(|t: String| t@)
}

/// The end of the token starting at `i`, computed by scanning forward.
fn scan_token_end(input: &str, i: usize, n: usize) -> (j: usize)
    requires
        n == input@.len(),
        i <= n,
    ensures
        j as int == token_end(input@, i as int),
        i <= j <= n,
{
    let mut j: usize = i;
    while j < n
        invariant
            n == input@.len(),
            i <= j <= n,
            token_end(input@, i as int) == token_end(input@, j as int),
        decreases n - j,
    {
        let c = input.get_char(j);
        if space_char(c) {
            return j;
        }
        j = j + 1;
    }
    j
}

/// Splits the input into its whitespace-separated tokens, in source order.
pub fn tokenize(input: &str) -> (toks: Vec<String>)
    ensures
        views_of(toks@) == tokens_of(input@),
{
    let n = input.unicode_len();
    let mut toks: Vec<String> = Vec::new();
    proof {
        assert(views_of(toks@) =~~= Seq::<Seq<char>>::empty());
    }
    let mut i: usize = 0;
    while i < n
        invariant
            n == input@.len(),
            i <= n,
            tokens_of(input@) == tokens_from(input@, i as int, views_of(toks@)),
        decreases n - i,
    {
        let c = input.get_char(i);
        if space_char(c) {
            i = i + 1;
        } else {
            let j = scan_token_end(input, i, n);
            proof {
                // The token at a non-whitespace character is nonempty.
                lemma_token_end_bounds(input@, i as int + 1);
            }
            let tok = input.substring_char(i, j).to_owned();
            let ghost old_views = views_of(toks@);
            toks.push(tok);
            proof {
                assert(views_of(toks@) =~~= old_views.push(input@.subrange(i as int, j as int)));
            }
            assert(i < j);
            i = j;
        }
    }
    proof {
        assert(tokens_from(input@, i as int, views_of(toks@)) == views_of(toks@));
    }
    toks
}

} // verus!

use vstd::prelude::*;
use vstd::arithmetic::div_mod::lemma_fundamental_div_mod_converse;
use vstd::arithmetic::mul::lemma_mul_is_distributive_sub_other_way;

use crate::text::{repeat_seq, Chain, Char, DisplaySwapDebug, Nil, Render, Repeat};

verus! {

/// A character with no tail renders as that character alone, whatever the
/// character is (control characters included).
pub proof fn lemma_char_alone(c: char)
    ensures
        Char(c, Nil).text() == seq![c],
{
    assert(Char(c, Nil).text() =~= seq![c]);
}

/// Chaining is associative: however three values are grouped, the rendering
/// is the three renderings one after another.
pub proof fn lemma_chain_associative<A: Render, B: Render, C: Render>(a: A, b: B, c: C)
    ensures
        Chain(a, Chain(b, c)).text() == Chain(Chain(a, b), c).text(),
        Chain(Chain(a, b), c).text() == a.text() + b.text() + c.text(),
{
    assert(Chain(a, Chain(b, c)).text() =~= Chain(Chain(a, b), c).text());
}

/// The end of a word is neutral for chaining, on either side.
pub proof fn lemma_chain_nil<X: Render>(x: X)
    ensures
        Chain(x, Nil).text() == x.text(),
        Chain(Nil, x).text() == x.text(),
{
    assert(Chain(x, Nil).text() =~= x.text());
    assert(Chain(Nil, x).text() =~= x.text());
}

/// No repetition renders nothing; one repetition renders the inner value.
pub proof fn lemma_repeat_zero_one<X: Render>(x: X)
    ensures
        Repeat::<X, 0>(x).text() == Seq::<char>::empty(),
        Repeat::<X, 1>(x).text() == x.text(),
{
    assert(repeat_seq(x.text(), 0) == Seq::<char>::empty());
    assert(repeat_seq(x.text(), 1) =~= x.text());
}

/// `repeat_seq(s, n)` has `n` times the length of `s`, and its character at
/// position `i` is the character of `s` at `i` modulo that length.
pub proof fn lemma_repeat_seq(s: Seq<char>, n: nat)
    ensures
        repeat_seq(s, n).len() == n * s.len(),
        forall|i: int| 0 <= i < n * s.len() ==> #[trigger] repeat_seq(s, n)[i] == s[i % (s.len() as int)],
    decreases n,
{
    if n > 0 {
        let m = (n - 1) as nat;
        lemma_repeat_seq(s, m);
        lemma_mul_is_distributive_sub_other_way(s.len() as int, n as int, 1);
        assert forall|i: int| 0 <= i < n * s.len() implies #[trigger] repeat_seq(s, n)[i] == s[i % (s.len() as int)] by {
            if i >= m * s.len() {
                lemma_fundamental_div_mod_converse(i, s.len() as int, m as int, i - m * s.len());
            }
        }
    }
}

/// `Repeat` with count `N` renders the inner rendering `N` times back to back:
/// its length is `N` times the inner length, and each character repeats the
/// inner rendering's character at the same position modulo that length.
pub proof fn lemma_repeat<X: Render, const N: usize>(x: X)
    ensures
        Repeat::<X, N>(x).text().len() == N * x.text().len(),
        forall|i: int| 0 <= i < N * x.text().len() ==> #[trigger] Repeat::<X, N>(x).text()[i]
            == x.text()[i % (x.text().len() as int)],
{
    lemma_repeat_seq(x.text(), N as nat);
}

/// Swapping exchanges the two renderings, and swapping twice restores both.
pub proof fn lemma_swap_involution<X: Render>(x: X)
    ensures
        DisplaySwapDebug(x).text() == x.debug_text(),
        DisplaySwapDebug(x).debug_text() == x.text(),
        DisplaySwapDebug(DisplaySwapDebug(x)).text() == x.text(),
        DisplaySwapDebug(DisplaySwapDebug(x)).debug_text() == x.debug_text(),
{
}

} // verus!

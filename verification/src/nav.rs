//! Wrapping movement through the rows of a list.
use vstd::prelude::*;
use vstd::arithmetic::div_mod::{
    lemma_add_mod_noop_right, lemma_mod_add_multiples_vanish, lemma_mod_self_0, lemma_small_mod,
};

verus! {

/// The row after `i` in a list of `n` rows, wrapping to the first.
pub fn wrap_next(i: usize, n: usize) -> (r: usize)
    requires
        n > 0,
    ensures
        r as int == (i + 1) % (n as int),
        r < n,
{
    let m = i % n;
    proof {
        lemma_add_mod_noop_right(1, i as int, n as int);
        if m + 1 < n {
            lemma_small_mod((m + 1) as nat, n as nat);
        } else {
            lemma_mod_self_0(n as int);
        }
    }
    if m + 1 == n {
        0
    } else {
        m + 1
    }
}

/// The row before `i` in a list of `n` rows, wrapping to the last.
pub fn wrap_prev(i: usize, n: usize) -> (r: usize)
    requires
        n > 0,
    ensures
        r as int == (i + n - 1) % (n as int),
        r < n,
{
    let m = i % n;
    proof {
        lemma_add_mod_noop_right((n - 1) as int, i as int, n as int);
        if m == 0 {
            lemma_small_mod((n - 1) as nat, n as nat);
        } else {
            lemma_mod_add_multiples_vanish((m - 1) as int, n as int);
            lemma_small_mod((m - 1) as nat, n as nat);
        }
    }
    if m == 0 {
        n - 1
    } else {
        m - 1
    }
}

} // verus!

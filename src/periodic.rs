//! Wrapping of one-dimensional grid coordinates into a periodic domain.
use vstd::arithmetic::div_mod::lemma_fundamental_div_mod_converse;
use vstd::prelude::*;

verus! {

/// The periodic image of `i` in `[0, n)`, for an `i` at most one period away
/// from the domain (`-n <= i < 2n`): a single shift by `n` suffices there.
pub open spec fn wrap(i: int, n: int) -> int {
    if i >= n {
        i - n
    } else if i < 0 {
        i + n
    } else {
        i
    }
}

/// On the range where a single shift applies, `wrap` is reduction modulo `n`:
/// its result lies in `[0, n)` and is congruent to `i`.
pub proof fn lemma_wrap_is_mod(i: int, n: int)
    requires
        n > 0,
        -n <= i < 2 * n,
    ensures
        0 <= wrap(i, n) < n,
        wrap(i, n) == i % n,
{
    if i >= n {
        lemma_fundamental_div_mod_converse(i, n, 1, i - n);
    } else if i < 0 {
        lemma_fundamental_div_mod_converse(i, n, -1, i + n);
    } else {
        lemma_fundamental_div_mod_converse(i, n, 0, i);
    }
}

/// Maps a coordinate within one period of the domain `[0, n)` to its periodic
/// image in the domain.
pub fn index_periodic(i: isize, n: isize) -> (r: usize)
    requires
        n > 0,
        -n <= i < 2 * n,
    ensures
        r as int == wrap(i as int, n as int),
        r < n,
        r as int == (i as int) % (n as int),
{
    proof {
        lemma_wrap_is_mod(i as int, n as int);
    }
    if i > n - 1 {
        (i - n) as usize
    } else if i < 0 {
        (n + i) as usize
    } else {
        i as usize
    }
}

} // verus!

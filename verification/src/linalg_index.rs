use vstd::prelude::*;
use vstd::arithmetic::div_mod::lemma_add_mod_noop;

verus! {

/// The checkerboard sign of the cofactor at row `i`, column `j` of a
/// matrix: +1 where `i + j` is even, -1 where it is odd.
pub fn cofactor_sign(i: usize, j: usize) -> (s: i32)
    ensures
        s == if (i + j) % 2 == 0 { 1int } else { -1int },
{
    proof {
        lemma_add_mod_noop(i as int, j as int, 2);
    }
    if (i % 2 + j % 2) % 2 == 0 {
        1
    } else {
        -1
    }
}

/// Where row (or column) `k` of a matrix lands in the minor once row (or
/// column) `deleted` is struck out: unchanged before it, shifted down by
/// one past it.
pub fn minor_index(k: usize, deleted: usize) -> (r: usize)
    requires
        k != deleted,
    ensures
        r == if k < deleted { k as int } else { k - 1int },
{
    if k < deleted {
        k
    } else {
        k - 1
    }
}

} // verus!

//! Cursor movement arithmetic shared by every list view: wraparound stepping
//! for next/prev and clamped jumps for paging.

use vstd::prelude::*;

verus! {

/// Rows a single page-up or page-down jump moves the cursor by.
pub const PAGE_SIZE: usize = 10;

/// Index of the row after `i` in a view of `len` rows, wrapping to the top.
pub fn wrap_next(i: usize, len: usize) -> (r: usize)
    requires
        len > 0,
    ensures
        r == (i + 1) % (len as int),
        r < len,
{
    let base = i % len;
    proof {
        vstd::arithmetic::div_mod::lemma_add_mod_noop(i as int, 1int, len as int);
        if len > 1 {
            vstd::arithmetic::div_mod::lemma_small_mod(1nat, len as nat);
        }
    }
    if base == len - 1 {
        proof {
            vstd::arithmetic::div_mod::lemma_mod_self_0(len as int);
        }
        0
    } else {
        proof {
            vstd::arithmetic::div_mod::lemma_small_mod((base + 1) as nat, len as nat);
        }
        base + 1
    }
}

/// Index of the row before `i` in a view of `len` rows, wrapping to the bottom.
pub fn wrap_prev(i: usize, len: usize) -> (r: usize)
    requires
        len > 0,
    ensures
        r == (i + len - 1) % (len as int),
        r < len,
{
    let base = i % len;
    proof {
        vstd::arithmetic::div_mod::lemma_add_mod_noop(i as int, len - 1int, len as int);
        vstd::arithmetic::div_mod::lemma_small_mod((len - 1) as nat, len as nat);
    }
    if base == 0 {
        proof {
            vstd::arithmetic::div_mod::lemma_small_mod((len - 1) as nat, len as nat);
        }
        len - 1
    } else {
        proof {
            vstd::arithmetic::div_mod::lemma_mod_multiples_vanish(1int, base - 1int, len as int);
            vstd::arithmetic::div_mod::lemma_small_mod((base - 1) as nat, len as nat);
        }
        base - 1
    }
}

/// Cursor after a page-up jump: moves `PAGE_SIZE` rows towards the top,
/// clamped at the first row rather than wrapping.
pub fn page_up_index(i: usize) -> (r: usize)
    ensures
        r == if i >= PAGE_SIZE { i - PAGE_SIZE } else { 0int },
{
    if i >= PAGE_SIZE {
        i - PAGE_SIZE
    } else {
        0
    }
}

/// Cursor after a page-down jump in a view of `len` rows: moves `PAGE_SIZE`
/// rows towards the bottom, clamped at the last row rather than wrapping.
pub fn page_down_index(i: usize, len: usize) -> (r: usize)
    requires
        len > 0,
    ensures
        r == if i + PAGE_SIZE <= len - 1 { i + PAGE_SIZE } else { len - 1int },
        r < len,
{
    let last = len - 1;
    if i >= last {
        last
    } else if last - i <= PAGE_SIZE {
        last
    } else {
        i + PAGE_SIZE
    }
}

} // verus!

//! Offset alignment shared by the arena and the staging belt.
use vstd::prelude::*;

verus! {

/// The smallest multiple of `align` that is at least `cursor`.
pub open spec fn align_up(cursor: int, align: int) -> int {
    if cursor % align == 0 {
        cursor
    } else {
        cursor - cursor % align + align
    }
}

/// Whether a range of `size` bytes, placed at the first multiple of `align`
/// at or after `cursor`, ends within `capacity`.
pub open spec fn fits(cursor: int, capacity: int, size: int, align: int) -> bool {
    align_up(cursor, align) + size <= capacity
}

/// An aligned start is a multiple of the alignment, not before the cursor,
/// and less than one alignment after it.
pub proof fn lemma_align_up(cursor: int, align: int)
    requires
        0 <= cursor,
        0 < align,
    ensures
        align_up(cursor, align) % align == 0,
        cursor <= align_up(cursor, align) < cursor + align,
{
    let r = cursor % align;
    assert(0 <= r < align);
    if r != 0 {
        assert((cursor - r + align) % align == 0) by {
            vstd::arithmetic::div_mod::lemma_fundamental_div_mod(cursor, align);
            vstd::arithmetic::div_mod::lemma_mod_multiples_basic(cursor / align + 1, align);
            assert(cursor - r + align == (cursor / align + 1) * align) by (nonlinear_arith)
                requires cursor == align * (cursor / align) + r;
        }
    }
}

/// Padding before the next aligned offset, computed as
/// `(align - cursor % align) % align`.
pub(crate) fn padding_to(cursor: u64, align: u64) -> (r: u64)
    requires
        align > 0,
    ensures
        r == align_up(cursor as int, align as int) - cursor,
        r < align,
{
    let rem = cursor % align;
    proof {
        if rem == 0 {
            vstd::arithmetic::div_mod::lemma_mod_self_0(align as int);
        } else {
            vstd::arithmetic::div_mod::lemma_small_mod((align - rem) as nat, align as nat);
        }
    }
    (align - rem) % align
}

} // verus!

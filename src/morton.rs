//! Morton (Z-order) codes: the bits of three coordinates interleaved, so that
//! points close in space get codes close in memory order.
use vstd::prelude::*;

verus! {

/// Bit `i` of `v`.
pub open spec fn bit(v: u64, i: u64) -> bool {
    (v >> i) & 1u64 == 1u64
}

/// Bit `i` of the Morton code of `(x, y, z)`: bit `3k` is bit `k` of `x`,
/// bit `3k + 1` is bit `k` of `y`, bit `3k + 2` is bit `k` of `z`, for the
/// low 21 bits of each coordinate; bit 63 is clear.
pub open spec fn morton_bit(x: u32, y: u32, z: u32, i: u64) -> bool {
    &&& i < 63
    &&& if i % 3 == 0 {
        bit(x as u64, i / 3)
    } else if i % 3 == 1 {
        bit(y as u64, i / 3)
    } else {
        bit(z as u64, i / 3)
    }
}

/// Spreads the low 21 bits of `v` two positions apart: bit `k` of `v` goes
/// to bit `3k` of the result, and every other bit of the result is clear.
fn expand_bits(v: u32) -> (r: u64)
    ensures
        forall|i: u64| i < 64 ==> #[trigger] bit(r, i) == (i % 3 == 0 && i < 63 && bit(v as u64, i / 3)),
{
    let v0: u64 = v as u64 & 0x1FFFFF;
    let v1: u64 = (v0 | (v0 << 32)) & 0x1F00000000FFFF;
    let v2: u64 = (v1 | (v1 << 16)) & 0x1F0000FF0000FF;
    let v3: u64 = (v2 | (v2 << 8)) & 0x100F00F00F00F00F;
    let v4: u64 = (v3 | (v3 << 4)) & 0x10C30C30C30C30C3;
    let v5: u64 = (v4 | (v4 << 2)) & 0x1249249249249249;
    assert(forall|i: u64| i < 64 ==> #[trigger] bit(v5, i) == (i % 3 == 0 && i < 63 && bit(v as u64, i / 3)))
        by (bit_vector)
        requires
            v0 == v as u64 & 0x1FFFFF,
            v1 == (v0 | (v0 << 32)) & 0x1F00000000FFFF,
            v2 == (v1 | (v1 << 16)) & 0x1F0000FF0000FF,
            v3 == (v2 | (v2 << 8)) & 0x100F00F00F00F00F,
            v4 == (v3 | (v3 << 4)) & 0x10C30C30C30C30C3,
            v5 == (v4 | (v4 << 2)) & 0x1249249249249249,
    ;
    v5
}

/// The Morton code of `(x, y, z)`: their low 21 bits interleaved, `x` in the
/// lowest position of each group of three.
pub fn encode_morton_3d(x: u32, y: u32, z: u32) -> (r: u64)
    ensures
        forall|i: u64| i < 64 ==> #[trigger] bit(r, i) == morton_bit(x, y, z, i),
{
    let ex = expand_bits(x);
    let ey = expand_bits(y);
    let ez = expand_bits(z);
    let r = ex | (ey << 1) | (ez << 2);
    assert forall|i: u64| i < 64 implies #[trigger] bit(r, i) == morton_bit(x, y, z, i) by {
        assert(bit(r, i) == (bit(ex, i) || (i >= 1 && bit(ey, (i - 1) as u64)) || (i >= 2 && bit(
            ez,
            (i - 2) as u64,
        )))) by (bit_vector)
            requires
                r == ex | (ey << 1) | (ez << 2),
                i < 64,
        ;
        if i >= 1 {
            assert(bit(ey, (i - 1) as u64) == ((i - 1) % 3 == 0 && i - 1 < 63 && bit(
                y as u64,
                ((i - 1) / 3) as u64,
            )));
        }
        if i >= 2 {
            assert(bit(ez, (i - 2) as u64) == ((i - 2) % 3 == 0 && i - 2 < 63 && bit(
                z as u64,
                ((i - 2) / 3) as u64,
            )));
        }
    }
    r
}

} // verus!

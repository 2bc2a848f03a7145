//! Fixed-point scaling: multiplication by a factor given in ten-thousandths.

use vstd::prelude::*;

use crate::types::SCALE_ONE;

verus! {

/// `v` scaled by `factor / 10000`, rounded toward zero.
pub open spec fn scaled(v: int, factor: int) -> int {
    v * factor / (SCALE_ONE as int)
}

/// Executable fixed-point scaling.  The bounds keep the intermediate product
/// inside `u64` and give callers a doubling bound on the result.
pub fn scale_u64(v: u64, factor: u64) -> (r: u64)
    requires
        v <= 0x0002_0000_0000_0000,
        factor <= 20000,
    ensures
        r == scaled(v as int, factor as int),
        r <= 2 * v,
{
    proof {
        let vi = v as int;
        let fi = factor as int;
        assert(vi * fi <= vi * 20000) by (nonlinear_arith)
            requires
                0 <= vi,
                0 <= fi <= 20000,
        ;
        assert(vi * 20000 <= 0x0002_0000_0000_0000 * 20000) by (nonlinear_arith)
            requires
                0 <= vi <= 0x0002_0000_0000_0000,
        ;
        vstd::arithmetic::div_mod::lemma_div_is_ordered(vi * fi, vi * 20000, 10000);
        vstd::arithmetic::div_mod::lemma_div_multiples_vanish(2 * vi, 10000);
        assert(vi * 20000 == (2 * vi) * 10000) by (nonlinear_arith);
        vstd::arithmetic::div_mod::lemma_div_pos_is_pos(vi * fi, 10000);
        assert(vi * fi >= 0) by (nonlinear_arith)
            requires
                0 <= vi,
                0 <= fi,
        ;
    }
    v * factor / SCALE_ONE
}

} // verus!

//! Work-group counts for compute dispatches.

use crate::grid::Extent3d;
use vstd::arithmetic::div_mod::{lemma_fundamental_div_mod, lemma_fundamental_div_mod_converse_div};
use vstd::prelude::*;

verus! {

/// Number of groups of `group_local_size` items each that it takes to cover
/// `resource_size` items: the quotient, rounded up.
pub open spec fn ceil_div(resource_size: int, group_local_size: int) -> int
    recommends
        resource_size >= 0,
        group_local_size > 0,
{
    (resource_size + group_local_size - 1) / group_local_size
}

/// The group counts that cover a three-dimensional resource, axis by axis.
pub open spec fn group_extent(resource_size: Extent3d, group_local_size: Extent3d) -> Extent3d
    recommends
        group_local_size.width > 0,
        group_local_size.height > 0,
        group_local_size.depth > 0,
{
    Extent3d {
        width: ceil_div(resource_size.width as int, group_local_size.width as int) as u32,
        height: ceil_div(resource_size.height as int, group_local_size.height as int) as u32,
        depth: ceil_div(resource_size.depth as int, group_local_size.depth as int) as u32,
    }
}

/// The rounded-up quotient is the whole quotient, plus one where a remainder is
/// left. It is the least group count whose groups cover every item, so nothing
/// is left out and no group is wholly idle; and it never exceeds the item count.
pub proof fn lemma_ceil_div_covers(resource_size: int, group_local_size: int)
    requires
        resource_size >= 0,
        group_local_size > 0,
    ensures
        ceil_div(resource_size, group_local_size) == resource_size / group_local_size + (if resource_size
            % group_local_size == 0 {
            0int
        } else {
            1int
        }),
        ceil_div(resource_size, group_local_size) * group_local_size >= resource_size,
        (ceil_div(resource_size, group_local_size) - 1) * group_local_size < resource_size
            || resource_size == 0,
        0 <= ceil_div(resource_size, group_local_size) <= resource_size,
        resource_size == 0 ==> ceil_div(resource_size, group_local_size) == 0,
{
    let n = resource_size;
    let d = group_local_size;
    let q = n / d;
    let r = n % d;
    lemma_fundamental_div_mod(n, d);
    assert(n == d * q + r);
    assert(d * q == q * d) by (nonlinear_arith);
    assert(q >= 0) by (nonlinear_arith)
        requires
            n == q * d + r,
            0 <= r < d,
            n >= 0,
    ;
    if r == 0 {
        assert(n + d - 1 == q * d + (d - 1));
        lemma_fundamental_div_mod_converse_div(n + d - 1, d, q, d - 1);
        assert(ceil_div(n, d) == q);
        assert((q - 1) * d == q * d - d) by (nonlinear_arith);
        assert(q <= q * d) by (nonlinear_arith)
            requires
                q >= 0,
                d >= 1,
        ;
    } else {
        assert((q + 1) * d == q * d + d) by (nonlinear_arith);
        assert(n + d - 1 == (q + 1) * d + (r - 1));
        lemma_fundamental_div_mod_converse_div(n + d - 1, d, q + 1, r - 1);
        assert(ceil_div(n, d) == q + 1);
        assert(q <= q * d) by (nonlinear_arith)
            requires
                q >= 0,
                d >= 1,
        ;
    }
}

/// Number of work groups of `group_local_size` invocations that cover
/// `resource_size` items along one axis.
pub fn compute_group_size_1d(resource_size: u32, group_local_size: u32) -> (groups: u32)
    requires
        group_local_size > 0,
    ensures
        groups == ceil_div(resource_size as int, group_local_size as int),
{
    proof {
        lemma_ceil_div_covers(resource_size as int, group_local_size as int);
    }
    let full: u32 = resource_size / group_local_size;
    let rest: u32 = resource_size % group_local_size;
    if rest == 0 {
        full
    } else {
        full + 1
    }
}

/// Number of work groups of `group_local_size` invocations that cover a
/// resource of `resource_size`, for each axis by itself.
pub fn compute_group_size(resource_size: Extent3d, group_local_size: Extent3d) -> (groups: Extent3d)
    requires
        group_local_size.width > 0,
        group_local_size.height > 0,
        group_local_size.depth > 0,
    ensures
        groups == group_extent(resource_size, group_local_size),
        groups.width == ceil_div(resource_size.width as int, group_local_size.width as int),
        groups.height == ceil_div(resource_size.height as int, group_local_size.height as int),
        groups.depth == ceil_div(resource_size.depth as int, group_local_size.depth as int),
{
    Extent3d {
        width: compute_group_size_1d(resource_size.width, group_local_size.width),
        height: compute_group_size_1d(resource_size.height, group_local_size.height),
        depth: compute_group_size_1d(resource_size.depth, group_local_size.depth),
    }
}

} // verus!

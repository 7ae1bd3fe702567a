//! Thread-grid arithmetic for one dispatch.
//!
//! A dispatch covers one work item per output element. Work items run in
//! groups of a fixed size, except that an output shorter than one group is
//! dispatched as a single group of its own length, so that the grid is
//! never empty while there is work.

use vstd::prelude::*;

verus! {

use vstd::arithmetic::div_mod::lemma_div_is_strictly_smaller;
use vstd::arithmetic::div_mod::lemma_fundamental_div_mod;
use vstd::arithmetic::div_mod::lemma_div_nonincreasing;
use vstd::arithmetic::div_mod::lemma_div_pos_is_pos;
use vstd::arithmetic::div_mod::lemma_mod_bound;
use vstd::arithmetic::div_mod::lemma_mod_self_0;

/// Threads per group when the output is at least one group long.
pub const THREAD_GROUP_SIZE: u64 = 256;

/// Threads per group for an output of `output_len` elements: the fixed
/// group size, or the whole output where that is smaller.
pub open spec fn group_size_of(output_len: int) -> int {
    if output_len < THREAD_GROUP_SIZE as int {
        output_len
    } else {
        THREAD_GROUP_SIZE as int
    }
}

/// Groups needed to cover `output_len` work items: their count divided by
/// the group size, rounded up.
pub open spec fn group_count_of(output_len: int) -> int {
    if output_len <= 0 {
        0
    } else if output_len % group_size_of(output_len) == 0 {
        output_len / group_size_of(output_len)
    } else {
        output_len / group_size_of(output_len) + 1
    }
}

/// The shape of one dispatch: `thread_count` work items, one per output
/// element, in `group_count` groups of `group_size` threads each.
#[derive(Clone, Copy, Debug, PartialEq, Eq, Structural)]
pub struct GridPlan {
    pub thread_count: u64,
    pub group_size: u64,
    pub group_count: u64,
}

impl GridPlan {
    /// Whether this plan is the one that covers an output of `output_len`
    /// elements.
    pub open spec fn fits(self, output_len: int) -> bool {
        &&& self.thread_count == output_len
        &&& self.group_size == group_size_of(output_len)
        &&& self.group_count == group_count_of(output_len)
    }
}

/// The grid plan for an output of `output_len` elements; there is no grid,
/// and nothing to dispatch, when the output is empty.
pub fn plan_grid(output_len: usize) -> (r: Option<GridPlan>)
    ensures
        r is Some <==> output_len > 0,
        r matches Some(p) ==> p.fits(output_len as int),
{
    if output_len == 0 {
        return None;
    }
    let n = output_len as u64;
    let group_size = if n < THREAD_GROUP_SIZE {
        n
    } else {
        THREAD_GROUP_SIZE
    };
    let whole = n / group_size;
    let rest = n % group_size;
    proof {
        if n < THREAD_GROUP_SIZE {
            lemma_mod_self_0(n as int);
        }
        lemma_mod_bound(n as int, group_size as int);
        if n % group_size != 0 {
            lemma_div_is_strictly_smaller(n as int, group_size as int);
        }
    }
    let group_count = if rest == 0 {
        whole
    } else {
        whole + 1
    };
    Some(GridPlan { thread_count: n, group_size, group_count })
}

/// A grid that fits an output covers it whole and wastes less than one
/// group: `group_count * group_size` reaches the output length, while one
/// group fewer would fall short. The group count never shapes the output
/// length; it only covers it.
pub proof fn lemma_grid_covers(output_len: int)
    requires
        0 < output_len,
    ensures
        1 <= group_size_of(output_len) <= THREAD_GROUP_SIZE as int,
        1 <= group_count_of(output_len) <= output_len,
        group_count_of(output_len) * group_size_of(output_len) >= output_len,
        (group_count_of(output_len) - 1) * group_size_of(output_len) < output_len,
{
    let gs = group_size_of(output_len);
    let q = output_len / gs;
    let r = output_len % gs;
    lemma_fundamental_div_mod(output_len, gs);
    lemma_mod_bound(output_len, gs);
    lemma_div_nonincreasing(output_len, gs);
    assert(output_len == gs * q + r);
    if r == 0 {
        assert(group_count_of(output_len) == q);
        assert(q >= 1) by (nonlinear_arith)
            requires
                output_len == gs * q,
                0 < output_len,
                0 < gs,
        ;
        assert(q * gs == gs * q) by (nonlinear_arith);
        assert((q - 1) * gs == gs * q - gs) by (nonlinear_arith);
    } else {
        assert(gs == THREAD_GROUP_SIZE as int) by {
            if output_len < THREAD_GROUP_SIZE as int {
                lemma_mod_self_0(output_len);
            }
        }
        lemma_div_is_strictly_smaller(output_len, gs);
        lemma_div_pos_is_pos(output_len, gs);
        assert(group_count_of(output_len) == q + 1);
        assert((q + 1) * gs == gs * q + gs) by (nonlinear_arith);
        assert(q * gs == gs * q) by (nonlinear_arith);
    }
}

} // verus!

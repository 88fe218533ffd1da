//! The chunk planner: a resource of a given size, cut into fixed-size
//! inclusive byte ranges.
use vstd::prelude::*;

use vstd::arithmetic::div_mod::{
    lemma_div_is_ordered,
    lemma_fundamental_div_mod,
    lemma_fundamental_div_mod_converse,
    lemma_mod_pos_bound,
};

verus! {

/// The size of one chunk: 1 MiB.
pub const CHUNK_SIZE: u64 = 1048576;

/// Why no plan could be made.
#[derive(Clone, Copy, Debug, PartialEq, Eq, Structural)]
pub enum PlanError {
    /// The chunk size is zero.
    ConfigError,
}

/// How many chunks a resource of `total` bytes takes at `size` bytes each.
pub open spec fn chunk_count(total: int, size: int) -> int {
    if total <= 0 {
        0
    } else {
        (total - 1) / size + 1
    }
}

/// The `i`-th range: it starts at `i * size` and ends `size` bytes later, or
/// at the last byte of the resource.
pub open spec fn planned_range(total: int, size: int, i: int) -> (int, int) {
    (i * size, if i * size + size - 1 < total - 1 {
        i * size + size - 1
    } else {
        total - 1
    })
}

/// The plan for a resource of `total` bytes in chunks of `size` bytes.
pub open spec fn plan(total: u64, size: u64) -> Seq<(u64, u64)> {
    Seq::new(
        chunk_count(total as int, size as int) as nat,
        |i: int|
            (
                planned_range(total as int, size as int, i).0 as u64,
                planned_range(total as int, size as int, i).1 as u64,
            ),
    )
}

proof fn lemma_index_of_start(total: int, size: int, i: int)
    requires
        size > 0,
        0 <= i,
        i * size < total,
    ensures
        i < chunk_count(total, size),
        i * size + size < total ==> i + 1 < chunk_count(total, size),
        i * size + size >= total ==> i + 1 == chunk_count(total, size),
{
    lemma_fundamental_div_mod_converse(i * size, size, i, 0);
    lemma_div_is_ordered(i * size, total - 1, size);
    if i * size + size < total {
        assert((i + 1) * size == i * size + size) by (nonlinear_arith);
        lemma_fundamental_div_mod_converse((i + 1) * size, size, i + 1, 0);
        lemma_div_is_ordered((i + 1) * size, total - 1, size);
    } else {
        lemma_fundamental_div_mod_converse(total - 1, size, i, total - 1 - i * size);
    }
}

/// Cuts `[0, total_size)` into inclusive ranges of `chunk_size` bytes, in
/// order; the last one ends at `total_size - 1`. An empty resource has no
/// ranges.
pub fn plan_chunks(total_size: u64, chunk_size: u64) -> (r: Result<Vec<(u64, u64)>, PlanError>)
    ensures
        chunk_size == 0 <==> r is Err,
        r matches Ok(v) ==> v@ == plan(total_size, chunk_size),
{
    if chunk_size == 0 {
        return Err(PlanError::ConfigError);
    }
    let ghost total = total_size as int;
    let ghost size = chunk_size as int;
    let mut v: Vec<(u64, u64)> = Vec::new();
    let mut start: u64 = 0;
    let mut done = total_size == 0;
    while !done
        invariant
            size > 0,
            total == total_size,
            size == chunk_size,
            done ==> v@.len() == chunk_count(total, size),
            !done ==> start < total_size && start as int == v@.len() * size,
            forall|k: int|
                0 <= k < v@.len() ==> #[trigger] v@[k] == plan(total_size, chunk_size)[k],
        decreases total_size - start + (if done { 0int } else { 1int }),
    {
        let ghost i = v@.len() as int;
        proof {
            lemma_index_of_start(total, size, i);
        }
        if total_size - start <= chunk_size {
            v.push((start, total_size - 1));
            done = true;
        } else {
            v.push((start, start + chunk_size - 1));
            start = start + chunk_size;
            assert(start as int == v@.len() * size) by (nonlinear_arith)
                requires
                    start as int == i * size + size,
                    v@.len() == i + 1,
            ;
        }
        assert(v@[i] == plan(total_size, chunk_size)[i]);
    }
    assert(v@ =~= plan(total_size, chunk_size));
    Ok(v)
}

/// Whether the inclusive range `r` holds the byte offset `b`.
pub open spec fn covers(r: (u64, u64), b: int) -> bool {
    r.0 <= b <= r.1
}

/// Whether some range of `p` holds the byte offset `b`.
pub open spec fn covered_by(p: Seq<(u64, u64)>, b: int) -> bool {
    exists|i: int| 0 <= i < p.len() && covers(#[trigger] p[i], b)
}

/// The plan covers `[0, total)` exactly: its ranges are ordered, each is
/// non-empty, each begins right after the one before it, the first begins at
/// 0 and the last ends at `total - 1`; so they are disjoint, and every byte
/// of the resource lies in exactly one of them.
pub proof fn lemma_plan_covers(total: u64, size: u64)
    requires
        size > 0,
    ensures
        plan(total, size).len() == chunk_count(total as int, size as int),
        total == 0 <==> plan(total, size).len() == 0,
        total > 0 ==> plan(total, size)[0].0 == 0,
        total > 0 ==> plan(total, size).last().1 == total - 1,
        forall|i: int|
            0 <= i < plan(total, size).len() ==> #[trigger] plan(total, size)[i].0 <= plan(
                total,
                size,
            )[i].1 < total,
        forall|i: int|
            0 <= i < plan(total, size).len() - 1 ==> #[trigger] plan(total, size)[i].1 + 1 == plan(
                total,
                size,
            )[i + 1].0,
        forall|i: int, j: int|
            0 <= i < j < plan(total, size).len() ==> #[trigger] plan(total, size)[i].1 < #[trigger] plan(
                total,
                size,
            )[j].0,
        forall|b: int| 0 <= b < total ==> #[trigger] covered_by(plan(total, size), b),
{
    let p = plan(total, size);
    let t = total as int;
    let s = size as int;
    assert forall|i: int| 0 <= i < p.len() implies #[trigger] p[i].0 <= p[i].1 < total by {
        assert(0 <= i * s) by (nonlinear_arith)
            requires
                0 <= i,
                0 < s,
        ;
        lemma_start_in_range(t, s, i);
    }
    assert forall|i: int| 0 <= i < p.len() - 1 implies #[trigger] p[i].1 + 1 == p[i + 1].0 by {
        assert(0 <= i * s) by (nonlinear_arith)
            requires
                0 <= i,
                0 < s,
        ;
        assert((i + 1) * s == i * s + s) by (nonlinear_arith);
        lemma_start_in_range(t, s, i + 1);
        lemma_last_start(t, s, i);
    }
    assert forall|i: int, j: int| 0 <= i < j < p.len() implies #[trigger] p[i].1 < #[trigger] p[j].0 by {
        assert(0 <= i * s) by (nonlinear_arith)
            requires
                0 <= i,
                0 < s,
        ;
        assert(i * s + s <= j * s) by (nonlinear_arith)
            requires
                i < j,
                0 < s,
        ;
        lemma_start_in_range(t, s, j);
    }
    assert forall|b: int| 0 <= b < total implies #[trigger] covered_by(p, b) by {
        let i = b / s;
        lemma_fundamental_div_mod(b, s);
        lemma_mod_pos_bound(b, s);
        assert(i * s == s * i) by (nonlinear_arith);
        assert(0 <= i) by (nonlinear_arith)
            requires
                0 <= b,
                0 < s,
                i == b / s,
        ;
        lemma_index_of_start(t, s, i);
        assert(covers(p[i], b));
    }
    if total > 0 {
        let n = p.len() - 1;
        lemma_index_of_start(t, s, 0);
        assert(0 <= n);
        lemma_fundamental_div_mod(t - 1, s);
        lemma_mod_pos_bound(t - 1, s);
        assert(n * s == s * ((t - 1) / s)) by (nonlinear_arith)
            requires
                n == (t - 1) / s,
        ;
        assert(0 <= n * s) by (nonlinear_arith)
            requires
                0 <= n,
                0 < s,
        ;
    }
}

/// The `i`-th start lies inside the resource when `i` indexes the plan.
proof fn lemma_start_in_range(total: int, size: int, i: int)
    requires
        size > 0,
        0 <= i < chunk_count(total, size),
    ensures
        i * size < total,
{
    lemma_fundamental_div_mod(total - 1, size);
    lemma_mod_pos_bound(total - 1, size);
    assert(i * size <= ((total - 1) / size) * size) by (nonlinear_arith)
        requires
            0 <= i <= (total - 1) / size,
            0 < size,
    ;
    assert(((total - 1) / size) * size == size * ((total - 1) / size)) by (nonlinear_arith);
}

/// A range that is followed by another one is a full chunk.
proof fn lemma_last_start(total: int, size: int, i: int)
    requires
        size > 0,
        0 <= i,
        i + 1 < chunk_count(total, size),
    ensures
        i * size + size - 1 < total - 1,
{
    lemma_start_in_range(total, size, i + 1);
    assert((i + 1) * size == i * size + size) by (nonlinear_arith);
}

/// Planning depends on its inputs alone: two plans of the same resource at
/// the same chunk size are the same ranges.
pub proof fn lemma_plan_deterministic(
    total: u64,
    size: u64,
    first: Seq<(u64, u64)>,
    second: Seq<(u64, u64)>,
)
    requires
        first == plan(total, size),
        second == plan(total, size),
    ensures
        first == second,
{
}

} // verus!

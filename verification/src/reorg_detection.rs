//! Which blocks a reorg orphans.
use vstd::prelude::*;

verus! {

/// The block numbers `start, start + 1, ..., start + count - 1`.
pub open spec fn block_range(start: int, count: nat) -> Seq<u64> {
    Seq::new(count, |i: int| (start + i) as u64)
}

/// Blocks orphaned by a reorg of `depth` that moved the head from `old_head`
/// back to `new_head`: the last `depth` blocks up to and including `old_head`,
/// or none when there was no reorg, the chain moved forward, or the depth
/// reaches below block one.
pub open spec fn orphaned_by_depth(old_head: u64, new_head: u64, depth: u32) -> Seq<u64> {
    if depth == 0 || old_head <= new_head || depth as u64 > old_head {
        Seq::empty()
    } else {
        block_range(old_head - depth + 1, depth as nat)
    }
}

/// Collects the block numbers `start ..= end` (none when `start > end`).
pub fn collect_range(start: u64, end: u64) -> (v: Vec<u64>)
    requires
        start > end || end < u64::MAX,
    ensures
        v@ == if start > end { Seq::empty() } else { block_range(start as int, (end - start + 1) as nat) },
{
    let mut v: Vec<u64> = Vec::new();
    if start > end {
        return v;
    }
    let mut b = start;
    while b <= end
        invariant
            start <= b <= end + 1,
            end < u64::MAX,
            v@ == block_range(start as int, (b - start) as nat),
        decreases end + 1 - b,
    {
        v.push(b);
        proof {
            assert(v@ =~= block_range(start as int, (b + 1 - start) as nat));
        }
        b = b + 1;
    }
    v
}

/// Calculate which blocks are orphaned in a reorg: the blocks from the fork
/// point `old_head - depth + 1` up to `old_head`.
pub fn calculate_orphaned_blocks(old_head: u64, new_head: u64, depth: u32) -> (r: Vec<u64>)
    requires
        depth == 0 || old_head <= new_head || depth as u64 > old_head || old_head < u64::MAX,
    ensures
        r@ == orphaned_by_depth(old_head, new_head, depth),
{
    if depth == 0 || old_head <= new_head {
        return Vec::new();
    }
    let depth_u64 = depth as u64;
    if depth_u64 > old_head {
        return Vec::new();
    }
    let fork_point = old_head - depth_u64 + 1;
    let r = collect_range(fork_point, old_head);
    proof {
        assert(r@ =~= orphaned_by_depth(old_head, new_head, depth));
    }
    r
}

/// Law: every orphaned block lies above the new head and at or below the old
/// head, the blocks are consecutive and ascending, and there are `depth` of them.
pub proof fn law_orphaned_blocks_lie_between_heads(old_head: u64, new_head: u64, depth: u32)
    ensures
        orphaned_by_depth(old_head, new_head, depth).len() == 0 || orphaned_by_depth(
            old_head,
            new_head,
            depth,
        ).len() == depth,
        forall|i: int|
            0 <= i < orphaned_by_depth(old_head, new_head, depth).len() ==> {
                let b = #[trigger] orphaned_by_depth(old_head, new_head, depth)[i];
                &&& b <= old_head
                &&& 1 <= b
                &&& (depth as int <= old_head - new_head ==> new_head < b)
                &&& (i > 0 ==> b == orphaned_by_depth(old_head, new_head, depth)[i - 1] + 1)
            },
{
}

} // verus!

use vstd::prelude::*;

verus! {

/// First position a scan visits: `start`, moved up to 0 when it is negative.
pub open spec fn scan_lo(start: int) -> int {
    if start < 0 {
        0
    } else {
        start
    }
}

/// Position at which a scan stops (exclusive): `end`, held to at most `limit`.
pub open spec fn scan_hi(end: int, limit: int) -> int {
    if end < limit {
        end
    } else {
        limit
    }
}

/// The half-open range of rows (or columns) that a scan from `start` to `end`
/// visits on a screen `limit` rows high (or columns wide).
pub fn clamp_range(start: i32, end: i32, limit: usize) -> (r: (i64, i64))
    ensures
        r.0 == scan_lo(start as int),
        r.1 == scan_hi(end as int, limit as int),
        0 <= r.0,
        r.1 <= limit,
{
    let lo: i64 = if start < 0 {
        0
    } else {
        start as i64
    };
    // Screens wider than any `i32` position stop no scan early.
    let cap: i64 = if limit > i32::MAX as usize {
        i32::MAX as i64 + 1
    } else {
        limit as i64
    };
    let hi: i64 = if (end as i64) < cap {
        end as i64
    } else {
        cap
    };
    (lo, hi)
}

/// `order` lists the indices 0, 1, 2 once each, by ascending key, and keeps
/// indices with equal keys in their original order.
pub open spec fn sorted_order(keys: Seq<i64>, order: Seq<usize>) -> bool {
    &&& order.len() == 3
    &&& forall|i: int| 0 <= i < 3 ==> order[i] < 3
    &&& order[0] != order[1] && order[0] != order[2] && order[1] != order[2]
    &&& keys[order[0] as int] <= keys[order[1] as int] <= keys[order[2] as int]
    &&& forall|i: int, j: int|
        0 <= i < j < 3 && keys[order[i] as int] == keys[order[j] as int] ==> order[i] < order[j]
}

/// The stable ascending order of three keys (a vertex's screen row, top first),
/// as indices into `keys`.
pub fn order_by_key(keys: [i64; 3]) -> (order: [usize; 3])
    ensures
        sorted_order(keys@, order@),
{
    let k0 = keys[0];
    let k1 = keys[1];
    let k2 = keys[2];
    if k0 <= k1 {
        if k1 <= k2 {
            [0, 1, 2]
        } else if k0 <= k2 {
            [0, 2, 1]
        } else {
            [2, 0, 1]
        }
    } else {
        if k0 <= k2 {
            [1, 0, 2]
        } else if k1 <= k2 {
            [1, 2, 0]
        } else {
            [2, 1, 0]
        }
    }
}

} // verus!

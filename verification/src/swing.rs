//! Swing pivots: the alternating high/low sequence every structural detector reads.

use vstd::prelude::*;

verus! {

/// One confirmed or running swing pivot. `price` is in integer ticks of the instrument.
#[derive(Debug, Clone, Copy, PartialEq, Eq)]
pub struct ZigZagNode {
    pub timestamp: i64,
    pub price: i64,
    pub is_high: bool,
    pub confirmed: bool,
}

/// Neighbouring pivots alternate between highs and lows.
pub open spec fn alternating(s: Seq<ZigZagNode>) -> bool {
    forall|i: int| 0 <= i < s.len() - 1 ==> #[trigger] s[i].is_high != s[i + 1].is_high
}

/// Whether `nodes` alternates between highs and lows.
pub fn is_alternating(nodes: &[ZigZagNode]) -> (r: bool)
    ensures
        r == alternating(nodes@),
{
    let n = nodes.len();
    if n < 2 {
        return true;
    }
    let mut i: usize = 0;
    while i + 1 < n
        invariant
            n == nodes@.len(),
            n >= 2,
            i + 1 <= n,
            forall|j: int| 0 <= j < i ==> #[trigger] nodes@[j].is_high != nodes@[j + 1].is_high,
        decreases n - i,
    {
        if nodes[i].is_high == nodes[i + 1].is_high {
            return false;
        }
        i = i + 1;
    }
    true
}

} // verus!

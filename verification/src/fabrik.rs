use vstd::prelude::*;

verus! {

/// One move of the backward (tip to root) pass of the FABRIK solver: node
/// `moved` is pulled to segment length `segment` from node `anchor`; when
/// `previous` names the node beyond the anchor, the bend at the anchor is
/// then limited by the angle constraint with index `anchor`.
#[derive(PartialEq, Eq, Structural, Clone, Copy, Debug)]
pub struct BackStep {
    pub moved: usize,
    pub anchor: usize,
    pub segment: usize,
    pub previous: Option<usize>,
}

/// One move of the forward (root to tip) pass: node `moved` is pulled to
/// segment length `segment` from node `anchor`, then its bend is limited by
/// the angle constraint with index `anchor`, measured against the direction
/// from `before_anchor` to the anchor, or against the chain's initial
/// direction (turned with the anchor entity) when there is none.
#[derive(PartialEq, Eq, Structural, Clone, Copy, Debug)]
pub struct FrontStep {
    pub moved: usize,
    pub anchor: usize,
    pub segment: usize,
    pub before_anchor: Option<usize>,
}

/// The `k`-th move of the backward pass over a chain of `node_count` nodes.
pub open spec fn backward_step(node_count: usize, k: int) -> BackStep {
    let moved = node_count - 2 - k;
    BackStep {
        moved: moved as usize,
        anchor: (moved + 1) as usize,
        segment: moved as usize,
        previous: if moved + 2 < node_count { Some((moved + 2) as usize) } else { None },
    }
}

/// The `k`-th move of the forward pass over a chain of `node_count` nodes.
pub open spec fn forward_step(k: int) -> FrontStep {
    FrontStep {
        moved: (k + 1) as usize,
        anchor: k as usize,
        segment: k as usize,
        before_anchor: if k >= 1 { Some((k - 1) as usize) } else { None },
    }
}

/// The moves of the backward pass, tip to root: the tip is pinned to the
/// foot target beforehand, then each other node is placed after the one
/// beyond it.
pub fn backward_pass(node_count: usize) -> (steps: Vec<BackStep>)
    requires
        node_count >= 1,
    ensures
        steps@.len() == node_count - 1,
        forall|k: int| 0 <= k < steps@.len() ==> #[trigger] steps@[k] == backward_step(node_count, k),
        forall|k: int|
            0 <= k < steps@.len() ==> {
                let st = #[trigger] steps@[k];
                &&& st.moved == node_count - 2 - k
                &&& st.anchor == st.moved + 1
                &&& st.segment == st.moved
                &&& st.previous == if st.moved + 2 < node_count {
                    Some((st.moved + 2) as usize)
                } else {
                    None
                }
            },
{
    let mut steps: Vec<BackStep> = Vec::new();
    let last = node_count - 1;
    let mut k: usize = 0;
    while k < last
        invariant
            last == node_count - 1,
            k <= last,
            steps@.len() == k,
            forall|j: int| 0 <= j < k ==> #[trigger] steps@[j] == backward_step(node_count, j),
        decreases last - k,
    {
        let moved = last - 1 - k;
        let previous = if moved + 2 < node_count {
            Some(moved + 2)
        } else {
            None
        };
        steps.push(BackStep { moved, anchor: moved + 1, segment: moved, previous });
        k = k + 1;
    }
    steps
}

/// The moves of the forward pass, root to tip: the root is pinned to the
/// anchor entity beforehand, then each other node is placed after the one
/// before it.
pub fn forward_pass(node_count: usize) -> (steps: Vec<FrontStep>)
    requires
        node_count >= 1,
    ensures
        steps@.len() == node_count - 1,
        forall|k: int| 0 <= k < steps@.len() ==> #[trigger] steps@[k] == forward_step(k),
        forall|k: int|
            0 <= k < steps@.len() ==> {
                let st = #[trigger] steps@[k];
                &&& st.moved == k + 1
                &&& st.anchor == k
                &&& st.segment == k
                &&& st.before_anchor == if k >= 1 {
                    Some((k - 1) as usize)
                } else {
                    None
                }
            },
{
    let mut steps: Vec<FrontStep> = Vec::new();
    let last = node_count - 1;
    let mut k: usize = 0;
    while k < last
        invariant
            last == node_count - 1,
            k <= last,
            steps@.len() == k,
            forall|j: int| 0 <= j < k ==> #[trigger] steps@[j] == forward_step(j),
        decreases last - k,
    {
        let before_anchor = if k >= 1 {
            Some(k - 1)
        } else {
            None
        };
        steps.push(FrontStep { moved: k + 1, anchor: k, segment: k, before_anchor });
        k = k + 1;
    }
    steps
}

/// Every index the two passes name is in range for a chain of
/// `node_count` nodes with `node_count - 1` segment lengths and angle
/// constraints; each pass moves every node but the pinned one exactly
/// once, and each move pulls a node toward a neighbour across the segment
/// between them.
pub proof fn passes_stay_within_the_chain(node_count: usize)
    requires
        node_count >= 1,
    ensures
        forall|k: int|
            0 <= k < node_count - 1 ==> {
                let b = #[trigger] backward_step(node_count, k);
                &&& b.moved < node_count - 1
                &&& b.anchor == b.moved + 1
                &&& b.segment == b.moved
                &&& b.anchor < node_count
                &&& (b.previous matches Some(p) ==> p == b.anchor + 1 && p < node_count)
                &&& (b.previous is Some <==> b.moved + 2 < node_count)
            },
        forall|k: int|
            0 <= k < node_count - 1 ==> {
                let f = #[trigger] forward_step(k);
                &&& 1 <= f.moved < node_count
                &&& f.anchor + 1 == f.moved
                &&& f.segment == f.anchor
                &&& (f.before_anchor matches Some(p) ==> p + 1 == f.anchor)
                &&& (f.before_anchor is Some <==> f.moved >= 2)
            },
        forall|node: int|
            0 <= node < node_count - 1 ==> #[trigger] backward_step(node_count, node_count - 2 - node).moved
                == node,
        forall|node: int|
            1 <= node < node_count ==> #[trigger] forward_step(node - 1).moved == node,
        forall|j: int, k: int|
            0 <= j < k < node_count - 1 ==> #[trigger] backward_step(node_count, j).moved
                > #[trigger] backward_step(node_count, k).moved,
        forall|j: int, k: int|
            0 <= j < k < node_count - 1 ==> #[trigger] forward_step(j).moved
                < #[trigger] forward_step(k).moved,
{
}

} // verus!

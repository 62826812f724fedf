//! The rectangle that the nodes of a graph cover together.

use vstd::prelude::*;
use crate::graph::Node;
use crate::handle::{NODE_HEIGHT, NODE_WIDTH};

verus! {

/// Whether `m` is the least x coordinate among the positions of `nodes`.
pub open spec fn is_least_x<D>(nodes: Seq<Node<D>>, m: int) -> bool {
    &&& exists|i: int| 0 <= i < nodes.len() && (#[trigger] nodes[i]).position.x == m
    &&& forall|i: int| 0 <= i < nodes.len() ==> m <= (#[trigger] nodes[i]).position.x
}

/// Whether `m` is the greatest x coordinate among the positions of `nodes`.
pub open spec fn is_greatest_x<D>(nodes: Seq<Node<D>>, m: int) -> bool {
    &&& exists|i: int| 0 <= i < nodes.len() && (#[trigger] nodes[i]).position.x == m
    &&& forall|i: int| 0 <= i < nodes.len() ==> (#[trigger] nodes[i]).position.x <= m
}

/// Whether `m` is the least y coordinate among the positions of `nodes`.
pub open spec fn is_least_y<D>(nodes: Seq<Node<D>>, m: int) -> bool {
    &&& exists|i: int| 0 <= i < nodes.len() && (#[trigger] nodes[i]).position.y == m
    &&& forall|i: int| 0 <= i < nodes.len() ==> m <= (#[trigger] nodes[i]).position.y
}

/// Whether `m` is the greatest y coordinate among the positions of `nodes`.
pub open spec fn is_greatest_y<D>(nodes: Seq<Node<D>>, m: int) -> bool {
    &&& exists|i: int| 0 <= i < nodes.len() && (#[trigger] nodes[i]).position.y == m
    &&& forall|i: int| 0 <= i < nodes.len() ==> (#[trigger] nodes[i]).position.y <= m
}

/// The middle between `low` and the far side of a node of `extent` that
/// begins at `high`: `low` plus half of the distance, rounded down.
pub open spec fn middle(low: int, high: int, extent: int) -> int {
    low + (high + extent - low) / 2
}

/// Whether `(x, y)` is the centre of the rectangle that the nodes cover,
/// which reaches from the least position to the greatest position plus the
/// width and the height of a node, 150 and 80.
pub open spec fn is_center<D>(nodes: Seq<Node<D>>, x: int, y: int) -> bool {
    exists|left: int, right: int, top: int, bottom: int|
        {
            &&& #[trigger] is_least_x(nodes, left) && #[trigger] is_greatest_x(nodes, right)
            &&& #[trigger] is_least_y(nodes, top) && #[trigger] is_greatest_y(nodes, bottom)
            &&& x == middle(left, right, 150)
            &&& y == middle(top, bottom, 80)
        }
}

/// The x coordinate of the centre of the rectangle that the nodes cover.
pub open spec fn center_x<D>(nodes: Seq<Node<D>>) -> int {
    middle(choose|m: int| is_least_x(nodes, m), choose|m: int| is_greatest_x(nodes, m), 150)
}

/// The y coordinate of the centre of the rectangle that the nodes cover.
pub open spec fn center_y<D>(nodes: Seq<Node<D>>) -> int {
    middle(choose|m: int| is_least_y(nodes, m), choose|m: int| is_greatest_y(nodes, m), 80)
}

/// The nodes have one centre at most.
pub proof fn lemma_center<D>(nodes: Seq<Node<D>>, x: int, y: int)
    requires
        is_center(nodes, x, y),
    ensures
        x == center_x(nodes),
        y == center_y(nodes),
{
    let (left, right, top, bottom) = choose|left: int, right: int, top: int, bottom: int|
        {
            &&& #[trigger] is_least_x(nodes, left) && #[trigger] is_greatest_x(nodes, right)
            &&& #[trigger] is_least_y(nodes, top) && #[trigger] is_greatest_y(nodes, bottom)
            &&& x == middle(left, right, 150)
            &&& y == middle(top, bottom, 80)
        };
    let l = choose|m: int| is_least_x(nodes, m);
    let r = choose|m: int| is_greatest_x(nodes, m);
    let t = choose|m: int| is_least_y(nodes, m);
    let b = choose|m: int| is_greatest_y(nodes, m);
    assert(is_least_x(nodes, l) && is_greatest_x(nodes, r));
    assert(is_least_y(nodes, t) && is_greatest_y(nodes, b));
    assert(l == left && r == right && t == top && b == bottom);
}

/// The centre of the rectangle that the nodes cover, if there are any.
pub fn center_of<D>(nodes: &Vec<Node<D>>) -> (center: Option<(i128, i128)>)
    ensures
        match center {
            Some((x, y)) => {
                &&& nodes.len() > 0
                &&& is_center(nodes@, x as int, y as int)
                &&& x == center_x(nodes@)
                &&& y == center_y(nodes@)
                &&& i64::MIN <= x <= i64::MAX + NODE_WIDTH
                &&& i64::MIN <= y <= i64::MAX + NODE_HEIGHT
            },
            None => nodes.len() == 0,
        },
{
    if nodes.len() == 0 {
        return None;
    }
    let mut min_x: i64 = nodes[0].position.x;
    let mut max_x: i64 = nodes[0].position.x;
    let mut min_y: i64 = nodes[0].position.y;
    let mut max_y: i64 = nodes[0].position.y;
    let mut i: usize = 1;
    proof {
        assert(nodes@.take(1)[0] == nodes@[0]);
    }
    while i < nodes.len()
        invariant
            1 <= i <= nodes.len(),
            is_least_x(nodes@.take(i as int), min_x as int),
            is_greatest_x(nodes@.take(i as int), max_x as int),
            is_least_y(nodes@.take(i as int), min_y as int),
            is_greatest_y(nodes@.take(i as int), max_y as int),
        decreases nodes.len() - i,
    {
        let p = nodes[i].position;
        proof {
            let before = nodes@.take(i as int);
            let after = nodes@.take(i + 1);
            assert(forall|j: int| 0 <= j < i ==> after[j] == before[j]);
            assert(after[i as int].position == p);
            let ax = choose|j: int| 0 <= j < i && (#[trigger] before[j]).position.x == min_x;
            let bx = choose|j: int| 0 <= j < i && (#[trigger] before[j]).position.x == max_x;
            let ay = choose|j: int| 0 <= j < i && (#[trigger] before[j]).position.y == min_y;
            let by = choose|j: int| 0 <= j < i && (#[trigger] before[j]).position.y == max_y;
            assert(after[ax].position.x == min_x && after[bx].position.x == max_x);
            assert(after[ay].position.y == min_y && after[by].position.y == max_y);
        }
        if p.x < min_x {
            min_x = p.x;
        }
        if p.x > max_x {
            max_x = p.x;
        }
        if p.y < min_y {
            min_y = p.y;
        }
        if p.y > max_y {
            max_y = p.y;
        }
        i += 1;
    }
    let x: i128 = min_x as i128 + (max_x as i128 + NODE_WIDTH as i128 - min_x as i128) / 2;
    let y: i128 = min_y as i128 + (max_y as i128 + NODE_HEIGHT as i128 - min_y as i128) / 2;
    proof {
        assert(nodes@.take(nodes.len() as int) =~= nodes@);
        assert(is_least_x(nodes@, min_x as int) && is_greatest_x(nodes@, max_x as int));
        assert(is_least_y(nodes@, min_y as int) && is_greatest_y(nodes@, max_y as int));
        assert(x == middle(min_x as int, max_x as int, 150));
        assert(y == middle(min_y as int, max_y as int, 80));
        lemma_center(nodes@, x as int, y as int);
    }
    Some((x, y))
}

} // verus!

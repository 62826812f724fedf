//! The graph model: nodes, edges and the container that keeps them in the
//! order in which they were added.

use vstd::prelude::*;
use crate::geometry::Point;
use crate::handle::{
    anchor_among, handle_id_view, is_anchor, resolve_anchor, Handle, NODE_HEIGHT, NODE_WIDTH,
};
use crate::ident::{fresh_id, is_random_uuid};

verus! {

/// The type tag of a node that was given none.
pub open spec fn default_node_type() -> Seq<char> {
    "default"@
}

/// A node: an identity, a position in graph space, the user's payload, the
/// handles in their order, and a type tag. Every node covers the rectangle
/// of `NODE_WIDTH` by `NODE_HEIGHT` whose top-left corner is its position.
#[derive(Clone, Debug)]
pub struct Node<D> {
    pub id: u128,
    pub position: Point,
    pub data: D,
    pub handles: Vec<Handle>,
    pub node_type: String,
}

impl<D> Node<D> {
    /// Whether the graph-space point `p` lies in the node's rectangle. The
    /// left and top sides belong to it, the right and bottom sides do not.
    pub open spec fn spec_contains(&self, p: Point) -> bool {
        &&& self.position.x <= p.x < self.position.x + NODE_WIDTH
        &&& self.position.y <= p.y < self.position.y + NODE_HEIGHT
    }

    /// The node with only its position changed.
    pub open spec fn moved_to(self, position: Point) -> Node<D> {
        Node { position, ..self }
    }

    /// A node with a new random id, no handles and the type tag `"default"`.
    /// The id is the value of a random UUID; that it differs from the ids
    /// of other nodes is a matter of chance, and nothing relies on it.
    /// Making the id panics if the operating system has no random bytes to
    /// give.
    pub fn new(data: D, position: Point) -> (n: Node<D>)
        ensures
            is_random_uuid(n.id),
            n.position == position,
            n.data == data,
            n.handles@ == Seq::<Handle>::empty(),
            n.node_type@ == default_node_type(),
    {
        Node::with_id(fresh_id(), data, position)
    }

    /// A node with the id `id`, no handles and the type tag `"default"`.
    pub fn with_id(id: u128, data: D, position: Point) -> (n: Node<D>)
        ensures
            n.id == id,
            n.position == position,
            n.data == data,
            n.handles@ == Seq::<Handle>::empty(),
            n.node_type@ == default_node_type(),
    {
        Node { id, position, data, handles: Vec::new(), node_type: "default".to_owned() }
    }

    pub fn with_handles(self, handles: Vec<Handle>) -> (n: Node<D>)
        ensures
            n == (Node { handles, ..self }),
    {
        let mut node = self;
        node.handles = handles;
        node
    }

    pub fn with_type(self, node_type: &str) -> (n: Node<D>)
        ensures
            n.node_type@ == node_type@,
            n.id == self.id,
            n.position == self.position,
            n.data == self.data,
            n.handles == self.handles,
    {
        let mut node = self;
        node.node_type = node_type.to_owned();
        node
    }

    #[verifier::when_used_as_spec(spec_contains)]
    pub fn contains(&self, p: Point) -> (hit: bool)
        ensures
            hit == self.spec_contains(p),
    {
        let left: i128 = self.position.x as i128;
        let top: i128 = self.position.y as i128;
        let px: i128 = p.x as i128;
        let py: i128 = p.y as i128;
        left <= px && px < left + NODE_WIDTH as i128 && top <= py && py < top + NODE_HEIGHT as i128
    }

    /// The anchor for an optional handle id, relative to the node's origin:
    /// the middle of the side of the first handle of this node with that id,
    /// and `fallback` where no id is given or this node has no such handle.
    /// A miss is the ordinary case of an edge that names no handle; it is
    /// never an error.
    pub fn handle_anchor(&self, handle_id: Option<&String>, fallback: Point) -> (p: Point)
        ensures
            p == resolve_anchor(self.handles@, handle_id_view(handle_id), fallback),
            is_anchor(self.handles@, handle_id_view(handle_id), fallback, p),
    {
        anchor_among(&self.handles, handle_id, fallback)
    }
}

/// A directed edge between two nodes, given by their ids. Neither id has to
/// be that of a node in the graph: such an edge is kept and is not drawn.
#[derive(Clone, Debug)]
pub struct Edge {
    pub id: u128,
    pub source_id: u128,
    pub source_handle_id: Option<String>,
    pub target_id: u128,
    pub target_handle_id: Option<String>,
}

impl Edge {
    /// The id of the handle at which the edge leaves its source, if it
    /// names one.
    pub open spec fn source_handle(self) -> Option<Seq<char>> {
        match self.source_handle_id {
            Some(id) => Some(id@),
            None => None,
        }
    }

    /// The id of the handle at which the edge reaches its target, if it
    /// names one.
    pub open spec fn target_handle(self) -> Option<Seq<char>> {
        match self.target_handle_id {
            Some(id) => Some(id@),
            None => None,
        }
    }

    /// An edge with a new random id that names no handle at either end.
    /// Making the id panics if the operating system has no random bytes to
    /// give.
    pub fn new(source_id: u128, target_id: u128) -> (e: Edge)
        ensures
            is_random_uuid(e.id),
            e.source_id == source_id,
            e.target_id == target_id,
            e.source_handle() is None,
            e.target_handle() is None,
    {
        Edge::with_id(fresh_id(), source_id, target_id)
    }

    /// An edge with the id `id` that names no handle at either end.
    pub fn with_id(id: u128, source_id: u128, target_id: u128) -> (e: Edge)
        ensures
            e.id == id,
            e.source_id == source_id,
            e.target_id == target_id,
            e.source_handle() is None,
            e.target_handle() is None,
    {
        Edge { id, source_id, source_handle_id: None, target_id, target_handle_id: None }
    }

    pub fn with_handles(self, source_handle: &str, target_handle: &str) -> (e: Edge)
        ensures
            e.id == self.id,
            e.source_id == self.source_id,
            e.target_id == self.target_id,
            e.source_handle() == Some(source_handle@),
            e.target_handle() == Some(target_handle@),
    {
        let mut edge = self;
        edge.source_handle_id = Some(source_handle.to_owned());
        edge.target_handle_id = Some(target_handle.to_owned());
        edge
    }
}

/// Whether `i` is the first place in `nodes` that holds the id `id`.
pub open spec fn is_first_node<D>(nodes: Seq<Node<D>>, id: u128, i: int) -> bool {
    &&& 0 <= i < nodes.len()
    &&& nodes[i].id == id
    &&& forall|j: int| 0 <= j < i ==> (#[trigger] nodes[j]).id != id
}

/// Whether some node in `nodes` has the id `id`.
pub open spec fn has_node<D>(nodes: Seq<Node<D>>, id: u128) -> bool {
    exists|i: int| 0 <= i < nodes.len() && (#[trigger] nodes[i]).id == id
}

/// The place of the first node with the id `id`, if there is one.
pub open spec fn find_node<D>(nodes: Seq<Node<D>>, id: u128) -> Option<int> {
    if has_node(nodes, id) {
        Some(choose|i: int| is_first_node(nodes, id, i))
    } else {
        None
    }
}

/// A first place is the only first place.
pub proof fn lemma_first_node<D>(nodes: Seq<Node<D>>, id: u128, i: int)
    requires
        is_first_node(nodes, id, i),
    ensures
        find_node(nodes, id) == Some(i),
{
    let k = choose|k: int| is_first_node(nodes, id, k);
    assert(is_first_node(nodes, id, k));
    if k < i {
        assert(nodes[k].id != id);
    } else if i < k {
        assert(nodes[i].id != id);
    }
}

/// What a lookup by id finds is the first node with that id; what it misses
/// is the id of no node.
pub proof fn lemma_find_node<D>(nodes: Seq<Node<D>>, id: u128)
    ensures
        match find_node(nodes, id) {
            Some(i) => is_first_node(nodes, id, i),
            None => forall|j: int| 0 <= j < nodes.len() ==> nodes[j].id != id,
        },
{
    if has_node(nodes, id) {
        let k = choose|k: int| 0 <= k < nodes.len() && nodes[k].id == id;
        lemma_first_below(nodes, id, k);
    }
}

/// Below any place that holds the id there is a first one.
proof fn lemma_first_below<D>(nodes: Seq<Node<D>>, id: u128, k: int)
    requires
        0 <= k < nodes.len(),
        nodes[k].id == id,
    ensures
        exists|i: int| is_first_node(nodes, id, i),
    decreases k,
{
    if exists|j: int| 0 <= j < k && nodes[j].id == id {
        let j = choose|j: int| 0 <= j < k && nodes[j].id == id;
        lemma_first_below(nodes, id, j);
    } else {
        assert(is_first_node(nodes, id, k));
    }
}

/// Nodes and edges, each kept in the order of their insertion. Nothing is
/// ever removed, and nothing checks that ids are unique: a lookup by id
/// finds the node that was added first.
#[derive(Clone, Debug)]
pub struct Graph<D> {
    pub nodes: Vec<Node<D>>,
    pub edges: Vec<Edge>,
}

impl<D> Default for Graph<D> {
    fn default() -> (g: Graph<D>)
        ensures
            g.nodes@ == Seq::<Node<D>>::empty(),
            g.edges@ == Seq::<Edge>::empty(),
    {
        Graph { nodes: Vec::new(), edges: Vec::new() }
    }
}

impl<D> Graph<D> {
    pub fn new() -> (g: Graph<D>)
        ensures
            g.nodes@ == Seq::<Node<D>>::empty(),
            g.edges@ == Seq::<Edge>::empty(),
    {
        Graph { nodes: Vec::new(), edges: Vec::new() }
    }

    pub fn add_node(&mut self, node: Node<D>)
        ensures
            final(self).nodes@ == old(self).nodes@.push(node),
            final(self).nodes@[old(self).nodes@.len() as int] == node,
            forall|i: int|
                0 <= i < old(self).nodes@.len() ==> final(self).nodes@[i] == #[trigger] old(
                    self,
                ).nodes@[i],
            final(self).edges == old(self).edges,
    {
        self.nodes.push(node);
    }

    pub fn add_edge(&mut self, edge: Edge)
        ensures
            final(self).edges@ == old(self).edges@.push(edge),
            final(self).edges@[old(self).edges@.len() as int] == edge,
            forall|i: int|
                0 <= i < old(self).edges@.len() ==> final(self).edges@[i] == #[trigger] old(
                    self,
                ).edges@[i],
            final(self).nodes == old(self).nodes,
    {
        self.edges.push(edge);
    }

    /// The place of the first node with the id `id`.
    pub fn node_index(&self, id: u128) -> (found: Option<usize>)
        ensures
            match found {
                Some(i) => {
                    &&& i < self.nodes.len()
                    &&& find_node(self.nodes@, id) == Some(i as int)
                    &&& is_first_node(self.nodes@, id, i as int)
                },
                None => {
                    &&& find_node(self.nodes@, id) is None
                    &&& forall|j: int|
                        0 <= j < self.nodes.len() ==> (#[trigger] self.nodes@[j]).id != id
                },
            },
    {
        let mut i: usize = 0;
        while i < self.nodes.len()
            invariant
                0 <= i <= self.nodes.len(),
                forall|j: int| 0 <= j < i ==> self.nodes@[j].id != id,
            decreases self.nodes.len() - i,
        {
            if self.nodes[i].id == id {
                proof {
                    lemma_first_node(self.nodes@, id, i as int);
                }
                return Some(i);
            }
            i += 1;
        }
        None
    }

    /// The first node with the id `id`, by a scan in insertion order.
    pub fn get_node(&self, id: u128) -> (found: Option<&Node<D>>)
        ensures
            match find_node(self.nodes@, id) {
                Some(i) => found == Some(&self.nodes@[i]),
                None => found is None,
            },
            found is Some <==> has_node(self.nodes@, id),
            forall|i: int|
                0 <= i < self.nodes@.len() && (#[trigger] self.nodes@[i]).id == id
                    ==> found is Some,
            found matches Some(node) ==> node.id == id && exists|i: int|
                is_first_node(self.nodes@, id, i) && *node == self.nodes@[i],
    {
        proof {
            lemma_find_node(self.nodes@, id);
        }
        match self.node_index(id) {
            Some(i) => Some(&self.nodes[i]),
            None => None,
        }
    }
}

} // verus!

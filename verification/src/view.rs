//! The canvas: a graph, the viewport through which it is seen, and the
//! state machine that turns pointer input into node drags and canvas pans.

use vstd::prelude::*;
use crate::geometry::{fits_coord, Point};
use crate::extent::{center_of, center_x, center_y, is_center};
use crate::graph::{find_node, has_node, is_first_node, lemma_find_node, Edge, Graph, Node};
use crate::handle::{
    handle_id_view, has_handle, is_anchor, resolve_anchor, source_default_anchor,
    target_default_anchor, NODE_HEIGHT, NODE_WIDTH,
};
use crate::viewport::{lemma_round_trip, Viewport, ViewportModel};

verus! {

/// Width of the viewport that `fit_view` takes for granted.
pub const VIEW_WIDTH: u32 = 800;

/// Height of the viewport that `fit_view` takes for granted.
pub const VIEW_HEIGHT: u32 = 600;

/// What the canvas tells the layers above it.
#[derive(Clone, Debug)]
pub enum GraphEvent {
    /// The button went down on a handle. `position` is the handle's anchor
    /// in graph space.
    HandleClicked { node_id: u128, handle_id: String, position: Point },
}

/// What can reach the canvas from the pointer, the wheel and the buttons
/// of the control bar.
#[derive(Clone, Copy, Debug, PartialEq, Eq, Structural)]
pub enum CanvasInput {
    /// The button went down at this screen point, away from any handle.
    MouseDown(Point),
    /// The pointer is at this screen point.
    MouseMove(Point),
    /// The button was released.
    MouseUp,
    /// The wheel turned by this many pixels.
    Scroll(Point),
    /// The zoom-in button of the control bar.
    ZoomIn,
    /// The zoom-out button of the control bar.
    ZoomOut,
    /// The fit-view button of the control bar.
    FitView,
    /// The lock button of the control bar.
    ToggleLock,
}

/// What the pointer is doing, from a press to the release that ends it.
#[derive(Clone, Copy, Debug, PartialEq, Eq, Structural)]
pub enum Gesture {
    /// No button is held.
    Idle,
    /// The node `node_id` follows the pointer. `grab_offset` is where in the
    /// node it was grabbed: the pointer's graph-space position at the press
    /// minus the node's position then.
    DraggingNode { node_id: u128, grab_offset: Point },
    /// The canvas follows the pointer. `last_pointer` is the screen position
    /// of the pointer when it was last seen.
    Panning { last_pointer: Point },
}

/// Whether `i` is the place of the topmost node under the graph-space point
/// `p`: the node added last among those whose rectangle contains `p`.
pub open spec fn is_topmost_hit<D>(nodes: Seq<Node<D>>, p: Point, i: int) -> bool {
    &&& 0 <= i < nodes.len()
    &&& nodes[i].spec_contains(p)
    &&& forall|j: int| i < j < nodes.len() ==> !(#[trigger] nodes[j]).spec_contains(p)
}

/// Whether any node's rectangle contains the graph-space point `p`.
pub open spec fn hits_some<D>(nodes: Seq<Node<D>>, p: Point) -> bool {
    exists|i: int| 0 <= i < nodes.len() && (#[trigger] nodes[i]).spec_contains(p)
}

/// The place of the topmost node under `p`, if `p` is in any node.
pub open spec fn topmost_hit<D>(nodes: Seq<Node<D>>, p: Point) -> Option<int> {
    if hits_some(nodes, p) {
        Some(choose|i: int| is_topmost_hit(nodes, p, i))
    } else {
        None
    }
}

/// A topmost node is the only topmost node.
pub proof fn lemma_topmost_hit<D>(nodes: Seq<Node<D>>, p: Point, i: int)
    requires
        is_topmost_hit(nodes, p, i),
    ensures
        topmost_hit(nodes, p) == Some(i),
{
    let k = choose|k: int| is_topmost_hit(nodes, p, k);
    assert(is_topmost_hit(nodes, p, k));
    if k < i {
        assert(!nodes[i].spec_contains(p));
    } else if i < k {
        assert(!nodes[k].spec_contains(p));
    }
}

/// Above any node that contains the point there is a topmost one.
proof fn lemma_topmost_above<D>(nodes: Seq<Node<D>>, p: Point, k: int)
    requires
        0 <= k < nodes.len(),
        nodes[k].spec_contains(p),
    ensures
        exists|i: int| k <= i && is_topmost_hit(nodes, p, i),
    decreases nodes.len() - k,
{
    if exists|j: int| k < j < nodes.len() && nodes[j].spec_contains(p) {
        let j = choose|j: int| k < j < nodes.len() && nodes[j].spec_contains(p);
        lemma_topmost_above(nodes, p, j);
    } else {
        assert(is_topmost_hit(nodes, p, k));
    }
}

/// What a hit test finds is the topmost node that contains the point; what
/// it misses is in no node.
pub proof fn lemma_hit_test<D>(nodes: Seq<Node<D>>, p: Point)
    ensures
        match topmost_hit(nodes, p) {
            Some(i) => is_topmost_hit(nodes, p, i),
            None => forall|j: int| 0 <= j < nodes.len() ==> !nodes[j].spec_contains(p),
        },
{
    if hits_some(nodes, p) {
        let k = choose|k: int| 0 <= k < nodes.len() && nodes[k].spec_contains(p);
        lemma_topmost_above(nodes, p, k);
    }
}

/// What a `GraphView` stands for in contracts.
pub struct CanvasModel<D> {
    pub nodes: Seq<Node<D>>,
    pub edges: Seq<Edge>,
    pub viewport: ViewportModel,
    pub gesture: Gesture,
    pub locked: bool,
}

impl<D> CanvasModel<D> {
    /// The zoom factor is within its bounds.
    pub open spec fn wf(self) -> bool {
        self.viewport.wf()
    }

    /// The empty canvas: no nodes, no edges, no pan, zoom 1.0, no gesture,
    /// unlocked.
    pub open spec fn initial() -> CanvasModel<D> {
        CanvasModel {
            nodes: Seq::empty(),
            edges: Seq::empty(),
            viewport: ViewportModel::initial(),
            gesture: Gesture::Idle,
            locked: false,
        }
    }

    pub open spec fn with_node(self, node: Node<D>) -> CanvasModel<D> {
        CanvasModel { nodes: self.nodes.push(node), ..self }
    }

    pub open spec fn with_edge(self, edge: Edge) -> CanvasModel<D> {
        CanvasModel { edges: self.edges.push(edge), ..self }
    }

    /// After a press at the screen point `position`. Whatever gesture there
    /// was is forgotten. If the point is in a node, the topmost such node
    /// is grabbed at the point; otherwise the canvas is.
    pub open spec fn pressed(self, position: Point) -> CanvasModel<D> {
        let p = self.viewport.to_graph(position);
        let gesture = match topmost_hit(self.nodes, p) {
            Some(i) => Gesture::DraggingNode {
                node_id: self.nodes[i].id,
                grab_offset: p.spec_minus(self.nodes[i].position),
            },
            None => Gesture::Panning { last_pointer: position },
        };
        CanvasModel { gesture, ..self }
    }

    /// After the pointer has moved to the screen point `position`. A
    /// dragged node goes to the pointer's graph-space position minus the
    /// grab offset, if the graph still has a node with its id. A grabbed
    /// canvas pans by the pointer's displacement since it was last seen.
    pub open spec fn moved(self, position: Point) -> CanvasModel<D> {
        match self.gesture {
            Gesture::Idle => self,
            Gesture::DraggingNode { node_id, grab_offset } => match find_node(
                self.nodes,
                node_id,
            ) {
                Some(i) => CanvasModel {
                    nodes: self.nodes.update(
                        i,
                        self.nodes[i].moved_to(
                            self.viewport.to_graph(position).spec_minus(grab_offset),
                        ),
                    ),
                    ..self
                },
                None => self,
            },
            Gesture::Panning { last_pointer } => CanvasModel {
                viewport: self.viewport.panned(position.spec_minus(last_pointer)),
                gesture: Gesture::Panning { last_pointer: position },
                ..self
            },
        }
    }

    /// After a release: no gesture, and nothing else changed.
    pub open spec fn released(self) -> CanvasModel<D> {
        CanvasModel { gesture: Gesture::Idle, ..self }
    }

    /// After a scroll by `delta`: a pan by `delta` where the scroll has no
    /// vertical part or is mostly horizontal, a zoom by the factor 1.1
    /// otherwise. The lock does not hold back the wheel.
    pub open spec fn scrolled(self, delta: Point) -> CanvasModel<D> {
        CanvasModel { viewport: self.viewport.scrolled(delta), ..self }
    }

    /// After a press of the zoom-in button, which a locked canvas ignores.
    pub open spec fn zoomed_in(self) -> CanvasModel<D> {
        if self.locked {
            self
        } else {
            CanvasModel { viewport: self.viewport.zoomed_in(), ..self }
        }
    }

    /// After a press of the zoom-out button, which a locked canvas ignores.
    pub open spec fn zoomed_out(self) -> CanvasModel<D> {
        if self.locked {
            self
        } else {
            CanvasModel { viewport: self.viewport.zoomed_out(), ..self }
        }
    }

    pub open spec fn lock_toggled(self) -> CanvasModel<D> {
        CanvasModel { locked: !self.locked, ..self }
    }

    /// After a request to fit the graph into a viewport of `width` by
    /// `height` pixels: zoom 1.0, and the centre of the rectangle that the
    /// nodes cover in the middle of the viewport. A locked canvas and one
    /// without nodes ignore the request.
    pub open spec fn fitted(self, width: int, height: int) -> CanvasModel<D> {
        if self.locked || self.nodes.len() == 0 {
            self
        } else {
            CanvasModel {
                viewport: ViewportModel::centered(
                    center_x(self.nodes),
                    center_y(self.nodes),
                    width,
                    height,
                ),
                ..self
            }
        }
    }

    /// After one input.
    pub open spec fn step(self, input: CanvasInput) -> CanvasModel<D> {
        match input {
            CanvasInput::MouseDown(position) => self.pressed(position),
            CanvasInput::MouseMove(position) => self.moved(position),
            CanvasInput::MouseUp => self.released(),
            CanvasInput::Scroll(delta) => self.scrolled(delta),
            CanvasInput::ZoomIn => self.zoomed_in(),
            CanvasInput::ZoomOut => self.zoomed_out(),
            CanvasInput::FitView => self.fitted(VIEW_WIDTH as int, VIEW_HEIGHT as int),
            CanvasInput::ToggleLock => self.lock_toggled(),
        }
    }

    /// After a run of inputs, the first of `inputs` first.
    pub open spec fn after(self, inputs: Seq<CanvasInput>) -> CanvasModel<D>
        decreases inputs.len(),
    {
        if inputs.len() == 0 {
            self
        } else {
            self.after(inputs.drop_last()).step(inputs.last())
        }
    }

    /// The graph-space anchor of a handle: the position of the first node
    /// with the id `node_id` plus the anchor that the handle id resolves to
    /// on that node, `fallback` where it resolves to none. There is no
    /// anchor where no node has the id.
    pub open spec fn anchor(
        self,
        node_id: u128,
        handle_id: Option<Seq<char>>,
        fallback: Point,
    ) -> Option<Point> {
        match find_node(self.nodes, node_id) {
            Some(i) => Some(
                self.nodes[i].position.spec_plus(
                    resolve_anchor(self.nodes[i].handles@, handle_id, fallback),
                ),
            ),
            None => None,
        }
    }

    /// Whether `a` is the graph-space anchor of a handle: the same as
    /// `anchor`, said of a given point.
    pub open spec fn is_anchor_at(
        self,
        node_id: u128,
        handle_id: Option<Seq<char>>,
        fallback: Point,
        a: Point,
    ) -> bool {
        exists|i: int, local: Point|
            {
                &&& #[trigger] is_first_node(self.nodes, node_id, i)
                &&& #[trigger] is_anchor(self.nodes[i].handles@, handle_id, fallback, local)
                &&& a == self.nodes[i].position.spec_plus(local)
            }
    }

    /// The two screen points between which `edge` is drawn, source first.
    /// An edge that names no handle, or one that its node does not have,
    /// leaves the source at the middle of its bottom side and reaches the
    /// target at the middle of its top side. An edge whose source or target
    /// is no node of the graph is not drawn.
    pub open spec fn edge_ends(self, edge: Edge) -> Option<(Point, Point)> {
        match (
            self.anchor(edge.source_id, edge.source_handle(), source_default_anchor()),
            self.anchor(edge.target_id, edge.target_handle(), target_default_anchor()),
        ) {
            (Some(source), Some(target)) => Some(
                (self.viewport.to_screen(source), self.viewport.to_screen(target)),
            ),
            _ => None,
        }
    }

    /// Where the node at `i` is shown: the screen point of its top-left
    /// corner, and its width and height on screen.
    pub open spec fn node_frame(self, i: int) -> (Point, Point) {
        (
            self.viewport.to_screen(self.nodes[i].position),
            Point {
                x: self.viewport.length_on_screen(NODE_WIDTH as int),
                y: self.viewport.length_on_screen(NODE_HEIGHT as int),
            },
        )
    }

    /// The lines of all edges that are drawn, in the edges' order.
    pub open spec fn edge_lines(self) -> Seq<(Point, Point)> {
        self.edges.filter_map(|edge: Edge| self.edge_ends(edge))
    }
}

/// Of the nodes under the pointer the one added last is on top: where the
/// nodes at `a` and at `b`, added later, both contain the point of a press,
/// the press grabs a node at `b` or after it, never the one at `a`; and it
/// grabs the one at `b` if no node added after it contains the point.
pub proof fn lemma_press_grabs_topmost<D>(m: CanvasModel<D>, position: Point, a: int, b: int)
    requires
        0 <= a < b < m.nodes.len(),
        m.nodes[a].spec_contains(m.viewport.to_graph(position)),
        m.nodes[b].spec_contains(m.viewport.to_graph(position)),
    ensures
        ({
            let p = m.viewport.to_graph(position);
            &&& topmost_hit(m.nodes, p) matches Some(i) && b <= i < m.nodes.len()
                && m.pressed(position).gesture == (Gesture::DraggingNode {
                node_id: m.nodes[i].id,
                grab_offset: p.spec_minus(m.nodes[i].position),
            })
            &&& (forall|j: int| b < j < m.nodes.len() ==> !m.nodes[j].spec_contains(p))
                ==> topmost_hit(m.nodes, p) == Some(b)
        }),
{
    let p = m.viewport.to_graph(position);
    lemma_hit_test(m.nodes, p);
    if forall|j: int| b < j < m.nodes.len() ==> !m.nodes[j].spec_contains(p) {
        lemma_topmost_hit(m.nodes, p, b);
    }
}

/// A dragged node keeps the point at which it was grabbed under the
/// pointer. After a press that grabs the node at `i` and a move to the
/// screen point `to`, that node's position is the pointer's graph-space
/// position minus the grab offset, not the pointer's position itself, and
/// no other node has changed. Where no coordinate saturates on the way,
/// the node has moved by exactly what the pointer moved in graph space.
pub proof fn lemma_drag_keeps_grab_point<D>(m: CanvasModel<D>, press: Point, to: Point, i: int)
    requires
        topmost_hit(m.nodes, m.viewport.to_graph(press)) == Some(i),
        find_node(m.nodes, m.nodes[i].id) == Some(i),
    ensures
        ({
            let from = m.viewport.to_graph(press);
            let p = m.viewport.to_graph(to);
            let grab = from.spec_minus(m.nodes[i].position);
            let origin = m.nodes[i].position;
            let after = m.pressed(press).moved(to);
            &&& after.nodes == m.nodes.update(i, m.nodes[i].moved_to(p.spec_minus(grab)))
            &&& after.nodes[i].position == p.spec_minus(grab)
            &&& fits_coord(from.x - origin.x) && fits_coord(origin.x + (p.x - from.x))
                ==> after.nodes[i].position.x == origin.x + (p.x - from.x)
            &&& fits_coord(from.y - origin.y) && fits_coord(origin.y + (p.y - from.y))
                ==> after.nodes[i].position.y == origin.y + (p.y - from.y)
        }),
{
    lemma_hit_test(m.nodes, m.viewport.to_graph(press));
}

/// A dragged node stays under the pointer. After a move to the screen
/// point `position` during a drag of the node at `i`, the point of the node
/// that was grabbed is shown where the pointer is: at `position` itself at
/// zoom factors up to 1.0, and within `round_trip_error()` pixels of it
/// above. This holds wherever no coordinate saturates on the way.
pub proof fn lemma_dragged_node_stays_under_pointer<D>(
    m: CanvasModel<D>,
    position: Point,
    i: int,
)
    requires
        m.wf(),
        m.gesture is DraggingNode,
        find_node(m.nodes, m.gesture->node_id) == Some(i),
        m.viewport.reaches(position),
        fits_coord(m.viewport.to_graph(position).x - m.gesture->grab_offset.x),
        fits_coord(m.viewport.to_graph(position).y - m.gesture->grab_offset.y),
    ensures
        m.viewport.is_near(
            m.viewport.to_screen(
                m.moved(position).nodes[i].position.spec_plus(m.gesture->grab_offset),
            ),
            position,
        ),
{
    lemma_find_node(m.nodes, m.gesture->node_id);
    lemma_round_trip(m.viewport, position);
    let p = m.viewport.to_graph(position);
    let grab = m.gesture->grab_offset;
    assert(p.spec_minus(grab).spec_plus(grab) == p);
}

/// No input takes the zoom factor out of its bounds, and no run of inputs
/// does: whatever is pressed, dragged, scrolled or clicked, in whatever
/// order, the zoom factor stays between 0.1 and 5.0.
pub proof fn lemma_zoom_always_in_bounds<D>(m: CanvasModel<D>, inputs: Seq<CanvasInput>)
    requires
        m.wf(),
    ensures
        m.after(inputs).wf(),
        100 <= m.after(inputs).viewport.zoom <= 5000,
    decreases inputs.len(),
{
    if inputs.len() > 0 {
        lemma_zoom_always_in_bounds(m, inputs.drop_last());
    }
}

/// A second release in a row changes nothing.
pub proof fn lemma_release_twice<D>(m: CanvasModel<D>)
    ensures
        m.released().released() == m.released(),
        m.gesture is Idle ==> m.released() == m,
{
}

/// An edge that names a handle which its node does not have is drawn all
/// the same, from and to the default anchors: the middle of the source's
/// bottom side, the middle of the target's top side.
pub proof fn lemma_missing_handle_falls_back<D>(m: CanvasModel<D>, edge: Edge, s: int, t: int)
    requires
        find_node(m.nodes, edge.source_id) == Some(s),
        find_node(m.nodes, edge.target_id) == Some(t),
    ensures
        m.edge_ends(edge) matches Some((source, target)) && ({
            let source_missing = edge.source_handle() is Some && !has_handle(
                m.nodes[s].handles@,
                edge.source_handle().unwrap(),
            );
            let target_missing = edge.target_handle() is Some && !has_handle(
                m.nodes[t].handles@,
                edge.target_handle().unwrap(),
            );
            &&& source_missing ==> source == m.viewport.to_screen(
                m.nodes[s].position.spec_plus(source_default_anchor()),
            )
            &&& target_missing ==> target == m.viewport.to_screen(
                m.nodes[t].position.spec_plus(target_default_anchor()),
            )
        }),
{
}

/// What a handle-clicked event says, in the terms of contracts.
pub open spec fn is_handle_clicked(
    event: GraphEvent,
    node_id: u128,
    handle_id: Seq<char>,
    position: Point,
) -> bool {
    &&& event->node_id == node_id
    &&& event->handle_id@ == handle_id
    &&& event->position == position
}

/// The canvas view: it owns the graph and the viewport, and it is what
/// moves nodes and pans when the pointer drags.
pub struct GraphView<D> {
    graph: Graph<D>,
    viewport: Viewport,
    gesture: Gesture,
    locked: bool,
}

impl<D> View for GraphView<D> {
    type V = CanvasModel<D>;

    closed spec fn view(&self) -> CanvasModel<D> {
        CanvasModel {
            nodes: self.graph.nodes@,
            edges: self.graph.edges@,
            viewport: self.viewport@,
            gesture: self.gesture,
            locked: self.locked,
        }
    }
}

impl<D> GraphView<D> {
    pub fn new() -> (view: GraphView<D>)
        ensures
            view@ == CanvasModel::<D>::initial(),
    {
        GraphView {
            graph: Graph::new(),
            viewport: Viewport::new(),
            gesture: Gesture::Idle,
            locked: false,
        }
    }

    pub fn add_node(&mut self, node: Node<D>)
        ensures
            final(self)@ == old(self)@.with_node(node),
            final(self)@.nodes[old(self)@.nodes.len() as int] == node,
            forall|i: int|
                0 <= i < old(self)@.nodes.len() ==> final(self)@.nodes[i] == #[trigger] old(
                    self,
                )@.nodes[i],
            final(self)@.wf(),
    {
        proof {
            use_type_invariant(&self.viewport);
        }
        self.graph.add_node(node);
    }

    pub fn add_edge(&mut self, edge: Edge)
        ensures
            final(self)@ == old(self)@.with_edge(edge),
            final(self)@.edges[old(self)@.edges.len() as int] == edge,
            forall|i: int|
                0 <= i < old(self)@.edges.len() ==> final(self)@.edges[i] == #[trigger] old(
                    self,
                )@.edges[i],
            final(self)@.wf(),
    {
        proof {
            use_type_invariant(&self.viewport);
        }
        self.graph.add_edge(edge);
    }

    /// The graph as it stands.
    pub fn graph(&self) -> (graph: &Graph<D>)
        ensures
            graph.nodes@ == self@.nodes,
            graph.edges@ == self@.edges,
    {
        &self.graph
    }

    /// The graph, for a caller that adds to it. Whatever the caller does to
    /// the graph, the viewport, the gesture and the lock stay as they are.
    pub fn graph_mut(&mut self) -> (graph: &mut Graph<D>)
        ensures
            graph.nodes@ == old(self)@.nodes,
            graph.edges@ == old(self)@.edges,
            final(self)@ == (CanvasModel {
                nodes: final(graph).nodes@,
                edges: final(graph).edges@,
                ..old(self)@
            }),
    {
        &mut self.graph
    }

    /// A snapshot of the viewport.
    pub fn viewport(&self) -> (viewport: Viewport)
        ensures
            viewport@ == self@.viewport,
            self@.wf(),
    {
        proof {
            use_type_invariant(&self.viewport);
        }
        self.viewport
    }

    pub fn gesture(&self) -> (gesture: Gesture)
        ensures
            gesture == self@.gesture,
    {
        self.gesture
    }

    pub fn is_locked(&self) -> (locked: bool)
        ensures
            locked == self@.locked,
    {
        self.locked
    }

    /// The place of the topmost node under the graph-space point `p`: the
    /// nodes are tried from the one added last to the one added first.
    pub fn hit_test(&self, p: Point) -> (hit: Option<usize>)
        ensures
            match hit {
                Some(i) => {
                    &&& i < self@.nodes.len()
                    &&& topmost_hit(self@.nodes, p) == Some(i as int)
                    &&& is_topmost_hit(self@.nodes, p, i as int)
                },
                None => {
                    &&& topmost_hit(self@.nodes, p) is None
                    &&& forall|j: int|
                        0 <= j < self@.nodes.len() ==> !(#[trigger] self@.nodes[j]).spec_contains(
                            p,
                        )
                },
            },
    {
        let mut i: usize = self.graph.nodes.len();
        while i > 0
            invariant
                i <= self.graph.nodes.len(),
                forall|j: int| i <= j < self.graph.nodes.len() ==> !self.graph.nodes@[j].spec_contains(p),
            decreases i,
        {
            i -= 1;
            if self.graph.nodes[i].contains(p) {
                proof {
                    lemma_topmost_hit(self.graph.nodes@, p, i as int);
                }
                return Some(i);
            }
        }
        None
    }

    /// The button is pressed at the screen point `position`, away from any
    /// handle. A press in a node starts a drag of the topmost such node and
    /// remembers where in the node the pointer is; a press elsewhere starts
    /// a pan. A gesture that was never released is dropped.
    pub fn handle_mouse_down(&mut self, position: Point)
        ensures
            final(self)@ == old(self)@.pressed(position),
            final(self)@.wf(),
            ({
                let nodes = old(self)@.nodes;
                let p = old(self)@.viewport.to_graph(position);
                match final(self)@.gesture {
                    Gesture::DraggingNode { node_id, grab_offset } => exists|i: int|
                        is_topmost_hit(nodes, p, i) && node_id == nodes[i].id && grab_offset
                            == p.spec_minus(nodes[i].position),
                    Gesture::Panning { last_pointer } => last_pointer == position && forall|
                        j: int,
                    |
                        0 <= j < nodes.len() ==> !(#[trigger] nodes[j]).spec_contains(p),
                    Gesture::Idle => false,
                }
            }),
    {
        proof {
            use_type_invariant(&self.viewport);
        }
        let p = self.viewport.to_graph(position);
        match self.hit_test(p) {
            Some(i) => {
                self.gesture = Gesture::DraggingNode {
                    node_id: self.graph.nodes[i].id,
                    grab_offset: p.minus(self.graph.nodes[i].position),
                };
            },
            None => {
                self.gesture = Gesture::Panning { last_pointer: position };
            },
        }
    }

    /// The pointer is at the screen point `position`. During a drag the
    /// node goes to the pointer's graph-space position minus the grab
    /// offset, wherever that is; during a pan the pan offset moves by what
    /// the pointer moved. Without a gesture nothing changes.
    pub fn handle_mouse_move(&mut self, position: Point)
        ensures
            final(self)@ == old(self)@.moved(position),
            final(self)@.wf(),
            final(self)@.nodes.len() == old(self)@.nodes.len(),
            forall|i: int|
                0 <= i < old(self)@.nodes.len() ==> final(self)@.nodes[i].id == (#[trigger] old(
                    self,
                )@.nodes[i]).id,
            old(self)@.gesture matches Gesture::DraggingNode { node_id, grab_offset } ==> {
                let nodes = old(self)@.nodes;
                let target = old(self)@.viewport.to_graph(position).spec_minus(grab_offset);
                &&& forall|i: int|
                    0 <= i < nodes.len() && (#[trigger] nodes[i]).id == node_id ==> exists|k: int|
                        is_first_node(nodes, node_id, k) && final(self)@.nodes == nodes.update(
                            k,
                            nodes[k].moved_to(target),
                        )
                &&& (forall|i: int| 0 <= i < nodes.len() ==> (#[trigger] nodes[i]).id != node_id)
                    ==> final(self)@ == old(self)@
            },
    {
        proof {
            use_type_invariant(&self.viewport);
        }
        match self.gesture {
            Gesture::Idle => {},
            Gesture::DraggingNode { node_id, grab_offset } => {
                proof {
                    lemma_find_node(self.graph.nodes@, node_id);
                }
                let target = self.viewport.to_graph(position).minus(grab_offset);
                match self.graph.node_index(node_id) {
                    Some(i) => {
                        self.graph.nodes[i].position = target;
                    },
                    None => {},
                }
            },
            Gesture::Panning { last_pointer } => {
                self.viewport.pan_by(position.minus(last_pointer));
                self.gesture = Gesture::Panning { last_pointer: position };
            },
        }
    }

    /// A scroll by `delta` pixels. A scroll without a vertical part, and
    /// one that is mostly horizontal (its horizontal part is the greater in
    /// magnitude), pans: both parts of `delta` are added to the pan offset
    /// and the zoom factor stays. Any other scroll zooms by the factor 1.1,
    /// in for a positive vertical part and out for a negative one, and the
    /// pan offset stays. It works on a locked canvas too.
    pub fn handle_scroll_wheel(&mut self, delta: Point)
        ensures
            final(self)@ == old(self)@.scrolled(delta),
            final(self)@.wf(),
            ViewportModel::scroll_pans(delta) ==> final(self)@.viewport.zoom == old(
                self,
            )@.viewport.zoom && final(self)@.viewport.pan == old(self)@.viewport.pan.spec_plus(
                delta,
            ),
            !ViewportModel::scroll_pans(delta) ==> final(self)@.viewport.pan == old(
                self,
            )@.viewport.pan,
    {
        self.viewport.scroll(delta);
    }

    /// The button is released: whatever gesture there was is over. Without
    /// a gesture nothing changes. A release does nothing else, so a host
    /// that wants to give up a drag or a pan calls this too: the node and
    /// the pan offset stay where the gesture has brought them.
    pub fn handle_mouse_up(&mut self)
        ensures
            final(self)@ == old(self)@.released(),
            old(self)@.gesture is Idle ==> final(self)@ == old(self)@,
            final(self)@.wf(),
    {
        proof {
            use_type_invariant(&self.viewport);
        }
        self.gesture = Gesture::Idle;
    }

    /// Zoom in by the factor 1.2, unless the canvas is locked.
    pub fn zoom_in(&mut self)
        ensures
            final(self)@ == old(self)@.zoomed_in(),
            final(self)@.wf(),
    {
        proof {
            use_type_invariant(&self.viewport);
        }
        if !self.locked {
            self.viewport.zoom_in();
        }
    }

    /// Zoom out by the factor 1.2, unless the canvas is locked.
    pub fn zoom_out(&mut self)
        ensures
            final(self)@ == old(self)@.zoomed_out(),
            final(self)@.wf(),
    {
        proof {
            use_type_invariant(&self.viewport);
        }
        if !self.locked {
            self.viewport.zoom_out();
        }
    }

    /// Fits the graph into a viewport of `width` by `height` pixels: zoom
    /// 1.0, and the centre of the rectangle that the nodes cover in the
    /// middle. Nothing happens on a locked canvas or without nodes.
    pub fn fit_view_in(&mut self, width: u32, height: u32)
        ensures
            final(self)@ == old(self)@.fitted(width as int, height as int),
            final(self)@.wf(),
            !old(self)@.locked && old(self)@.nodes.len() > 0 ==> exists|x: int, y: int| #[trigger]
                is_center(old(self)@.nodes, x, y) && final(self)@.viewport
                    == ViewportModel::centered(x, y, width as int, height as int),
    {
        proof {
            use_type_invariant(&self.viewport);
        }
        if !self.locked {
            match center_of(&self.graph.nodes) {
                Some((x, y)) => {
                    self.viewport.center_on(x, y, width, height);
                },
                None => {},
            }
        }
    }

    /// Fits the graph into a viewport of `VIEW_WIDTH` by `VIEW_HEIGHT`
    /// pixels.
    pub fn fit_view(&mut self)
        ensures
            final(self)@ == old(self)@.fitted(VIEW_WIDTH as int, VIEW_HEIGHT as int),
            final(self)@.wf(),
            !old(self)@.locked && old(self)@.nodes.len() > 0 ==> exists|x: int, y: int| #[trigger]
                is_center(old(self)@.nodes, x, y) && final(self)@.viewport
                    == ViewportModel::centered(x, y, 800, 600),
    {
        self.fit_view_in(VIEW_WIDTH, VIEW_HEIGHT);
    }

    /// The graph-space anchor of a handle of the first node with the id
    /// `node_id`; `fallback`, taken from the node's position, where the
    /// handle id is absent or the node has no such handle.
    pub fn anchor(&self, node_id: u128, handle_id: Option<&String>, fallback: Point) -> (anchor:
        Option<Point>)
        ensures
            anchor == self@.anchor(node_id, handle_id_view(handle_id), fallback),
            forall|i: int|
                0 <= i < self@.nodes.len() && (#[trigger] self@.nodes[i]).id == node_id
                    ==> anchor is Some,
            anchor matches Some(a) ==> self@.is_anchor_at(
                node_id,
                handle_id_view(handle_id),
                fallback,
                a,
            ),
    {
        proof {
            lemma_find_node(self@.nodes, node_id);
        }
        match self.graph.get_node(node_id) {
            Some(node) => Some(node.position.plus(node.handle_anchor(handle_id, fallback))),
            None => None,
        }
    }

    /// The button went down on the handle `handle_id` of the node
    /// `node_id`, as the layer that draws the handles found. The event to
    /// send carries the handle's anchor in graph space. The gesture is left
    /// as it is: a press on a handle never starts a drag or a pan. There is
    /// no event where the graph has no such node.
    pub fn handle_click(&self, node_id: u128, handle_id: &String) -> (event: Option<GraphEvent>)
        ensures
            match self@.anchor(node_id, Some(handle_id@), source_default_anchor()) {
                Some(position) => event matches Some(e) && is_handle_clicked(
                    e,
                    node_id,
                    handle_id@,
                    position,
                ),
                None => event is None,
            },
            forall|i: int|
                0 <= i < self@.nodes.len() && (#[trigger] self@.nodes[i]).id == node_id
                    ==> event is Some,
            event matches Some(e) ==> e->node_id == node_id && e->handle_id@ == handle_id@
                && self@.is_anchor_at(
                node_id,
                Some(handle_id@),
                source_default_anchor(),
                e->position,
            ),
    {
        match self.anchor(node_id, Some(handle_id), source_default_anchor()) {
            Some(position) => Some(
                GraphEvent::HandleClicked { node_id, handle_id: handle_id.clone(), position },
            ),
            None => None,
        }
    }

    /// The button went down at the screen point `position`; `on_handle`
    /// names the node and the handle whose marker is under the pointer, if
    /// the layer that draws the markers found one. A marker lies on top of
    /// its node, so a press on one is a handle click and nothing else: the
    /// event is handed back and the gesture stays as it was. Any other
    /// press starts a drag or a pan and hands back no event.
    pub fn handle_press(&mut self, position: Point, on_handle: Option<(u128, &String)>) -> (event:
        Option<GraphEvent>)
        ensures
            match on_handle {
                Some((node_id, handle_id)) => {
                    &&& final(self)@ == old(self)@
                    &&& match old(self)@.anchor(
                        node_id,
                        Some(handle_id@),
                        source_default_anchor(),
                    ) {
                        Some(anchor) => event matches Some(e) && is_handle_clicked(
                            e,
                            node_id,
                            handle_id@,
                            anchor,
                        ),
                        None => event is None,
                    }
                },
                None => final(self)@ == old(self)@.pressed(position) && event is None,
            },
            final(self)@.wf(),
    {
        proof {
            use_type_invariant(&self.viewport);
        }
        match on_handle {
            Some((node_id, handle_id)) => self.handle_click(node_id, handle_id),
            None => {
                self.handle_mouse_down(position);
                None
            },
        }
    }

    /// The two screen points between which `edge` is drawn, source first,
    /// or nothing for an edge that is not drawn.
    pub fn edge_endpoints(&self, edge: &Edge) -> (ends: Option<(Point, Point)>)
        ensures
            ends == self@.edge_ends(*edge),
            has_node(self@.nodes, edge.source_id) && has_node(self@.nodes, edge.target_id)
                <==> ends is Some,
            ends matches Some((source, target)) ==> exists|a: Point, b: Point|
                {
                    &&& #[trigger] self@.is_anchor_at(
                        edge.source_id,
                        edge.source_handle(),
                        source_default_anchor(),
                        a,
                    )
                    &&& #[trigger] self@.is_anchor_at(
                        edge.target_id,
                        edge.target_handle(),
                        target_default_anchor(),
                        b,
                    )
                    &&& source == self@.viewport.to_screen(a)
                    &&& target == self@.viewport.to_screen(b)
                },
    {
        let source = self.anchor(
            edge.source_id,
            edge.source_handle_id.as_ref(),
            source_default_anchor(),
        );
        let target = self.anchor(
            edge.target_id,
            edge.target_handle_id.as_ref(),
            target_default_anchor(),
        );
        match (source, target) {
            (Some(s), Some(t)) => Some((self.viewport.to_screen(s), self.viewport.to_screen(t))),
            _ => None,
        }
    }

    /// The lines of all edges that are drawn, in the edges' order.
    pub fn edge_lines(&self) -> (lines: Vec<(Point, Point)>)
        ensures
            lines@ == self@.edge_lines(),
    {
        let mut lines: Vec<(Point, Point)> = Vec::new();
        let ghost ends = |edge: Edge| self@.edge_ends(edge);
        let mut i: usize = 0;
        while i < self.graph.edges.len()
            invariant
                0 <= i <= self.graph.edges.len(),
                ends == (|edge: Edge| self@.edge_ends(edge)),
                lines@ == self.graph.edges@.take(i as int).filter_map(ends),
            decreases self.graph.edges.len() - i,
        {
            proof {
                self.graph.edges@.lemma_filter_map_take_succ(ends, i as int);
            }
            match self.edge_endpoints(&self.graph.edges[i]) {
                Some(line) => {
                    lines.push(line);
                },
                None => {},
            }
            i += 1;
        }
        proof {
            assert(self.graph.edges@.take(self.graph.edges.len() as int) =~= self.graph.edges@);
        }
        lines
    }

    /// Where each node is shown, in the nodes' order: the screen point of
    /// its top-left corner, and its width and height on screen.
    pub fn node_frames(&self) -> (frames: Vec<(Point, Point)>)
        ensures
            frames@.len() == self@.nodes.len(),
            forall|i: int| 0 <= i < frames@.len() ==> frames@[i] == self@.node_frame(i),
    {
        let size = Point {
            x: self.viewport.length_on_screen(NODE_WIDTH),
            y: self.viewport.length_on_screen(NODE_HEIGHT),
        };
        let mut frames: Vec<(Point, Point)> = Vec::new();
        let mut i: usize = 0;
        while i < self.graph.nodes.len()
            invariant
                0 <= i <= self.graph.nodes.len(),
                frames@.len() == i,
                size.x == self@.viewport.length_on_screen(NODE_WIDTH as int),
                size.y == self@.viewport.length_on_screen(NODE_HEIGHT as int),
                forall|j: int| 0 <= j < i ==> frames@[j] == self@.node_frame(j),
            decreases self.graph.nodes.len() - i,
        {
            frames.push((self.viewport.to_screen(self.graph.nodes[i].position), size));
            i += 1;
        }
        frames
    }

    /// Takes one input to the handler that is meant for it.
    pub fn handle(&mut self, input: CanvasInput)
        ensures
            final(self)@ == old(self)@.step(input),
            final(self)@.wf(),
    {
        match input {
            CanvasInput::MouseDown(position) => self.handle_mouse_down(position),
            CanvasInput::MouseMove(position) => self.handle_mouse_move(position),
            CanvasInput::MouseUp => self.handle_mouse_up(),
            CanvasInput::Scroll(delta) => self.handle_scroll_wheel(delta),
            CanvasInput::ZoomIn => self.zoom_in(),
            CanvasInput::ZoomOut => self.zoom_out(),
            CanvasInput::FitView => self.fit_view(),
            CanvasInput::ToggleLock => self.toggle_lock(),
        }
    }

    /// Locks an unlocked canvas and unlocks a locked one.
    pub fn toggle_lock(&mut self)
        ensures
            final(self)@ == old(self)@.lock_toggled(),
            final(self)@.wf(),
    {
        proof {
            use_type_invariant(&self.viewport);
        }
        self.locked = !self.locked;
    }
}

} // verus!

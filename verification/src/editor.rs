//! The editor: the canvas together with the coordinator of connection
//! gestures, which begin with a press on a handle and end with a release
//! somewhere on the canvas.

use vstd::prelude::*;
use std::marker::PhantomData;
use crate::geometry::Point;
use crate::graph::Graph;
use crate::handle::source_default_anchor;
use crate::view::{CanvasModel, GraphEvent, GraphView};
use crate::viewport::lemma_round_trip;

verus! {

/// A connection gesture under way. `current_pos` is in screen space from
/// the first moment on.
#[derive(Clone, Debug)]
pub struct ConnectingState {
    pub source_node_id: u128,
    pub source_handle_id: String,
    pub current_pos: Point,
}

/// What a `ConnectingState` stands for in contracts.
pub struct ConnectingModel {
    pub source_node_id: u128,
    pub source_handle_id: Seq<char>,
    pub current_pos: Point,
}

impl View for ConnectingState {
    type V = ConnectingModel;

    open spec fn view(&self) -> ConnectingModel {
        ConnectingModel {
            source_node_id: self.source_node_id,
            source_handle_id: self.source_handle_id@,
            current_pos: self.current_pos,
        }
    }
}

/// What a finished connection gesture hands to the completion callback.
#[derive(Clone, Debug)]
pub struct ConnectEnd {
    pub source_node_id: u128,
    pub source_handle_id: String,
    /// Where the pointer was released, in graph space.
    pub drop_position: Point,
}

/// What a `GraphEditor` stands for in contracts.
pub struct EditorModel<D> {
    pub canvas: CanvasModel<D>,
    pub connecting: Option<ConnectingModel>,
    pub has_callback: bool,
}

impl<D> EditorModel<D> {
    /// After a handle-clicked event: a connection gesture from that handle,
    /// with the pointer at the handle's anchor on screen. A gesture that
    /// was under way is replaced.
    pub open spec fn clicked(self, event: GraphEvent) -> EditorModel<D> {
        EditorModel {
            connecting: Some(
                ConnectingModel {
                    source_node_id: event->node_id,
                    source_handle_id: event->handle_id@,
                    current_pos: self.canvas.viewport.to_screen(event->position),
                },
            ),
            ..self
        }
    }

    /// After the pointer has moved to the screen point `position`: a
    /// connection gesture follows it, and nothing else changes.
    pub open spec fn moved(self, position: Point) -> EditorModel<D> {
        match self.connecting {
            Some(c) => EditorModel {
                connecting: Some(ConnectingModel { current_pos: position, ..c }),
                ..self
            },
            None => self,
        }
    }

    /// The screen point at which the line of the gesture begins: the anchor
    /// of the source handle, the middle of the bottom side where the node
    /// has no such handle, and the graph's origin where the graph has no
    /// such node.
    pub open spec fn source_on_screen(self, c: ConnectingModel) -> Point {
        match self.canvas.anchor(
            c.source_node_id,
            Some(c.source_handle_id),
            source_default_anchor(),
        ) {
            Some(anchor) => self.canvas.viewport.to_screen(anchor),
            None => self.canvas.viewport.to_screen(Point { x: 0, y: 0 }),
        }
    }

    /// The line to draw while a gesture is under way: from the source
    /// handle to the pointer, in screen space.
    pub open spec fn connection_line(self) -> Option<(Point, Point)> {
        match self.connecting {
            Some(c) => Some((self.source_on_screen(c), c.current_pos)),
            None => None,
        }
    }
}

/// The drop position is the pointer's position. Where a gesture ends, the
/// graph-space point that the callback gets is shown where the pointer was
/// released: at that very screen point at zoom factors up to 1.0, and
/// within `round_trip_error()` pixels of it above. This holds wherever the
/// graph-space point has coordinates that fit in an `i64`.
pub proof fn lemma_drop_is_under_pointer<D>(m: EditorModel<D>)
    requires
        m.canvas.wf(),
        m.connecting is Some,
        m.canvas.viewport.reaches(m.connecting.unwrap().current_pos),
    ensures
        m.canvas.viewport.is_near(
            m.canvas.viewport.to_screen(
                m.canvas.viewport.to_graph(m.connecting.unwrap().current_pos),
            ),
            m.connecting.unwrap().current_pos,
        ),
{
    lemma_round_trip(m.canvas.viewport, m.connecting.unwrap().current_pos);
}

/// Whether `end` is what a release hands over for the gesture `c` that
/// ends at the graph-space point `drop_position`.
pub open spec fn is_connect_end(end: ConnectEnd, c: ConnectingModel, drop_position: Point) -> bool {
    &&& end.source_node_id == c.source_node_id
    &&& end.source_handle_id@ == c.source_handle_id
    &&& end.drop_position == drop_position
}

/// A completion callback that is known to accept whatever a release hands
/// over.
struct Registered<D, F: Fn(&u128, &String, Point, &mut Graph<D>)> {
    callback: F,
    payload: PhantomData<D>,
}

impl<D, F: Fn(&u128, &String, Point, &mut Graph<D>)> Registered<D, F> {
    #[verifier::type_invariant]
    spec fn callback_accepts_all(self) -> bool {
        accepts_all::<D, F>(self.callback)
    }

    fn new(callback: F) -> (registered: Registered<D, F>)
        requires
            accepts_all::<D, F>(callback),
        ensures
            registered.callback == callback,
    {
        Registered { callback, payload: PhantomData }
    }

    /// Calls the callback with what `end` holds and with `graph`.
    fn call(&self, end: &ConnectEnd, graph: &mut Graph<D>)
        ensures
            exists|r: &mut Graph<D>|
                *r == *old(graph) && *final(r) == *final(graph) && #[trigger] call_ensures(
                    self.callback,
                    (&end.source_node_id, &end.source_handle_id, end.drop_position, r),
                    (),
                ),
    {
        proof {
            use_type_invariant(self);
        }
        (self.callback)(&end.source_node_id, &end.source_handle_id, end.drop_position, graph);
    }
}

/// The canvas and, layered above it, the coordinator of connection
/// gestures. `F` is the completion callback: it gets the source node's id,
/// the source handle's id, the graph-space point of the release, and the
/// graph to add to.
pub struct GraphEditor<D, F: Fn(&u128, &String, Point, &mut Graph<D>)> {
    graph_view: GraphView<D>,
    connecting_state: Option<ConnectingState>,
    on_connect_end: Option<Registered<D, F>>,
}

impl<D, F: Fn(&u128, &String, Point, &mut Graph<D>)> View for GraphEditor<D, F> {
    type V = EditorModel<D>;

    closed spec fn view(&self) -> EditorModel<D> {
        EditorModel {
            canvas: self.graph_view@,
            connecting: match self.connecting_state {
                Some(c) => Some(c@),
                None => None,
            },
            has_callback: self.callback() is Some,
        }
    }
}

impl<D, F: Fn(&u128, &String, Point, &mut Graph<D>)> GraphEditor<D, F> {
    /// The callback that is registered, if one is.
    pub closed spec fn callback(&self) -> Option<F> {
        match self.on_connect_end {
            Some(registered) => Some(registered.callback),
            None => None,
        }
    }
}

/// Whether `callback` may be called with whatever a release hands over.
pub open spec fn accepts_all<D, F: Fn(&u128, &String, Point, &mut Graph<D>)>(callback: F) -> bool {
    forall|node_id: &u128, handle_id: &String, position: Point, graph: &mut Graph<D>|
        call_requires(callback, (node_id, handle_id, position, graph))
}

impl<D, F: Fn(&u128, &String, Point, &mut Graph<D>)> GraphEditor<D, F> {
    /// An editor for `graph_view`, with no gesture under way and no
    /// callback registered.
    pub fn new(graph_view: GraphView<D>) -> (editor: GraphEditor<D, F>)
        ensures
            editor@ == (EditorModel { canvas: graph_view@, connecting: None, has_callback: false }),
            editor.callback() is None,
    {
        GraphEditor { graph_view, connecting_state: None, on_connect_end: None }
    }

    /// Registers `callback` as the one to call when a connection gesture
    /// ends.
    pub fn on_connect_end(self, callback: F) -> (editor: GraphEditor<D, F>)
        requires
            accepts_all::<D, F>(callback),
        ensures
            editor@ == (EditorModel { has_callback: true, ..self@ }),
            editor.callback() == Some(callback),
    {
        let mut editor = self;
        editor.on_connect_end = Some(Registered::new(callback));
        editor
    }

    /// The canvas as it stands.
    pub fn graph_view(&self) -> (view: &GraphView<D>)
        ensures
            view@ == self@.canvas,
    {
        &self.graph_view
    }

    /// The canvas, for the pointer and wheel input that is meant for it.
    /// Whatever the caller does to the canvas, the connection gesture and
    /// the callback stay as they are.
    pub fn graph_view_mut(&mut self) -> (view: &mut GraphView<D>)
        ensures
            view@ == old(self)@.canvas,
            final(self)@ == (EditorModel { canvas: final(view)@, ..old(self)@ }),
            final(self).callback() == old(self).callback(),
    {
        &mut self.graph_view
    }

    /// The connection gesture under way, if there is one.
    pub fn connecting_state(&self) -> (state: Option<&ConnectingState>)
        ensures
            match state {
                Some(c) => self@.connecting == Some(c@),
                None => self@.connecting is None,
            },
    {
        self.connecting_state.as_ref()
    }

    /// The canvas reports a press on a handle: a connection gesture begins
    /// there, and any that was under way is dropped. The pointer's position
    /// starts as the handle's anchor on screen.
    pub fn handle_graph_event(&mut self, event: &GraphEvent)
        ensures
            final(self)@ == old(self)@.clicked(*event),
            final(self).callback() == old(self).callback(),
    {
        match event {
            GraphEvent::HandleClicked { node_id, handle_id, position } => {
                let current_pos = self.graph_view.viewport().to_screen(*position);
                self.connecting_state = Some(
                    ConnectingState {
                        source_node_id: *node_id,
                        source_handle_id: handle_id.clone(),
                        current_pos,
                    },
                );
            },
        }
    }

    /// The pointer is at the screen point `position`: a connection gesture
    /// follows it. Without one nothing changes.
    pub fn handle_mouse_move(&mut self, position: Point)
        ensures
            final(self)@ == old(self)@.moved(position),
            final(self).callback() == old(self).callback(),
    {
        match &mut self.connecting_state {
            Some(connecting) => {
                connecting.current_pos = position;
            },
            None => {},
        }
    }

    /// Gives up the connection gesture, if there is one: it is over, the
    /// callback is not called, and the graph, the viewport and everything
    /// else stay as they are. When to cancel (a key, the pointer leaving
    /// the window) is for the host to decide.
    pub fn cancel(&mut self)
        ensures
            final(self)@ == (EditorModel { connecting: None, ..old(self)@ }),
            final(self).callback() == old(self).callback(),
    {
        self.connecting_state = None;
    }

    /// What a release would hand to the callback now: the source of the
    /// gesture and the graph-space point under the pointer, by the viewport
    /// as it is at this moment. Nothing without a gesture.
    pub fn connect_end(&self) -> (end: Option<ConnectEnd>)
        ensures
            match self@.connecting {
                Some(c) => end matches Some(e) && is_connect_end(
                    e,
                    c,
                    self@.canvas.viewport.to_graph(c.current_pos),
                ) && (self@.canvas.viewport.reaches(c.current_pos)
                    ==> self@.canvas.viewport.is_near(
                    self@.canvas.viewport.to_screen(e.drop_position),
                    c.current_pos,
                )),
                None => end is None,
            },
    {
        match &self.connecting_state {
            Some(connecting) => {
                let viewport = self.graph_view.viewport();
                proof {
                    if self@.canvas.viewport.reaches(connecting.current_pos) {
                        lemma_drop_is_under_pointer(self@);
                    }
                }
                Some(
                    ConnectEnd {
                        source_node_id: connecting.source_node_id,
                        source_handle_id: connecting.source_handle_id.clone(),
                        drop_position: viewport.to_graph(connecting.current_pos),
                    },
                )
            },
            None => None,
        }
    }

    /// The button is released. A connection gesture ends here: if a
    /// callback is registered it is called once, with what `connect_end`
    /// gives and with the graph, to which it may add nodes and edges; the
    /// graph afterwards is the graph as the callback left it. With or
    /// without a callback the gesture is over afterwards. The viewport, the
    /// canvas's own gesture and the lock are never touched, and without a
    /// gesture or without a callback nothing else is either.
    pub fn handle_mouse_up(&mut self)
        ensures
            final(self)@.connecting is None,
            final(self).callback() == old(self).callback(),
            final(self)@.has_callback == old(self)@.has_callback,
            final(self)@.canvas.viewport == old(self)@.canvas.viewport,
            final(self)@.canvas.gesture == old(self)@.canvas.gesture,
            final(self)@.canvas.locked == old(self)@.canvas.locked,
            old(self)@.connecting is None || !old(self)@.has_callback ==> final(self)@.canvas
                == old(self)@.canvas,
            old(self)@.connecting is None ==> final(self)@ == old(self)@,
            old(self)@.connecting is Some && old(self).callback() is Some ==> exists|
                end: ConnectEnd,
                graph: &mut Graph<D>,
            |
                {
                    &&& is_connect_end(
                        end,
                        old(self)@.connecting.unwrap(),
                        old(self)@.canvas.viewport.to_graph(
                            old(self)@.connecting.unwrap().current_pos,
                        ),
                    )
                    &&& graph.nodes@ == old(self)@.canvas.nodes
                    &&& graph.edges@ == old(self)@.canvas.edges
                    &&& final(graph).nodes@ == final(self)@.canvas.nodes
                    &&& final(graph).edges@ == final(self)@.canvas.edges
                    &&& #[trigger] call_ensures(
                        old(self).callback().unwrap(),
                        (&end.source_node_id, &end.source_handle_id, end.drop_position, graph),
                        (),
                    )
                },
    {
        let end = self.connect_end();
        self.connecting_state = None;
        match end {
            Some(end) => match &self.on_connect_end {
                Some(registered) => {
                    let graph = self.graph_view.graph_mut();
                    let ghost before = *graph;
                    registered.call(&end, graph);
                    proof {
                        let after = *graph;
                        let r = choose|r: &mut Graph<D>|
                            *r == before && *final(r) == after && #[trigger] call_ensures(
                                registered.callback,
                                (&end.source_node_id, &end.source_handle_id, end.drop_position, r),
                                (),
                            );
                        assert(r.nodes@ == old(self)@.canvas.nodes);
                        assert(final(r).nodes@ == after.nodes@);
                        assert(call_ensures(
                            old(self).callback().unwrap(),
                            (&end.source_node_id, &end.source_handle_id, end.drop_position, r),
                            (),
                        ));
                    }
                },
                None => {},
            },
            None => {},
        }
    }

    /// The line to draw while a gesture is under way, from the source
    /// handle to the pointer, in screen space. The line is feedback only.
    pub fn connection_line(&self) -> (line: Option<(Point, Point)>)
        ensures
            line == self@.connection_line(),
    {
        match &self.connecting_state {
            Some(connecting) => {
                let viewport = self.graph_view.viewport();
                let source = match self.graph_view.anchor(
                    connecting.source_node_id,
                    Some(&connecting.source_handle_id),
                    source_default_anchor(),
                ) {
                    Some(anchor) => viewport.to_screen(anchor),
                    None => viewport.to_screen(Point::origin()),
                };
                Some((source, connecting.current_pos))
            },
            None => None,
        }
    }
}

} // verus!

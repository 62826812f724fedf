use std::cell::RefCell;
use std::rc::Rc;

use gpuiflow::editor::GraphEditor;
use gpuiflow::geometry::Point;
use gpuiflow::graph::{Edge, Graph, Node};
use gpuiflow::handle::{Handle, HandleType, Position};
use gpuiflow::view::{Gesture, GraphEvent, GraphView};

type NoCallback = fn(&u128, &String, Point, &mut Graph<&'static str>);

fn view_with_source() -> GraphView<&'static str> {
    let mut view = GraphView::new();
    view.add_node(Node::with_id(1, "one", Point::new(0, 0)).with_handles(vec![Handle::new(
        "right",
        HandleType::Source,
        Position::Right,
    )]));
    view
}

fn click(editor_view: &GraphView<&'static str>, node: u128, handle: &str) -> GraphEvent {
    editor_view.handle_click(node, &handle.to_string()).unwrap()
}

#[test]
fn new_editor_is_idle() {
    let editor: GraphEditor<&'static str, NoCallback> = GraphEditor::new(view_with_source());
    assert!(editor.connecting_state().is_none());
    assert!(editor.connect_end().is_none());
    assert!(editor.connection_line().is_none());
    assert_eq!(editor.graph_view().graph().nodes.len(), 1);
}

#[test]
fn handle_click_then_release_invokes_callback_with_drop_position() {
    let calls: Rc<RefCell<Vec<(u128, String, Point)>>> = Rc::new(RefCell::new(Vec::new()));
    let seen = calls.clone();
    let mut editor = GraphEditor::new(view_with_source()).on_connect_end(
        move |source: &u128, handle: &String, position: Point, graph: &mut Graph<&'static str>| {
            seen.borrow_mut().push((*source, handle.clone(), position));
            graph.add_node(Node::with_id(2, "dropped", position));
            graph.add_edge(Edge::new(*source, 2).with_handles(handle, "left"));
        },
    );
    let event = click(editor.graph_view(), 1, "right");
    match &event {
        GraphEvent::HandleClicked { position, .. } => assert_eq!(*position, Point::new(150, 40)),
    }
    editor.handle_graph_event(&event);
    let state = editor.connecting_state().unwrap();
    assert_eq!(state.source_node_id, 1);
    assert_eq!(state.source_handle_id, "right");
    assert_eq!(state.current_pos, Point::new(150, 40));
    editor.handle_mouse_move(Point::new(400, 100));
    assert_eq!(editor.connecting_state().unwrap().current_pos, Point::new(400, 100));
    editor.handle_mouse_up();
    assert!(editor.connecting_state().is_none());
    assert_eq!(*calls.borrow(), vec![(1, "right".to_string(), Point::new(400, 100))]);
    let graph = editor.graph_view().graph();
    assert_eq!(graph.nodes.len(), 2);
    assert_eq!(graph.nodes[1].position, Point::new(400, 100));
    assert_eq!(graph.edges.len(), 1);
    assert_eq!(graph.edges[0].source_id, 1);
    assert_eq!(graph.edges[0].target_id, 2);
    assert_eq!(graph.edges[0].source_handle_id, Some("right".to_string()));
}

#[test]
fn drop_position_uses_live_pan_and_zoom() {
    let calls: Rc<RefCell<Vec<Point>>> = Rc::new(RefCell::new(Vec::new()));
    let seen = calls.clone();
    let mut editor = GraphEditor::new(view_with_source()).on_connect_end(
        move |_: &u128, _: &String, position: Point, _: &mut Graph<&'static str>| {
            seen.borrow_mut().push(position);
        },
    );
    editor.graph_view_mut().handle_scroll_wheel(Point::new(100, 0));
    editor.graph_view_mut().zoom_in();
    let event = click(editor.graph_view(), 1, "right");
    editor.handle_graph_event(&event);
    // The anchor (150, 40) is shown at (150 * 1.2 + 100, 40 * 1.2).
    assert_eq!(editor.connecting_state().unwrap().current_pos, Point::new(280, 48));
    assert_eq!(editor.connection_line(), Some((Point::new(280, 48), Point::new(280, 48))));
    editor.handle_mouse_move(Point::new(700, 360));
    assert_eq!(editor.connection_line(), Some((Point::new(280, 48), Point::new(700, 360))));
    let end = editor.connect_end().unwrap();
    assert_eq!(end.source_node_id, 1);
    assert_eq!(end.source_handle_id, "right");
    assert_eq!(end.drop_position, Point::new(500, 300));
    // The viewport changes under the gesture: the release sees the change.
    editor.graph_view_mut().zoom_out();
    editor.graph_view_mut().handle_scroll_wheel(Point::new(-100, 0));
    editor.handle_mouse_up();
    assert_eq!(*calls.borrow(), vec![Point::new(700, 360)]);
}

#[test]
fn release_without_callback_still_ends_gesture() {
    let mut editor: GraphEditor<&'static str, NoCallback> = GraphEditor::new(view_with_source());
    let event = click(editor.graph_view(), 1, "right");
    editor.handle_graph_event(&event);
    editor.handle_mouse_move(Point::new(10, 10));
    assert!(editor.connecting_state().is_some());
    editor.handle_mouse_up();
    assert!(editor.connecting_state().is_none());
    assert_eq!(editor.graph_view().graph().nodes.len(), 1);
    assert_eq!(editor.graph_view().graph().edges.len(), 0);
}

#[test]
fn release_without_gesture_does_not_call_back() {
    let calls = Rc::new(RefCell::new(0u32));
    let seen = calls.clone();
    let mut editor = GraphEditor::new(view_with_source()).on_connect_end(
        move |_: &u128, _: &String, _: Point, _: &mut Graph<&'static str>| {
            *seen.borrow_mut() += 1;
        },
    );
    editor.handle_mouse_up();
    assert_eq!(*calls.borrow(), 0);
    let event = click(editor.graph_view(), 1, "right");
    editor.handle_graph_event(&event);
    editor.handle_mouse_up();
    assert_eq!(*calls.borrow(), 1);
    editor.handle_mouse_up();
    assert_eq!(*calls.borrow(), 1);
    assert!(editor.connecting_state().is_none());
}

#[test]
fn move_without_gesture_is_ignored_by_editor() {
    let mut editor: GraphEditor<&'static str, NoCallback> = GraphEditor::new(view_with_source());
    editor.handle_mouse_move(Point::new(5, 5));
    assert!(editor.connecting_state().is_none());
    assert!(editor.connection_line().is_none());
}

#[test]
fn second_click_replaces_gesture() {
    let mut view = view_with_source();
    view.add_node(Node::with_id(2, "two", Point::new(300, 0)).with_handles(vec![Handle::new(
        "bottom",
        HandleType::Source,
        Position::Bottom,
    )]));
    let mut editor: GraphEditor<&'static str, NoCallback> = GraphEditor::new(view);
    let first = click(editor.graph_view(), 1, "right");
    editor.handle_graph_event(&first);
    editor.handle_mouse_move(Point::new(9, 9));
    let second = click(editor.graph_view(), 2, "bottom");
    editor.handle_graph_event(&second);
    let state = editor.connecting_state().unwrap();
    assert_eq!(state.source_node_id, 2);
    assert_eq!(state.source_handle_id, "bottom");
    assert_eq!(state.current_pos, Point::new(375, 80));
}

#[test]
fn connection_line_falls_back_gracefully() {
    let mut editor: GraphEditor<&'static str, NoCallback> = GraphEditor::new(view_with_source());
    editor.graph_view_mut().handle_scroll_wheel(Point::new(30, 0));
    // A handle that the node does not have: the middle of the bottom side.
    editor.handle_graph_event(&GraphEvent::HandleClicked {
        node_id: 1,
        handle_id: "gone".to_string(),
        position: Point::new(0, 0),
    });
    editor.handle_mouse_move(Point::new(500, 500));
    assert_eq!(editor.connection_line(), Some((Point::new(105, 80), Point::new(500, 500))));
    // A node that the graph does not have: the graph's origin.
    editor.handle_graph_event(&GraphEvent::HandleClicked {
        node_id: 42,
        handle_id: "right".to_string(),
        position: Point::new(0, 0),
    });
    editor.handle_mouse_move(Point::new(500, 500));
    assert_eq!(editor.connection_line(), Some((Point::new(30, 0), Point::new(500, 500))));
}

#[test]
fn connecting_leaves_canvas_gesture_alone() {
    let mut editor: GraphEditor<&'static str, NoCallback> = GraphEditor::new(view_with_source());
    let handle = "right".to_string();
    let event = editor.graph_view_mut().handle_press(Point::new(150, 40), Some((1, &handle)));
    editor.handle_graph_event(&event.unwrap());
    assert_eq!(editor.graph_view().gesture(), Gesture::Idle);
    editor.handle_mouse_move(Point::new(200, 200));
    editor.graph_view_mut().handle_mouse_move(Point::new(200, 200));
    assert_eq!(editor.graph_view().graph().nodes[0].position, Point::new(0, 0));
    assert_eq!(editor.graph_view().viewport().pan(), Point::new(0, 0));
    editor.handle_mouse_up();
    editor.graph_view_mut().handle_mouse_up();
    assert!(editor.connecting_state().is_none());
    assert_eq!(editor.graph_view().gesture(), Gesture::Idle);
}

#[test]
fn cancel_ends_gesture_without_calling_back() {
    let calls = Rc::new(RefCell::new(0u32));
    let seen = calls.clone();
    let mut editor = GraphEditor::new(view_with_source()).on_connect_end(
        move |_: &u128, _: &String, position: Point, graph: &mut Graph<&'static str>| {
            *seen.borrow_mut() += 1;
            graph.add_node(Node::with_id(2, "dropped", position));
        },
    );
    editor.graph_view_mut().handle_scroll_wheel(Point::new(12, 0));
    let event = click(editor.graph_view(), 1, "right");
    editor.handle_graph_event(&event);
    editor.handle_mouse_move(Point::new(400, 100));
    assert!(editor.connecting_state().is_some());
    editor.cancel();
    assert!(editor.connecting_state().is_none());
    assert!(editor.connect_end().is_none());
    assert!(editor.connection_line().is_none());
    assert_eq!(*calls.borrow(), 0);
    assert_eq!(editor.graph_view().graph().nodes.len(), 1);
    assert_eq!(editor.graph_view().graph().edges.len(), 0);
    assert_eq!(editor.graph_view().viewport().pan(), Point::new(12, 0));
    assert_eq!(editor.graph_view().gesture(), Gesture::Idle);
    // A release after the cancel finds no gesture to end.
    editor.handle_mouse_up();
    assert_eq!(*calls.borrow(), 0);
    // The callback is still registered for the next gesture.
    let event = click(editor.graph_view(), 1, "right");
    editor.handle_graph_event(&event);
    editor.handle_mouse_up();
    assert_eq!(*calls.borrow(), 1);
    assert_eq!(editor.graph_view().graph().nodes.len(), 2);
}

#[test]
fn cancel_without_gesture_changes_nothing() {
    let mut editor: GraphEditor<&'static str, NoCallback> = GraphEditor::new(view_with_source());
    editor.cancel();
    assert!(editor.connecting_state().is_none());
    assert_eq!(editor.graph_view().graph().nodes.len(), 1);
    editor.cancel();
    assert!(editor.connecting_state().is_none());
}

#[test]
fn drop_position_is_shown_under_the_pointer() {
    for zoom_steps in 0..10 {
        let mut editor: GraphEditor<&'static str, NoCallback> =
            GraphEditor::new(view_with_source());
        editor.graph_view_mut().handle_scroll_wheel(Point::new(37, 0));
        for _ in 0..zoom_steps {
            editor.graph_view_mut().zoom_in();
        }
        let viewport = editor.graph_view().viewport();
        let tolerance = ((viewport.zoom() + 999) / 2000) as i64;
        let event = click(editor.graph_view(), 1, "right");
        editor.handle_graph_event(&event);
        for x in -50i64..50 {
            let pointer = Point::new(x * 11, 300 - x * 7);
            editor.handle_mouse_move(pointer);
            let shown = viewport.to_screen(editor.connect_end().unwrap().drop_position);
            assert!((shown.x - pointer.x).abs() <= tolerance);
            assert!((shown.y - pointer.y).abs() <= tolerance);
        }
    }
}

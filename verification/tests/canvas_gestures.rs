use gpuiflow::geometry::Point;
use gpuiflow::graph::{Edge, Node};
use gpuiflow::handle::{Handle, HandleType, Position};
use gpuiflow::view::{CanvasInput, Gesture, GraphEvent, GraphView};

fn node_at(id: u128, x: i64, y: i64) -> Node<&'static str> {
    Node::with_id(id, "data", Point::new(x, y))
}

fn two_node_view() -> GraphView<&'static str> {
    let mut view = GraphView::new();
    view.add_node(node_at(1, 0, 0));
    view.add_node(node_at(2, 300, 0));
    view
}

fn position_of(view: &GraphView<&'static str>, id: u128) -> Point {
    view.graph().get_node(id).unwrap().position
}

#[test]
fn new_view_is_idle_unlocked_and_empty() {
    let view: GraphView<u8> = GraphView::new();
    assert_eq!(view.gesture(), Gesture::Idle);
    assert!(!view.is_locked());
    assert_eq!(view.viewport().zoom(), 1000);
    assert_eq!(view.viewport().pan(), Point::new(0, 0));
    assert!(view.graph().nodes.is_empty());
    assert!(view.graph().edges.is_empty());
}

#[test]
fn add_keeps_insertion_order() {
    let mut view = two_node_view();
    view.add_node(node_at(3, 9, 9));
    view.add_edge(Edge::with_id(11, 1, 2));
    view.add_edge(Edge::with_id(12, 2, 3));
    let ids: Vec<u128> = view.graph().nodes.iter().map(|n| n.id).collect();
    assert_eq!(ids, vec![1, 2, 3]);
    let edge_ids: Vec<u128> = view.graph().edges.iter().map(|e| e.id).collect();
    assert_eq!(edge_ids, vec![11, 12]);
}

#[test]
fn click_and_drag_moves_node_by_pointer_displacement() {
    let mut view = two_node_view();
    view.handle_mouse_down(Point::new(50, 40));
    assert_eq!(
        view.gesture(),
        Gesture::DraggingNode { node_id: 1, grab_offset: Point::new(50, 40) }
    );
    view.handle_mouse_move(Point::new(250, 40));
    assert_eq!(position_of(&view, 1), Point::new(200, 0));
    assert_eq!(position_of(&view, 2), Point::new(300, 0));
    view.handle_mouse_up();
    assert_eq!(view.gesture(), Gesture::Idle);
    assert_eq!(position_of(&view, 1), Point::new(200, 0));
}

#[test]
fn drag_under_pan_and_zoom_keeps_grab_offset() {
    let mut view = GraphView::new();
    view.add_node(node_at(1, 100, 50));
    view.handle_mouse_down(Point::new(-500, -500));
    view.handle_mouse_move(Point::new(-490, -480));
    view.handle_mouse_up();
    assert_eq!(view.viewport().pan(), Point::new(10, 20));
    view.zoom_in();
    assert_eq!(view.viewport().zoom(), 1200);
    // The node's rectangle on screen begins at (130, 80); press 24 by 12
    // screen pixels inside it, which is 20 by 10 in graph space.
    view.handle_mouse_down(Point::new(154, 92));
    assert_eq!(
        view.gesture(),
        Gesture::DraggingNode { node_id: 1, grab_offset: Point::new(20, 10) }
    );
    view.handle_mouse_move(Point::new(154 + 120, 92 - 60));
    assert_eq!(position_of(&view, 1), Point::new(200, 0));
    view.handle_mouse_move(Point::new(154, 92));
    assert_eq!(position_of(&view, 1), Point::new(100, 50));
}

#[test]
fn press_on_overlap_selects_node_added_last() {
    let mut view = GraphView::new();
    view.add_node(node_at(1, 10, 10));
    view.add_node(node_at(2, 10, 10));
    view.handle_mouse_down(Point::new(60, 60));
    assert_eq!(
        view.gesture(),
        Gesture::DraggingNode { node_id: 2, grab_offset: Point::new(50, 50) }
    );
    assert_eq!(view.hit_test(Point::new(60, 60)), Some(1));
}

#[test]
fn press_on_partial_overlap_selects_topmost_containing() {
    let mut view = GraphView::new();
    view.add_node(node_at(1, 0, 0));
    view.add_node(node_at(2, 100, 40));
    view.add_node(node_at(3, 1000, 1000));
    assert_eq!(view.hit_test(Point::new(120, 60)), Some(1));
    assert_eq!(view.hit_test(Point::new(50, 60)), Some(0));
    assert_eq!(view.hit_test(Point::new(120, 20)), Some(0));
    assert_eq!(view.hit_test(Point::new(200, 100)), Some(1));
    assert_eq!(view.hit_test(Point::new(500, 500)), None);
}

#[test]
fn node_rectangle_is_half_open() {
    let mut view = GraphView::new();
    view.add_node(node_at(1, 10, 20));
    assert_eq!(view.hit_test(Point::new(10, 20)), Some(0));
    assert_eq!(view.hit_test(Point::new(159, 99)), Some(0));
    assert_eq!(view.hit_test(Point::new(160, 99)), None);
    assert_eq!(view.hit_test(Point::new(159, 100)), None);
    assert_eq!(view.hit_test(Point::new(9, 20)), None);
    assert_eq!(view.hit_test(Point::new(10, 19)), None);
    let node = node_at(1, 10, 20);
    assert!(node.contains(Point::new(10, 20)));
    assert!(!node.contains(Point::new(160, 100)));
}

#[test]
fn press_on_empty_canvas_pans() {
    let mut view = two_node_view();
    view.handle_mouse_down(Point::new(200, 200));
    assert_eq!(view.gesture(), Gesture::Panning { last_pointer: Point::new(200, 200) });
    view.handle_mouse_move(Point::new(230, 190));
    assert_eq!(view.viewport().pan(), Point::new(30, -10));
    assert_eq!(view.gesture(), Gesture::Panning { last_pointer: Point::new(230, 190) });
    view.handle_mouse_move(Point::new(231, 191));
    assert_eq!(view.viewport().pan(), Point::new(31, -9));
    assert_eq!(position_of(&view, 1), Point::new(0, 0));
    view.handle_mouse_up();
    assert_eq!(view.gesture(), Gesture::Idle);
    assert_eq!(view.viewport().pan(), Point::new(31, -9));
}

#[test]
fn move_without_gesture_changes_nothing() {
    let mut view = two_node_view();
    view.handle_mouse_move(Point::new(77, 77));
    assert_eq!(view.gesture(), Gesture::Idle);
    assert_eq!(view.viewport().pan(), Point::new(0, 0));
    assert_eq!(position_of(&view, 1), Point::new(0, 0));
    assert_eq!(position_of(&view, 2), Point::new(300, 0));
}

#[test]
fn release_twice_leaves_state_unchanged() {
    let mut view = two_node_view();
    view.handle_mouse_down(Point::new(50, 40));
    view.handle_mouse_move(Point::new(60, 45));
    view.handle_mouse_up();
    let pan = view.viewport().pan();
    let zoom = view.viewport().zoom();
    let first = position_of(&view, 1);
    let second = position_of(&view, 2);
    view.handle_mouse_up();
    assert_eq!(view.gesture(), Gesture::Idle);
    assert_eq!(view.viewport().pan(), pan);
    assert_eq!(view.viewport().zoom(), zoom);
    assert_eq!(position_of(&view, 1), first);
    assert_eq!(position_of(&view, 2), second);
    assert_eq!(view.graph().nodes.len(), 2);
    assert!(!view.is_locked());
}

#[test]
fn release_without_gesture_is_no_op() {
    let mut view = two_node_view();
    view.handle_mouse_up();
    assert_eq!(view.gesture(), Gesture::Idle);
    assert_eq!(view.viewport().pan(), Point::new(0, 0));
    assert_eq!(view.viewport().zoom(), 1000);
}

#[test]
fn new_press_forgets_unreleased_gesture() {
    let mut view = two_node_view();
    view.handle_mouse_down(Point::new(200, 200));
    view.handle_mouse_down(Point::new(310, 10));
    assert_eq!(
        view.gesture(),
        Gesture::DraggingNode { node_id: 2, grab_offset: Point::new(10, 10) }
    );
    view.handle_mouse_down(Point::new(200, 201));
    assert_eq!(view.gesture(), Gesture::Panning { last_pointer: Point::new(200, 201) });
}

#[test]
fn drag_of_vanished_id_changes_nothing() {
    let mut view = two_node_view();
    view.handle_mouse_down(Point::new(50, 40));
    view.graph_mut().nodes[0].id = 99;
    view.handle_mouse_move(Point::new(250, 40));
    assert_eq!(view.graph().nodes[0].position, Point::new(0, 0));
    assert_eq!(view.graph().nodes[1].position, Point::new(300, 0));
}

#[test]
fn lock_suppresses_buttons_but_not_wheel_or_pan() {
    let mut view = two_node_view();
    view.toggle_lock();
    assert!(view.is_locked());
    view.zoom_in();
    assert_eq!(view.viewport().zoom(), 1000);
    view.zoom_out();
    assert_eq!(view.viewport().zoom(), 1000);
    view.fit_view();
    assert_eq!(view.viewport().pan(), Point::new(0, 0));
    view.handle_scroll_wheel(Point::new(0, 5));
    assert_eq!(view.viewport().zoom(), 1100);
    view.handle_scroll_wheel(Point::new(7, 0));
    assert_eq!(view.viewport().pan(), Point::new(7, 0));
    view.handle_mouse_down(Point::new(2000, 2000));
    view.handle_mouse_move(Point::new(2001, 2002));
    assert_eq!(view.viewport().pan(), Point::new(8, 2));
    view.handle_mouse_up();
    view.toggle_lock();
    assert!(!view.is_locked());
    view.zoom_in();
    assert_eq!(view.viewport().zoom(), 1320);
}

#[test]
fn mostly_horizontal_wheel_pans_the_view() {
    let mut view = two_node_view();
    view.handle_scroll_wheel(Point::new(100, 1));
    assert_eq!(view.viewport().zoom(), 1000);
    assert_eq!(view.viewport().pan(), Point::new(100, 1));
    view.handle_scroll_wheel(Point::new(-40, -39));
    assert_eq!(view.viewport().zoom(), 1000);
    assert_eq!(view.viewport().pan(), Point::new(60, -38));
    view.handle_scroll_wheel(Point::new(-40, -40));
    assert_eq!(view.viewport().zoom(), 909);
    assert_eq!(view.viewport().pan(), Point::new(60, -38));
    view.handle(CanvasInput::Scroll(Point::new(5, 2)));
    assert_eq!(view.viewport().zoom(), 909);
    assert_eq!(view.viewport().pan(), Point::new(65, -36));
    view.handle(CanvasInput::Scroll(Point::new(2, 5)));
    assert_eq!(view.viewport().zoom(), 1000);
    assert_eq!(view.viewport().pan(), Point::new(65, -36));
    assert_eq!(position_of(&view, 1), Point::new(0, 0));
    assert_eq!(view.gesture(), Gesture::Idle);
}

#[test]
fn zoom_buttons_on_the_view() {
    let mut view = two_node_view();
    view.zoom_in();
    assert_eq!(view.viewport().zoom(), 1200);
    view.zoom_out();
    assert_eq!(view.viewport().zoom(), 1000);
    view.zoom_out();
    assert_eq!(view.viewport().zoom(), 833);
    for _ in 0..40 {
        view.zoom_out();
    }
    assert_eq!(view.viewport().zoom(), 100);
    for _ in 0..40 {
        view.zoom_in();
    }
    assert_eq!(view.viewport().zoom(), 5000);
}

#[test]
fn fit_view_centres_the_covered_rectangle() {
    let mut view = two_node_view();
    view.zoom_in();
    view.handle_scroll_wheel(Point::new(33, 0));
    view.fit_view();
    assert_eq!(view.viewport().zoom(), 1000);
    assert_eq!(view.viewport().pan(), Point::new(175, 260));
    view.fit_view_in(1000, 400);
    assert_eq!(view.viewport().pan(), Point::new(275, 160));
    view.fit_view_in(1001, 401);
    assert_eq!(view.viewport().pan(), Point::new(275, 160));
}

#[test]
fn fit_view_of_scattered_nodes() {
    let mut view = GraphView::new();
    view.add_node(node_at(1, -100, 500));
    view.add_node(node_at(2, 40, -300));
    view.add_node(node_at(3, 7, 7));
    view.fit_view();
    // Covered: x from -100 to 190, y from -300 to 580.
    assert_eq!(view.viewport().pan(), Point::new(400 - 45, 300 - 140));
    assert_eq!(view.viewport().zoom(), 1000);
}

#[test]
fn fit_view_without_nodes_is_no_op() {
    let mut view: GraphView<u8> = GraphView::new();
    view.zoom_in();
    view.handle_scroll_wheel(Point::new(5, 0));
    view.fit_view();
    assert_eq!(view.viewport().zoom(), 1200);
    assert_eq!(view.viewport().pan(), Point::new(5, 0));
}

#[test]
fn fit_view_at_the_ends_of_the_range() {
    let mut view = GraphView::new();
    view.add_node(node_at(1, i64::MAX, i64::MIN));
    view.fit_view();
    assert_eq!(view.viewport().pan(), Point::new(i64::MIN + 1 + 400 - 75, i64::MAX));
}

#[test]
fn handle_dispatches_inputs() {
    let mut view = two_node_view();
    view.handle(CanvasInput::MouseDown(Point::new(50, 40)));
    view.handle(CanvasInput::MouseMove(Point::new(250, 40)));
    view.handle(CanvasInput::MouseUp);
    assert_eq!(position_of(&view, 1), Point::new(200, 0));
    view.handle(CanvasInput::ZoomIn);
    assert_eq!(view.viewport().zoom(), 1200);
    view.handle(CanvasInput::ZoomOut);
    view.handle(CanvasInput::Scroll(Point::new(0, -2)));
    assert_eq!(view.viewport().zoom(), 909);
    view.handle(CanvasInput::FitView);
    assert_eq!(view.viewport().zoom(), 1000);
    // Node 1 stands at 200 now: the nodes cover x from 200 to 450.
    assert_eq!(view.viewport().pan(), Point::new(400 - 325, 300 - 40));
    view.handle(CanvasInput::ToggleLock);
    assert!(view.is_locked());
    view.handle(CanvasInput::ZoomIn);
    assert_eq!(view.viewport().zoom(), 1000);
}

#[test]
fn handle_click_reports_graph_anchor() {
    let mut view = GraphView::new();
    view.add_node(node_at(1, 0, 0).with_handles(vec![
        Handle::new("right", HandleType::Source, Position::Right),
        Handle::new("top", HandleType::Target, Position::Top),
    ]));
    view.add_node(node_at(2, 300, 100).with_handles(vec![Handle::new(
        "left",
        HandleType::Target,
        Position::Left,
    )]));
    view.zoom_in();
    view.handle_scroll_wheel(Point::new(40, 0));
    match view.handle_click(1, &"right".to_string()) {
        Some(GraphEvent::HandleClicked { node_id, handle_id, position }) => {
            assert_eq!(node_id, 1);
            assert_eq!(handle_id, "right");
            assert_eq!(position, Point::new(150, 40));
        }
        None => panic!("no event"),
    }
    match view.handle_click(2, &"left".to_string()) {
        Some(GraphEvent::HandleClicked { node_id, handle_id, position }) => {
            assert_eq!(node_id, 2);
            assert_eq!(handle_id, "left");
            assert_eq!(position, Point::new(300, 140));
        }
        None => panic!("no event"),
    }
    match view.handle_click(2, &"nowhere".to_string()) {
        Some(GraphEvent::HandleClicked { position, .. }) => {
            assert_eq!(position, Point::new(375, 180));
        }
        None => panic!("no event"),
    }
    assert!(view.handle_click(3, &"right".to_string()).is_none());
    assert_eq!(view.gesture(), Gesture::Idle);
}

#[test]
fn press_on_handle_takes_priority_over_node() {
    let mut view = GraphView::new();
    view.add_node(node_at(1, 0, 0).with_handles(vec![Handle::new(
        "right",
        HandleType::Source,
        Position::Right,
    )]));
    let handle = "right".to_string();
    let event = view.handle_press(Point::new(148, 40), Some((1, &handle)));
    assert!(matches!(
        event,
        Some(GraphEvent::HandleClicked { node_id: 1, position: Point { x: 150, y: 40 }, .. })
    ));
    assert_eq!(view.gesture(), Gesture::Idle);
    let event = view.handle_press(Point::new(148, 40), None);
    assert!(event.is_none());
    assert_eq!(
        view.gesture(),
        Gesture::DraggingNode { node_id: 1, grab_offset: Point::new(148, 40) }
    );
    let event = view.handle_press(Point::new(148, 40), Some((1, &handle)));
    assert!(event.is_some());
    assert_eq!(
        view.gesture(),
        Gesture::DraggingNode { node_id: 1, grab_offset: Point::new(148, 40) }
    );
}

use gpuiflow::geometry::Point;
use gpuiflow::graph::{Edge, Graph, Node};
use gpuiflow::handle::{Handle, HandleType, Position};

#[test]
fn new_node_has_defaults() {
    let node = Node::new("payload".to_string(), Point::new(3, -4));
    assert_eq!(node.position, Point { x: 3, y: -4 });
    assert_eq!(node.data, "payload");
    assert!(node.handles.is_empty());
    assert_eq!(node.node_type, "default");
}

#[test]
fn new_ids_are_random_uuids() {
    let a = Node::new((), Point::new(0, 0));
    let b = Node::new((), Point::new(0, 0));
    let e = Edge::new(a.id, b.id);
    for id in [a.id, b.id, e.id] {
        assert_eq!((id >> 76) & 0xF, 4);
        assert_eq!((id >> 62) & 0x3, 2);
    }
    assert_ne!(a.id, b.id);
    assert_ne!(a.id, e.id);
}

#[test]
fn get_node_finds_first_with_id() {
    let mut graph: Graph<u8> = Graph::new();
    graph.add_node(Node::with_id(7, 1u8, Point::new(0, 0)));
    graph.add_node(Node::with_id(9, 2u8, Point::new(10, 10)));
    graph.add_node(Node::with_id(7, 3u8, Point::new(20, 20)));
    assert_eq!(graph.get_node(7).map(|n| n.data), Some(1));
    assert_eq!(graph.get_node(9).map(|n| n.data), Some(2));
    assert!(graph.get_node(8).is_none());
    assert_eq!(graph.node_index(7), Some(0));
}

#[test]
fn handle_anchor_by_side() {
    let node = Node::new((), Point::new(500, 500)).with_handles(vec![
        Handle::new("t", HandleType::Target, Position::Top),
        Handle::new("b", HandleType::Source, Position::Bottom),
        Handle::new("l", HandleType::Target, Position::Left),
        Handle::new("r", HandleType::Source, Position::Right),
    ]);
    let fallback = Point::new(-1, -1);
    assert_eq!(node.handle_anchor(Some(&"t".to_string()), fallback), Point::new(75, 0));
    assert_eq!(node.handle_anchor(Some(&"b".to_string()), fallback), Point::new(75, 80));
    assert_eq!(node.handle_anchor(Some(&"l".to_string()), fallback), Point::new(0, 40));
    assert_eq!(node.handle_anchor(Some(&"r".to_string()), fallback), Point::new(150, 40));
    assert_eq!(node.handle_anchor(Some(&"x".to_string()), fallback), fallback);
    assert_eq!(node.handle_anchor(None, fallback), fallback);
}

#[test]
fn with_id_takes_the_id_as_given() {
    let node = Node::with_id(42, "payload", Point::new(3, -4));
    assert_eq!(node.id, 42);
    assert_eq!(node.position, Point::new(3, -4));
    assert_eq!(node.data, "payload");
    assert!(node.handles.is_empty());
    assert_eq!(node.node_type, "default");
    let edge = Edge::with_id(u128::MAX, 42, 43);
    assert_eq!(edge.id, u128::MAX);
    assert_eq!(edge.source_id, 42);
    assert_eq!(edge.target_id, 43);
    assert_eq!(edge.source_handle_id, None);
    assert_eq!(edge.target_handle_id, None);
    assert_eq!(Node::with_id(0, (), Point::new(0, 0)).id, 0);
}

#[test]
fn default_graph_is_empty() {
    let graph: Graph<u8> = Graph::default();
    assert!(graph.nodes.is_empty());
    assert!(graph.edges.is_empty());
}

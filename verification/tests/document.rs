use wglymr_node_editor::adapter::{BasicDocumentAdapter, DocumentAdapter};
use wglymr_node_editor::descriptors::SocketDirection;
use wglymr_node_editor::ids::{EdgeId, EditorCommand, NodeId, NodePosition, SocketId};
use wglymr_node_editor::test_adapter::TestDocumentAdapter;
use wglymr_node_editor::topology::{build_render_edges, socket_rows, socket_slots};

#[test]
fn basic_adapter_starts_empty_at_revision_zero() {
    let a = BasicDocumentAdapter::new();
    assert_eq!(a.document_revision(), 0);
    assert!(a.nodes().is_empty());
    assert!(a.sockets().is_empty());
    assert!(a.edges().is_empty());
}

#[test]
fn revision_counts_commands() {
    let mut a = BasicDocumentAdapter::new();
    a.apply_command(EditorCommand::RemoveNode { node_id: NodeId(1) });
    a.apply_command(EditorCommand::Connect { from: SocketId(1), to: SocketId(2) });
    a.apply_command(EditorCommand::Disconnect { edge_id: EdgeId(3) });
    assert_eq!(a.document_revision(), 3);
    let mut t = TestDocumentAdapter::new();
    t.apply_command(EditorCommand::MoveNode { node_id: NodeId(2), position: NodePosition::from_bits(0, 0) });
    assert_eq!(t.document_revision(), 1);
    assert_eq!(t.nodes().len(), 3);
}

#[test]
fn test_document_nodes() {
    let t = TestDocumentAdapter::new();
    let nodes = t.nodes();
    assert_eq!(nodes.len(), 3);
    assert_eq!(nodes[0].node_id, NodeId(1));
    assert_eq!(nodes[0].node_kind, "TestInput");
    assert_eq!(f32::from_bits(nodes[0].position.x_bits), 50.0);
    assert_eq!(f32::from_bits(nodes[0].position.y_bits), 100.0);
    assert!(nodes[0].inputs.is_empty());
    assert_eq!(nodes[0].outputs, vec![SocketId(1)]);
    assert_eq!(nodes[1].node_kind, "TestProcess");
    assert_eq!(f32::from_bits(nodes[1].position.x_bits), 300.0);
    assert_eq!(f32::from_bits(nodes[1].position.y_bits), 80.0);
    assert_eq!(nodes[1].inputs, vec![SocketId(2)]);
    assert_eq!(nodes[1].outputs, vec![SocketId(3)]);
    assert_eq!(nodes[2].node_kind, "TestOutput");
    assert_eq!(f32::from_bits(nodes[2].position.x_bits), 550.0);
    assert_eq!(f32::from_bits(nodes[2].position.y_bits), 120.0);
    assert_eq!(nodes[2].inputs, vec![SocketId(4)]);
    assert!(nodes[2].outputs.is_empty());
}

#[test]
fn test_document_sockets_and_edges() {
    let t = TestDocumentAdapter::new();
    let sockets = t.sockets();
    assert_eq!(sockets.len(), 4);
    let expected = [
        (1, 1, "Output", SocketDirection::Output, 1),
        (2, 2, "Input", SocketDirection::Input, 1),
        (3, 2, "Output", SocketDirection::Output, 2),
        (4, 3, "Input", SocketDirection::Input, 2),
    ];
    for (s, (id, node, name, dir, edge)) in sockets.iter().zip(expected.iter()) {
        assert_eq!(s.socket_id, SocketId(*id));
        assert_eq!(s.node_id, NodeId(*node));
        assert_eq!(s.name, *name);
        assert_eq!(s.direction, *dir);
        assert_eq!(s.value_type.as_deref(), Some("Value"));
        assert!(s.default_value.is_none());
        assert_eq!(s.connected_edges, vec![EdgeId(*edge)]);
    }
    let edges = t.edges();
    assert_eq!(edges.len(), 2);
    assert_eq!((edges[0].edge_id, edges[0].from, edges[0].to), (EdgeId(1), SocketId(1), SocketId(2)));
    assert_eq!((edges[1].edge_id, edges[1].from, edges[1].to), (EdgeId(2), SocketId(3), SocketId(4)));
}

#[test]
fn all_test_edges_are_drawable() {
    let t = TestDocumentAdapter::new();
    assert_eq!(build_render_edges(t.nodes(), t.sockets(), t.edges()), vec![0, 1]);
}

#[test]
fn edges_to_unknown_sockets_are_not_drawn() {
    let t = TestDocumentAdapter::new();
    // Without the last socket, node 3 draws no input, so the second edge has no end.
    let sockets = &t.sockets()[..3];
    assert_eq!(build_render_edges(t.nodes(), sockets, t.edges()), vec![0]);
}

#[test]
fn socket_slots_keep_positions_of_known_sockets() {
    let t = TestDocumentAdapter::new();
    let ids = vec![SocketId(9), SocketId(2), SocketId(8), SocketId(3)];
    assert_eq!(socket_slots(&ids, t.sockets()), vec![(1, SocketId(2)), (3, SocketId(3))]);
    assert_eq!(socket_rows(&t.nodes()[1]), 1);
    assert_eq!(socket_rows(&t.nodes()[0]), 1);
}

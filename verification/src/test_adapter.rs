//! A document adapter that serves a fixed three-node document, for exercising
//! the whole pipeline (layout, hit testing, interaction) without a real graph.
use vstd::prelude::*;
use crate::adapter::DocumentAdapter;
use crate::descriptors::{EdgeDescriptor, NodeDescriptor, SocketDescriptor, SocketDirection};
use crate::ids::{EdgeId, EditorCommand, NodeId, NodePosition, SocketId};

verus! {

/// Bit patterns of the world coordinates 50, 80, 100, 120, 300 and 550.
pub const COORD_50: u32 = 0x4248_0000u32;
pub const COORD_80: u32 = 0x42A0_0000u32;
pub const COORD_100: u32 = 0x42C8_0000u32;
pub const COORD_120: u32 = 0x42F0_0000u32;
pub const COORD_300: u32 = 0x4396_0000u32;
pub const COORD_550: u32 = 0x4409_8000u32;

/// `d` is the node `id` of kind `kind` at (`x`, `y`) with the given sockets and no diagnostics.
pub open spec fn node_is(
    d: NodeDescriptor,
    id: u64,
    kind: Seq<char>,
    x: u32,
    y: u32,
    inputs: Seq<SocketId>,
    outputs: Seq<SocketId>,
) -> bool {
    &&& d.node_id == NodeId(id)
    &&& d.node_kind@ == kind
    &&& d.position == NodePosition { x_bits: x, y_bits: y }
    &&& d.inputs@ == inputs
    &&& d.outputs@ == outputs
    &&& d.diagnostics@.len() == 0
}

/// `s` is the socket `id` of node `node`, named `name`, carrying "Value",
/// with no default, attached to the single edge `edge` and with no diagnostics.
pub open spec fn socket_is(
    s: SocketDescriptor,
    id: u64,
    node: u64,
    name: Seq<char>,
    direction: SocketDirection,
    edge: u64,
) -> bool {
    &&& s.socket_id == SocketId(id)
    &&& s.node_id == NodeId(node)
    &&& s.name@ == name
    &&& s.direction == direction
    &&& s.value_type is Some
    &&& s.value_type->0@ == "Value"@
    &&& s.default_value is None
    &&& s.connected_edges@ == seq![EdgeId(edge)]
    &&& s.diagnostics@.len() == 0
}

/// `e` is the edge `id` from socket `from` to socket `to`, with no diagnostics.
pub open spec fn edge_is(e: EdgeDescriptor, id: u64, from: u64, to: u64) -> bool {
    &&& e.edge_id == EdgeId(id)
    &&& e.from == SocketId(from)
    &&& e.to == SocketId(to)
    &&& e.diagnostics@.len() == 0
}

/// The three test nodes: an input, a process step and an output.
pub open spec fn test_nodes(n: Seq<NodeDescriptor>) -> bool {
    &&& n.len() == 3
    &&& node_is(n[0], 1, "TestInput"@, COORD_50, COORD_100, seq![], seq![SocketId(1)])
    &&& node_is(n[1], 2, "TestProcess"@, COORD_300, COORD_80, seq![SocketId(2)], seq![SocketId(3)])
    &&& node_is(n[2], 3, "TestOutput"@, COORD_550, COORD_120, seq![SocketId(4)], seq![])
}

/// The four test sockets, one output and one input on each link.
pub open spec fn test_sockets(s: Seq<SocketDescriptor>) -> bool {
    &&& s.len() == 4
    &&& socket_is(s[0], 1, 1, "Output"@, SocketDirection::Output, 1)
    &&& socket_is(s[1], 2, 2, "Input"@, SocketDirection::Input, 1)
    &&& socket_is(s[2], 3, 2, "Output"@, SocketDirection::Output, 2)
    &&& socket_is(s[3], 4, 3, "Input"@, SocketDirection::Input, 2)
}

/// The two test edges: node 1 into node 2, node 2 into node 3.
pub open spec fn test_edges(e: Seq<EdgeDescriptor>) -> bool {
    &&& e.len() == 2
    &&& edge_is(e[0], 1, 1, 2)
    &&& edge_is(e[1], 2, 3, 4)
}

fn text(s: &str) -> (r: String)
    ensures
        r@ == s@,
{
    s.to_owned()
}

fn node(id: u64, kind: &str, x: u32, y: u32, inputs: Vec<SocketId>, outputs: Vec<SocketId>) -> (d: NodeDescriptor)
    ensures
        node_is(d, id, kind@, x, y, inputs@, outputs@),
{
    NodeDescriptor {
        node_id: NodeId(id),
        node_kind: text(kind),
        position: NodePosition { x_bits: x, y_bits: y },
        inputs,
        outputs,
        diagnostics: Vec::new(),
    }
}

fn socket(id: u64, node: u64, name: &str, direction: SocketDirection, edge: u64) -> (s: SocketDescriptor)
    ensures
        socket_is(s, id, node, name@, direction, edge),
{
    let mut connected_edges = Vec::new();
    connected_edges.push(EdgeId(edge));
    proof {
        assert(connected_edges@ =~= seq![EdgeId(edge)]);
    }
    SocketDescriptor {
        socket_id: SocketId(id),
        node_id: NodeId(node),
        name: text(name),
        direction,
        value_type: Some(text("Value")),
        default_value: None,
        connected_edges,
        diagnostics: Vec::new(),
    }
}

fn edge(id: u64, from: u64, to: u64) -> (e: EdgeDescriptor)
    ensures
        edge_is(e, id, from, to),
{
    EdgeDescriptor { edge_id: EdgeId(id), from: SocketId(from), to: SocketId(to), diagnostics: Vec::new() }
}

/// Serves the fixed test document; its revision counts the commands applied.
pub struct TestDocumentAdapter {
    revision: u64,
    nodes: Vec<NodeDescriptor>,
    sockets: Vec<SocketDescriptor>,
    edges: Vec<EdgeDescriptor>,
}

impl TestDocumentAdapter {
    /// The test document at revision 0.
    pub fn new() -> (a: Self)
        ensures
            a.revision() == 0,
            test_nodes(a.node_list()),
            test_sockets(a.socket_list()),
            test_edges(a.edge_list()),
    {
        let mut a = TestDocumentAdapter {
            revision: 0,
            nodes: Vec::new(),
            sockets: Vec::new(),
            edges: Vec::new(),
        };
        a.nodes = a.build_test_nodes();
        a.sockets = a.build_test_sockets();
        a.edges = a.build_test_edges();
        a
    }

    /// Builds the three test nodes.
    pub fn build_test_nodes(&self) -> (n: Vec<NodeDescriptor>)
        ensures
            test_nodes(n@),
    {
        let mut v = Vec::new();
        v.push(node(1, "TestInput", COORD_50, COORD_100, Vec::new(), vec![SocketId(1)]));
        v.push(node(2, "TestProcess", COORD_300, COORD_80, vec![SocketId(2)], vec![SocketId(3)]));
        v.push(node(3, "TestOutput", COORD_550, COORD_120, vec![SocketId(4)], Vec::new()));
        proof {
            assert(v@[0].inputs@ =~= seq![]);
            assert(v@[0].outputs@ =~= seq![SocketId(1)]);
            assert(v@[1].inputs@ =~= seq![SocketId(2)]);
            assert(v@[1].outputs@ =~= seq![SocketId(3)]);
            assert(v@[2].inputs@ =~= seq![SocketId(4)]);
            assert(v@[2].outputs@ =~= seq![]);
        }
        v
    }

    /// Builds the four test sockets.
    pub fn build_test_sockets(&self) -> (s: Vec<SocketDescriptor>)
        ensures
            test_sockets(s@),
    {
        let mut v = Vec::new();
        v.push(socket(1, 1, "Output", SocketDirection::Output, 1));
        v.push(socket(2, 2, "Input", SocketDirection::Input, 1));
        v.push(socket(3, 2, "Output", SocketDirection::Output, 2));
        v.push(socket(4, 3, "Input", SocketDirection::Input, 2));
        v
    }

    /// Builds the two test edges.
    pub fn build_test_edges(&self) -> (e: Vec<EdgeDescriptor>)
        ensures
            test_edges(e@),
    {
        let mut v = Vec::new();
        v.push(edge(1, 1, 2));
        v.push(edge(2, 3, 4));
        v
    }
}

impl DocumentAdapter for TestDocumentAdapter {
    closed spec fn revision(&self) -> u64 {
        self.revision
    }

    closed spec fn node_list(&self) -> Seq<NodeDescriptor> {
        self.nodes@
    }

    closed spec fn socket_list(&self) -> Seq<SocketDescriptor> {
        self.sockets@
    }

    closed spec fn edge_list(&self) -> Seq<EdgeDescriptor> {
        self.edges@
    }

    fn apply_command(&mut self, command: EditorCommand)
        ensures
            final(self).revision() == old(self).revision() + 1,
            final(self).node_list() == old(self).node_list(),
            final(self).socket_list() == old(self).socket_list(),
            final(self).edge_list() == old(self).edge_list(),
    {
        self.revision = self.revision + 1;
    }

    fn document_revision(&self) -> (r: u64) {
        self.revision
    }

    fn nodes(&self) -> (r: &[NodeDescriptor]) {
        self.nodes.as_slice()
    }

    fn sockets(&self) -> (r: &[SocketDescriptor]) {
        self.sockets.as_slice()
    }

    fn edges(&self) -> (r: &[EdgeDescriptor]) {
        self.edges.as_slice()
    }
}

} // verus!

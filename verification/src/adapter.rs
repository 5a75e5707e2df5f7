//! The boundary between the editor and the document it edits.
use vstd::prelude::*;
use crate::descriptors::{EdgeDescriptor, NodeDescriptor, SocketDescriptor};
use crate::ids::EditorCommand;

verus! {

/// Owns a snapshot of the document and applies atomic edits to it.
pub trait DocumentAdapter {
    /// The document's revision counter.
    spec fn revision(&self) -> u64;

    /// The nodes of the current snapshot.
    spec fn node_list(&self) -> Seq<NodeDescriptor>;

    /// The sockets of the current snapshot.
    spec fn socket_list(&self) -> Seq<SocketDescriptor>;

    /// The edges of the current snapshot.
    spec fn edge_list(&self) -> Seq<EdgeDescriptor>;

    /// Applies one atomic command. The revision never goes down.
    fn apply_command(&mut self, command: EditorCommand)
        requires
            old(self).revision() < u64::MAX,
        ensures
            final(self).revision() >= old(self).revision(),
    ;

    /// The revision counter.
    fn document_revision(&self) -> (r: u64)
        ensures
            r == self.revision(),
    ;

    /// All nodes of the current snapshot.
    fn nodes(&self) -> (r: &[NodeDescriptor])
        ensures
            r@ == self.node_list(),
    ;

    /// All sockets of the current snapshot.
    fn sockets(&self) -> (r: &[SocketDescriptor])
        ensures
            r@ == self.socket_list(),
    ;

    /// All edges of the current snapshot.
    fn edges(&self) -> (r: &[EdgeDescriptor])
        ensures
            r@ == self.edge_list(),
    ;
}

/// An adapter with an empty document whose revision counts the commands applied.
pub struct BasicDocumentAdapter {
    revision: u64,
    nodes: Vec<NodeDescriptor>,
    sockets: Vec<SocketDescriptor>,
    edges: Vec<EdgeDescriptor>,
}

impl BasicDocumentAdapter {
    /// An adapter at revision 0 with no nodes, sockets or edges.
    pub fn new() -> (a: Self)
        ensures
            a.revision() == 0,
            a.node_list().len() == 0,
            a.socket_list().len() == 0,
            a.edge_list().len() == 0,
    {
        BasicDocumentAdapter {
            revision: 0,
            nodes: Vec::new(),
            sockets: Vec::new(),
            edges: Vec::new(),
        }
    }
}

impl DocumentAdapter for BasicDocumentAdapter {
    closed spec fn revision(&self) -> u64 {
        self.revision
    }

    closed spec fn node_list(&self) -> Seq<NodeDescriptor> {
        self.nodes@
    }

    closed spec fn socket_list(&self) -> Seq<SocketDescriptor> {
        self.sockets@
    }

    closed spec fn edge_list(&self) -> Seq<EdgeDescriptor> {
        self.edges@
    }

    fn apply_command(&mut self, command: EditorCommand)
        ensures
            final(self).revision() == old(self).revision() + 1,
            final(self).node_list() == old(self).node_list(),
            final(self).socket_list() == old(self).socket_list(),
            final(self).edge_list() == old(self).edge_list(),
    {
        self.revision = self.revision + 1;
    }

    fn document_revision(&self) -> (r: u64) {
        self.revision
    }

    fn nodes(&self) -> (r: &[NodeDescriptor]) {
        self.nodes.as_slice()
    }

    fn sockets(&self) -> (r: &[SocketDescriptor]) {
        self.sockets.as_slice()
    }

    fn edges(&self) -> (r: &[EdgeDescriptor]) {
        self.edges.as_slice()
    }
}

} // verus!

//! A chain of nodes sharing their downstream neighbour through
//! reference-counted handles.

use vstd::prelude::*;
use std::rc::Rc;

verus! {

/// A node with an optional shared downstream neighbour.
#[derive(Debug)]
pub struct Node {
    pub id: usize,
    pub downstream: Option<Rc<Node>>,
}

impl Node {
    /// A fresh node with no downstream neighbour.
    pub fn new(id: usize) -> (r: Self)
        ensures
            r.id == id,
            r.downstream is None,
    {
        Self { id, downstream: None }
    }

    /// Points this node at `downstream`, replacing whatever it pointed at.
    pub fn update_downstream(&mut self, downstream: Rc<Node>)
        ensures
            final(self).id == old(self).id,
            final(self).downstream == Some(downstream),
    {
        self.downstream = Some(downstream);
    }

    /// Another handle to this node's downstream neighbour, if it has one.
    pub fn get_downstream(&self) -> (r: Option<Rc<Node>>)
        ensures
            r == self.downstream,
    {
        match &self.downstream {
            Some(v) => Some(v.clone()),
            None => None,
        }
    }
}

} // verus!

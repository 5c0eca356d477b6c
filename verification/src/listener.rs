//! A bound endpoint that hands out the connections made to it.

use crate::call::{Call, CallView};
use crate::pending::{FromHandle, Pending, PendingView};
use crate::stream::Stream;
use vstd::prelude::*;

verus! {

/// A server, listening for connections: the owner of one listener handle.
///
/// It keeps the handle of the node that made it, to fetch error messages
/// from, and has no say over that node. The node must outlive it.
#[derive(Debug)]
pub struct Listener {
    ts: i32,
    handle: i32,
}

/// What a `Listener` stands for.
pub ghost struct ListenerView {
    /// The node that made the listener.
    pub ts: i32,
    /// The listener's own handle.
    pub handle: i32,
}

impl View for Listener {
    type V = ListenerView;

    closed spec fn view(&self) -> ListenerView {
        ListenerView { ts: self.ts, handle: self.handle }
    }
}

impl ListenerView {
    /// The operation that accepts the next connection.
    pub open spec fn accept(self) -> PendingView {
        PendingView { node: self.ts, call: CallView::Accept { listener: self.handle } }
    }
}

impl Listener {
    /// The listener's own handle.
    pub fn handle(&self) -> (handle: i32)
        ensures
            handle == self@.handle,
    {
        self.handle
    }

    /// Starts to accept the next connection. The call blocks in the engine
    /// until a peer has dialed or the listener fails; its errors are fetched
    /// from the node.
    pub fn accept(&self) -> (pending: Pending<Stream>)
        ensures
            pending@ == self@.accept(),
    {
        Pending::start(self.ts, Call::Accept { listener: self.handle })
    }

    /// The listener as the source of its connections.
    pub fn incoming(&mut self) -> (this: &Self)
        ensures
            this@ == old(self)@,
            final(self)@ == old(self)@,
    {
        self
    }

    /// The next of the listener's connections. The sequence has no end: there
    /// is always another accept to start.
    pub fn next(&mut self) -> (pending: Option<Pending<Stream>>)
        ensures
            pending is Some,
            pending->0@ == old(self)@.accept(),
            final(self)@ == old(self)@,
    {
        Some(self.accept())
    }

    /// Gives the listener up: the call that releases its handle.
    pub fn close(self) -> (call: Call)
        ensures
            call@ == (CallView::CloseListener { listener: self@.handle }),
    {
        Call::CloseListener { listener: self.handle }
    }
}

impl FromHandle for Listener {
    open spec fn made_of(node: i32, out: i32) -> ListenerView {
        ListenerView { ts: node, handle: out }
    }

    fn from_handle(node: i32, out: i32) -> (made: Listener) {
        Listener { ts: node, handle: out }
    }
}

} // verus!

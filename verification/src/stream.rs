//! One connection of the overlay network, by its descriptor.

use crate::pending::FromHandle;
use vstd::prelude::*;

verus! {

/// A duplex byte channel: the owner of one connection handle.
///
/// The value cannot be copied. Whoever takes the descriptor out with
/// [`Stream::into_fd`] takes over the duty to close it, once.
#[derive(Debug)]
pub struct Stream {
    fd: i32,
    nonblocking: bool,
}

/// What a `Stream` stands for.
pub ghost struct StreamView {
    pub fd: i32,
    pub nonblocking: bool,
}

impl View for Stream {
    type V = StreamView;

    closed spec fn view(&self) -> StreamView {
        StreamView { fd: self.fd, nonblocking: self.nonblocking }
    }
}

impl Stream {
    /// The stream that owns the connection `fd`, in blocking mode.
    pub(crate) fn from_fd(fd: i32) -> (stream: Stream)
        ensures
            stream@ == (StreamView { fd, nonblocking: false }),
    {
        Stream { fd, nonblocking: false }
    }

    /// The connection handle.
    pub fn fd(&self) -> (fd: i32)
        ensures
            fd == self@.fd,
    {
        self.fd
    }

    /// Whether the stream is to be used without blocking.
    pub fn is_nonblocking(&self) -> (nonblocking: bool)
        ensures
            nonblocking == self@.nonblocking,
    {
        self.nonblocking
    }

    /// The same connection, to be used without blocking.
    pub fn into_nonblocking(self) -> (stream: Stream)
        ensures
            stream@ == (StreamView { fd: self@.fd, nonblocking: true }),
    {
        Stream { fd: self.fd, nonblocking: true }
    }

    /// Gives the connection handle up.
    pub fn into_fd(self) -> (fd: i32)
        ensures
            fd == self@.fd,
    {
        self.fd
    }
}

impl FromHandle for Stream {
    open spec fn made_of(node: i32, out: i32) -> StreamView {
        StreamView { fd: out, nonblocking: false }
    }

    fn from_handle(node: i32, out: i32) -> (made: Stream) {
        Stream::from_fd(out)
    }
}

} // verus!

//! A node of the overlay network.

use crate::adapter::AsyncListener;
use crate::call::{Call, CallView};
use crate::error::{is_nul_error, Error};
use crate::listener::Listener;
use crate::network::Network;
use crate::pending::{FromHandle, Pending, PendingView};
use crate::stream::Stream;
use crate::text::{nul_free, CText};
use vstd::prelude::*;
use vstd::utf8::encode_utf8;

verus! {

/// A node: the owner of one node handle. Can act as a server or client.
///
/// Listeners and streams made through it own their handles themselves, and
/// giving the node up does not release them.
#[derive(Debug)]
pub struct Server {
    handle: i32,
}

impl View for Server {
    type V = i32;

    closed spec fn view(&self) -> i32 {
        self.handle
    }
}

impl Server {
    /// The node that owns `handle`.
    pub(crate) fn from_handle(handle: i32) -> (server: Server)
        ensures
            server@ == handle,
    {
        Server { handle }
    }

    /// The node handle.
    pub fn handle(&self) -> (handle: i32)
        ensures
            handle == self@,
    {
        self.handle
    }

    /// The address as the engine takes it, or the encoding error for it.
    fn address(addr: &str) -> (made: Result<CText, Error>)
        ensures
            made is Ok <==> nul_free(encode_utf8(addr@)),
            made is Ok ==> made->Ok_0@ == encode_utf8(addr@),
            made is Err ==> is_nul_error(made->Err_0@, encode_utf8(addr@)),
    {
        match CText::from_text(addr) {
            Ok(text) => Ok(text),
            Err(refused) => Err(Error::NullInString(refused)),
        }
    }

    /// Starts to connect to `addr` over `network`.
    ///
    /// An address with a zero byte is refused here, before any call exists.
    /// Otherwise the operation's one call dials `addr`, with the network's
    /// token and the address as they were given.
    pub fn connect(&self, network: Network, addr: &str) -> (dial: Result<Pending<Stream>, Error>)
        ensures
            dial is Ok <==> nul_free(encode_utf8(addr@)),
            dial is Ok ==> dial->Ok_0@ == (PendingView {
                node: self@,
                call: CallView::Dial {
                    node: self@,
                    network: network.token_bytes(),
                    addr: encode_utf8(addr@),
                },
            }),
            dial is Err ==> is_nul_error(dial->Err_0@, encode_utf8(addr@)),
    {
        let addr = Server::address(addr)?;
        let network = network.c_token();
        Ok(Pending::start(self.handle, Call::Dial { node: self.handle, network, addr }))
    }

    /// Starts to listen on `address` over `network`.
    ///
    /// An address with a zero byte is refused here, before any call exists.
    pub fn listen(&self, network: Network, address: &str) -> (bind: Result<
        Pending<Listener>,
        Error,
    >)
        ensures
            bind is Ok <==> nul_free(encode_utf8(address@)),
            bind is Ok ==> bind->Ok_0@ == self.listening(network, address@),
            bind is Err ==> is_nul_error(bind->Err_0@, encode_utf8(address@)),
    {
        let addr = Server::address(address)?;
        let network = network.c_token();
        Ok(Pending::start(self.handle, Call::Listen { node: self.handle, network, addr }))
    }

    /// Starts to listen as [`Server::listen`] does, for a listener that
    /// accepts by polling.
    pub fn listen_async(&self, network: Network, address: &str) -> (bind: Result<
        Pending<AsyncListener>,
        Error,
    >)
        ensures
            bind is Ok <==> nul_free(encode_utf8(address@)),
            bind is Ok ==> bind->Ok_0@ == self.listening(network, address@),
            bind is Err ==> is_nul_error(bind->Err_0@, encode_utf8(address@)),
    {
        let addr = Server::address(address)?;
        let network = network.c_token();
        Ok(Pending::start(self.handle, Call::Listen { node: self.handle, network, addr }))
    }

    /// The operation that listens on `address` over `network`.
    pub open spec fn listening(&self, network: Network, address: Seq<char>) -> PendingView {
        PendingView {
            node: self@,
            call: CallView::Listen {
                node: self@,
                network: network.token_bytes(),
                addr: encode_utf8(address),
            },
        }
    }

    /// Gives the node up: the call that releases its handle.
    pub fn close(self) -> (call: Call)
        ensures
            call@ == (CallView::Close { node: self@ }),
    {
        Call::Close { node: self.handle }
    }
}

} // verus!

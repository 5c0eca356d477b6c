//! The unit of outside work: one call, and the reply that answers it.

use crate::error::{Error, ErrorView};
use crate::text::{nul_free, CText};
use vstd::prelude::*;

verus! {

/// Size of the buffer into which the engine writes an error message.
pub const ERRMSG_BUFFER_LEN: usize = 256;

/// The log target that switches the engine's logging off.
pub const NO_LOG_FD: i32 = -1;

/// One call for the driver to make. All but `OpenLogPipe` are calls of the
/// engine's interface, with the arguments they take.
#[derive(Debug, PartialEq, Eq)]
pub enum Call {
    /// Create a node; the reply's status is its handle.
    NewNode,
    /// Create an OS pipe and start the log relay on its read end; the reply's
    /// `out` is the write end, or the OS error code where the status is
    /// negative.
    OpenLogPipe,
    SetLogFd { node: i32, fd: i32 },
    SetDir { node: i32, dir: CText },
    SetHostname { node: i32, hostname: CText },
    SetAuthKey { node: i32, authkey: CText },
    SetControlUrl { node: i32, control_url: CText },
    SetEphemeral { node: i32, ephemeral: i32 },
    Start { node: i32 },
    Close { node: i32 },
    /// Dial `addr`; the reply's `out` is the connection.
    Dial { node: i32, network: CText, addr: CText },
    /// Listen on `addr`; the reply's `out` is the listener.
    Listen { node: i32, network: CText, addr: CText },
    /// Wait for the next connection; the reply's `out` is the connection.
    Accept { listener: i32 },
    CloseListener { listener: i32 },
    /// Fetch the message of the last failure on `handle` into a buffer of
    /// `buflen` bytes; the reply's `text` is that buffer.
    ErrMsg { handle: i32, buflen: usize },
}

/// What a `Call` stands for.
pub ghost enum CallView {
    NewNode,
    OpenLogPipe,
    SetLogFd { node: i32, fd: i32 },
    SetDir { node: i32, dir: Seq<u8> },
    SetHostname { node: i32, hostname: Seq<u8> },
    SetAuthKey { node: i32, authkey: Seq<u8> },
    SetControlUrl { node: i32, control_url: Seq<u8> },
    SetEphemeral { node: i32, ephemeral: i32 },
    Start { node: i32 },
    Close { node: i32 },
    Dial { node: i32, network: Seq<u8>, addr: Seq<u8> },
    Listen { node: i32, network: Seq<u8>, addr: Seq<u8> },
    Accept { listener: i32 },
    CloseListener { listener: i32 },
    ErrMsg { handle: i32, buflen: usize },
}

impl CallView {
    /// No string that the call carries holds a zero byte.
    pub open spec fn nul_free(self) -> bool {
        match self {
            CallView::SetDir { dir, .. } => nul_free(dir),
            CallView::SetHostname { hostname, .. } => nul_free(hostname),
            CallView::SetAuthKey { authkey, .. } => nul_free(authkey),
            CallView::SetControlUrl { control_url, .. } => nul_free(control_url),
            CallView::Dial { network, addr, .. } => nul_free(network) && nul_free(addr),
            CallView::Listen { network, addr, .. } => nul_free(network) && nul_free(addr),
            _ => true,
        }
    }
}

impl View for Call {
    type V = CallView;

    open spec fn view(&self) -> CallView {
        match self {
            Call::NewNode => CallView::NewNode,
            Call::OpenLogPipe => CallView::OpenLogPipe,
            Call::SetLogFd { node, fd } => CallView::SetLogFd { node: *node, fd: *fd },
            Call::SetDir { node, dir } => CallView::SetDir { node: *node, dir: dir@ },
            Call::SetHostname { node, hostname } => CallView::SetHostname {
                node: *node,
                hostname: hostname@,
            },
            Call::SetAuthKey { node, authkey } => CallView::SetAuthKey {
                node: *node,
                authkey: authkey@,
            },
            Call::SetControlUrl { node, control_url } => CallView::SetControlUrl {
                node: *node,
                control_url: control_url@,
            },
            Call::SetEphemeral { node, ephemeral } => CallView::SetEphemeral {
                node: *node,
                ephemeral: *ephemeral,
            },
            Call::Start { node } => CallView::Start { node: *node },
            Call::Close { node } => CallView::Close { node: *node },
            Call::Dial { node, network, addr } => CallView::Dial {
                node: *node,
                network: network@,
                addr: addr@,
            },
            Call::Listen { node, network, addr } => CallView::Listen {
                node: *node,
                network: network@,
                addr: addr@,
            },
            Call::Accept { listener } => CallView::Accept { listener: *listener },
            Call::CloseListener { listener } => CallView::CloseListener { listener: *listener },
            Call::ErrMsg { handle, buflen } => CallView::ErrMsg {
                handle: *handle,
                buflen: *buflen,
            },
        }
    }
}

impl Call {
    /// Whether this is the fetch of an error message.
    pub fn is_errmsg(&self) -> (fetch: bool)
        ensures
            fetch == (self@ is ErrMsg),
    {
        match self {
            Call::ErrMsg { .. } => true,
            _ => false,
        }
    }

    /// Shows that no string of the call holds a zero byte.
    pub(crate) fn strings_nul_free(&self)
        ensures
            self@.nul_free(),
    {
        proof {
            match self {
                Call::SetDir { dir, .. } => {
                    use_type_invariant(dir);
                    dir.zero_free_bytes();
                },
                Call::SetHostname { hostname, .. } => {
                    use_type_invariant(hostname);
                    hostname.zero_free_bytes();
                },
                Call::SetAuthKey { authkey, .. } => {
                    use_type_invariant(authkey);
                    authkey.zero_free_bytes();
                },
                Call::SetControlUrl { control_url, .. } => {
                    use_type_invariant(control_url);
                    control_url.zero_free_bytes();
                },
                Call::Dial { network, addr, .. } => {
                    use_type_invariant(network);
                    network.zero_free_bytes();
                    use_type_invariant(addr);
                    addr.zero_free_bytes();
                },
                Call::Listen { network, addr, .. } => {
                    use_type_invariant(network);
                    network.zero_free_bytes();
                    use_type_invariant(addr);
                    addr.zero_free_bytes();
                },
                _ => {},
            }
        }
    }
}

/// What came back from a call.
#[derive(Debug, PartialEq, Eq)]
pub struct Reply {
    /// The integer that the call returned.
    pub status: i32,
    /// What it stored through its out-parameter; 0 where it has none.
    pub out: i32,
    /// What it left in the buffer handed to it; empty where it takes none.
    pub text: Vec<u8>,
}

/// What a `Reply` stands for.
pub ghost struct ReplyView {
    pub status: i32,
    pub out: i32,
    pub text: Seq<u8>,
}

impl View for Reply {
    type V = ReplyView;

    open spec fn view(&self) -> ReplyView {
        ReplyView { status: self.status, out: self.out, text: self.text@ }
    }
}

/// Where an operation stands after a reply.
#[derive(Debug)]
pub enum Step<M, T> {
    /// One more call is to be made: that of the operation inside.
    Next(M),
    /// The operation is over, with this result.
    Done(Result<T, Error>),
}

/// What a `Step` stands for.
pub ghost enum StepView<M, T> {
    Next(M),
    Done(Result<T, ErrorView>),
}

impl<M: View, T: View> View for Step<M, T> {
    type V = StepView<M::V, T::V>;

    open spec fn view(&self) -> StepView<M::V, T::V> {
        match self {
            Step::Next(operation) => StepView::Next(operation@),
            Step::Done(Ok(made)) => StepView::Done(Ok(made@)),
            Step::Done(Err(error)) => StepView::Done(Err(error@)),
        }
    }
}

} // verus!

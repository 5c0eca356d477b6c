//! What the engine's integer status means.
//!
//! A status below zero is a failure, anything else a success. A failure is
//! followed by a fetch of its message from the handle that made the call.

use crate::call::{Call, CallView, Reply, ERRMSG_BUFFER_LEN};
use crate::error::{Error, ErrorView};
use crate::text::{decode_lossy, nul_free, utf8_lossy};
use vstd::prelude::*;
use vstd::slice::slice_subrange;
use vstd::utf8::{decode_utf8, valid_utf8};

verus! {

/// The longest message that the buffer can hold before its terminator.
pub const MESSAGE_MAX: usize = ERRMSG_BUFFER_LEN - 1;

/// Whether a status reports a failure.
pub open spec fn failed(code: i32) -> bool {
    code < 0
}

/// `n` is the length of the message in `buf`: the message ends before the
/// first zero byte, at `MESSAGE_MAX` bytes, or with the buffer, whichever
/// comes first.
pub open spec fn is_message_len(buf: Seq<u8>, n: int) -> bool {
    &&& 0 <= n <= buf.len()
    &&& n <= MESSAGE_MAX
    &&& forall|i: int| 0 <= i < n ==> buf[i] != 0
    &&& n < buf.len() && n < MESSAGE_MAX ==> buf[n] == 0
}

/// The length of the message in `buf`.
pub open spec fn message_len(buf: Seq<u8>) -> int {
    choose|n: int| is_message_len(buf, n)
}

/// The bytes of the message in `buf`.
pub open spec fn message_bytes(buf: Seq<u8>) -> Seq<u8> {
    buf.take(message_len(buf))
}

/// Every buffer holds exactly one message.
pub proof fn message_len_unique(buf: Seq<u8>, n: int)
    requires
        is_message_len(buf, n),
    ensures
        message_len(buf) == n,
{
    let m = message_len(buf);
    assert(is_message_len(buf, m));
    if m < n {
        assert(buf[m] != 0);
    } else if n < m {
        assert(buf[n] != 0);
    }
}

/// The message in `buf` holds no zero byte and at most `MESSAGE_MAX` bytes,
/// whatever the buffer holds.
pub proof fn message_bounded(buf: Seq<u8>)
    ensures
        is_message_len(buf, message_len(buf)),
        message_bytes(buf).len() <= MESSAGE_MAX,
        nul_free(message_bytes(buf)),
        message_bytes(buf).is_prefix_of(buf),
{
    message_exists(buf, 0);
}

proof fn message_exists(buf: Seq<u8>, from: int)
    requires
        0 <= from <= buf.len(),
        from <= MESSAGE_MAX,
        forall|i: int| 0 <= i < from ==> buf[i] != 0,
    ensures
        exists|n: int| is_message_len(buf, n),
    decreases buf.len() - from,
{
    if from < buf.len() && from < MESSAGE_MAX && buf[from] != 0 {
        message_exists(buf, from + 1);
    } else {
        assert(is_message_len(buf, from));
    }
}

/// Length of the message in `buf`.
fn scan_message(buf: &[u8]) -> (n: usize)
    ensures
        is_message_len(buf@, n as int),
        n as int == message_len(buf@),
{
    let mut n: usize = 0;
    while n < buf.len() && n < MESSAGE_MAX && buf[n] != 0
        invariant
            n <= buf.len(),
            n <= MESSAGE_MAX,
            forall|i: int| 0 <= i < n ==> buf@[i] != 0,
        decreases buf.len() - n,
    {
        n += 1;
    }
    proof {
        message_len_unique(buf@, n as int);
    }
    n
}

/// What a status asks for: `None` where `code` reports success, else
/// the fetch of the failure's message from `handle`, into a buffer of
/// `ERRMSG_BUFFER_LEN` bytes.
pub fn err(handle: i32, code: i32) -> (fetch: Option<Call>)
    ensures
        fetch is None <==> !failed(code),
        fetch is Some ==> fetch->0@ == (CallView::ErrMsg { handle, buflen: ERRMSG_BUFFER_LEN }),
{
    if code < 0 {
        Some(Call::ErrMsg { handle, buflen: ERRMSG_BUFFER_LEN })
    } else {
        None
    }
}

/// The bytes of the message in `buf`.
pub fn message_in(buf: &[u8]) -> (message: &[u8])
    ensures
        message@ == message_bytes(buf@),
{
    let n = scan_message(buf);
    let message = slice_subrange(buf, 0, n);
    assert(message@ =~= message_bytes(buf@));
    message
}

/// The text of the message in `buf`, decoded leniently. A message in
/// well-formed UTF-8 is decoded as it stands.
pub fn message_of(buf: &[u8]) -> (message: String)
    ensures
        message@ == utf8_lossy(message_bytes(buf@)),
        valid_utf8(message_bytes(buf@)) ==> message@ == decode_utf8(message_bytes(buf@)),
{
    decode_lossy(message_in(buf))
}

/// What a fetched message amounts to: the engine error whose message the fetch
/// left in `fetched.text`. The fetch itself must have succeeded.
pub fn engine_error(fetched: &Reply) -> (error: Error)
    requires
        fetched.status == 0,
    ensures
        error@ == ErrorView::TSNet(utf8_lossy(message_bytes(fetched.text@))),
        valid_utf8(message_bytes(fetched.text@)) ==> error@ == ErrorView::TSNet(
            decode_utf8(message_bytes(fetched.text@)),
        ),
{
    Error::TSNet(message_of(fetched.text.as_slice()))
}

} // verus!

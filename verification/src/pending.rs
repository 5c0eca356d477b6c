//! An engine call whose reply yields a handle.
//!
//! Dialing, listening and accepting all run alike. One call is made. A
//! status of zero or more ends the operation with the handle that the call
//! stored. A status below zero asks for one more call, the fetch of the
//! message, and the operation then ends with the engine's error.

use crate::call::{Call, CallView, Reply, ReplyView, Step, StepView, ERRMSG_BUFFER_LEN};
use crate::error::ErrorView;
use crate::status::{engine_error, err, failed, message_bytes};
use crate::text::utf8_lossy;
use core::marker::PhantomData;
use vstd::prelude::*;
use vstd::utf8::{decode_utf8, valid_utf8};

verus! {

/// A value that owns a handle which an engine call created.
pub trait FromHandle: View + Sized {
    /// What is made of the handle `out` that a call on `node` stored.
    spec fn made_of(node: i32, out: i32) -> Self::V;

    /// Wraps the handle `out` that a call on `node` stored.
    fn from_handle(node: i32, out: i32) -> (made: Self)
        ensures
            made@ == Self::made_of(node, out),
    ;
}

/// An operation under way: the call to make now, and the node whose error
/// state the call touches.
#[derive(Debug)]
pub struct Pending<T> {
    node: i32,
    call: Call,
    made: PhantomData<T>,
}

/// What a `Pending` stands for.
pub ghost struct PendingView {
    pub node: i32,
    pub call: CallView,
}

impl PendingView {
    /// Whether the call under way is the fetch of an error message.
    pub open spec fn fetching(self) -> bool {
        self.call is ErrMsg
    }

    /// Where the operation stands once `reply` has answered its call.
    pub open spec fn resolve<T: FromHandle>(self, reply: ReplyView) -> StepView<PendingView, T::V> {
        if self.fetching() {
            StepView::Done(Err(ErrorView::TSNet(utf8_lossy(message_bytes(reply.text)))))
        } else if failed(reply.status) {
            StepView::Next(
                PendingView {
                    node: self.node,
                    call: CallView::ErrMsg { handle: self.node, buflen: ERRMSG_BUFFER_LEN },
                },
            )
        } else {
            StepView::Done(Ok(T::made_of(self.node, reply.out)))
        }
    }
}

impl<T> View for Pending<T> {
    type V = PendingView;

    closed spec fn view(&self) -> PendingView {
        PendingView { node: self.node, call: self.call@ }
    }
}

impl<T: FromHandle> Pending<T> {
    /// The operation that starts with `call` and fetches errors from `node`.
    pub(crate) fn start(node: i32, call: Call) -> (pending: Self)
        ensures
            pending@ == (PendingView { node, call: call@ }),
    {
        Pending { node, call, made: PhantomData }
    }

    /// The call to make now. No string in it holds a zero byte.
    pub fn call(&self) -> (call: &Call)
        ensures
            call@ == self@.call,
            call@.nul_free(),
    {
        self.call.strings_nul_free();
        &self.call
    }

    /// Whether the call under way is the fetch of an error message.
    pub fn fetching(&self) -> (fetching: bool)
        ensures
            fetching == self@.fetching(),
    {
        self.call.is_errmsg()
    }

    /// Takes the reply to the call under way. A fetch of an error message
    /// must itself have succeeded.
    pub fn resolve(self, reply: &Reply) -> (step: Step<Pending<T>, T>)
        requires
            self@.fetching() ==> reply.status == 0,
        ensures
            step@ == self@.resolve::<T>(reply@),
            self@.fetching() && valid_utf8(message_bytes(reply.text@)) ==> step@ == StepView::<
                PendingView,
                T::V,
            >::Done(Err(ErrorView::TSNet(decode_utf8(message_bytes(reply.text@))))),
    {
        if self.call.is_errmsg() {
            Step::Done(Err(engine_error(reply)))
        } else {
            match err(self.node, reply.status) {
                Some(fetch) => Step::Next(Pending { node: self.node, call: fetch, made: PhantomData }),
                None => Step::Done(Ok(T::from_handle(self.node, reply.out))),
            }
        }
    }
}

} // verus!

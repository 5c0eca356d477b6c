//! Accepting without blocking, for a cooperative scheduler.
//!
//! An accept blocks in the engine, so it is offloaded to a worker and polled.
//! The adapter keeps count of the one accept that may be under way: it says
//! when a new one is to be offloaded, and what a poll of it yields.

use crate::error::{Error, ErrorView};
use crate::listener::{Listener, ListenerView};
use crate::pending::{FromHandle, Pending, PendingView};
use crate::stream::{Stream, StreamView};
use vstd::prelude::*;

verus! {

/// The outcome of a poll: a value, or none yet.
#[derive(Debug)]
pub enum Poll<T> {
    /// The value is there.
    Ready(T),
    /// Nothing is there yet; the task is woken when it may be.
    Pending,
}

/// A listener that accepts by polling, one accept at a time.
#[derive(Debug)]
pub struct AsyncListener {
    listener: Listener,
    in_flight: bool,
}

/// What an `AsyncListener` stands for.
pub ghost struct AsyncListenerView {
    pub listener: ListenerView,
    /// Whether an offloaded accept has not been consumed yet.
    pub in_flight: bool,
}

impl View for AsyncListener {
    type V = AsyncListenerView;

    closed spec fn view(&self) -> AsyncListenerView {
        AsyncListenerView { listener: self.listener@, in_flight: self.in_flight }
    }
}

/// What an accepted connection stands for, or the error in its place.
pub type Accepted = Result<StreamView, ErrorView>;

/// What `accepted` stands for.
pub open spec fn accepted_view(accepted: Result<Stream, Error>) -> Accepted {
    match accepted {
        Ok(stream) => Ok(stream@),
        Err(error) => Err(error@),
    }
}

/// What a poll of the offloaded accept stands for.
pub open spec fn polled_view(polled: Poll<Result<Stream, Error>>) -> Poll<Accepted> {
    match polled {
        Poll::Ready(accepted) => Poll::Ready(accepted_view(accepted)),
        Poll::Pending => Poll::Pending,
    }
}

/// What a poll of the adapter stands for.
pub open spec fn yield_view(yielded: Poll<Option<Result<Stream, Error>>>) -> Poll<
    Option<Accepted>,
> {
    match yielded {
        Poll::Ready(Some(accepted)) => Poll::Ready(Some(accepted_view(accepted))),
        Poll::Ready(None) => Poll::Ready(None),
        Poll::Pending => Poll::Pending,
    }
}

/// The accepted connection as the adapter hands it on: marked for use without
/// blocking. An error is handed on as it is.
pub open spec fn handed_on(accepted: Accepted) -> Accepted {
    match accepted {
        Ok(stream) => Ok(StreamView { fd: stream.fd, nonblocking: true }),
        Err(error) => Err(error),
    }
}

impl AsyncListenerView {
    /// The adapter once a poll has seen to it that an accept is under way.
    pub open spec fn offload(self) -> AsyncListenerView {
        AsyncListenerView { listener: self.listener, in_flight: true }
    }

    /// The adapter after its accept under way was polled with `polled`.
    pub open spec fn poll_accept(self, polled: Poll<Accepted>) -> AsyncListenerView {
        match polled {
            Poll::Ready(_) => AsyncListenerView { listener: self.listener, in_flight: false },
            Poll::Pending => self,
        }
    }

    /// What the adapter yields when its accept under way was polled with
    /// `polled`.
    pub open spec fn yields(self, polled: Poll<Accepted>) -> Poll<Option<Accepted>> {
        match polled {
            Poll::Ready(accepted) => Poll::Ready(Some(handed_on(accepted))),
            Poll::Pending => Poll::Pending,
        }
    }
}

impl AsyncListener {
    /// Whether an offloaded accept has not been consumed yet.
    pub fn in_flight(&self) -> (in_flight: bool)
        ensures
            in_flight == self@.in_flight,
    {
        self.in_flight
    }

    /// First half of a poll. Where no accept is under way, hands out the one
    /// to offload to a worker and counts it as under way; where one is,
    /// hands out nothing.
    pub fn offload(&mut self) -> (accept: Option<Pending<Stream>>)
        ensures
            final(self)@ == old(self)@.offload(),
            accept is Some <==> !old(self)@.in_flight,
            accept is Some ==> accept->0@ == old(self)@.listener.accept(),
    {
        if self.in_flight {
            None
        } else {
            self.in_flight = true;
            Some(self.listener.accept())
        }
    }

    /// Second half of a poll: takes what polling the accept under way gave.
    /// An accept that is not done stays under way and the poll yields
    /// nothing yet. One that is done is consumed: its connection, marked for
    /// use without blocking, or its error is yielded, and the next poll
    /// offloads anew.
    pub fn poll_accept(&mut self, polled: Poll<Result<Stream, Error>>) -> (yielded: Poll<
        Option<Result<Stream, Error>>,
    >)
        requires
            old(self)@.in_flight,
        ensures
            final(self)@ == old(self)@.poll_accept(polled_view(polled)),
            yield_view(yielded) == old(self)@.yields(polled_view(polled)),
    {
        match polled {
            Poll::Ready(Ok(stream)) => {
                self.in_flight = false;
                Poll::Ready(Some(Ok(stream.into_nonblocking())))
            },
            Poll::Ready(Err(error)) => {
                self.in_flight = false;
                Poll::Ready(Some(Err(error)))
            },
            Poll::Pending => Poll::Pending,
        }
    }

    /// Gives the adapter up for the listener inside. An accept under way is
    /// abandoned, not cancelled.
    pub fn into_listener(self) -> (listener: Listener)
        ensures
            listener@ == self@.listener,
    {
        self.listener
    }
}

impl FromHandle for AsyncListener {
    open spec fn made_of(node: i32, out: i32) -> AsyncListenerView {
        AsyncListenerView { listener: Listener::made_of(node, out), in_flight: false }
    }

    fn from_handle(node: i32, out: i32) -> (made: AsyncListener) {
        AsyncListener { listener: Listener::from_handle(node, out), in_flight: false }
    }
}

/// What a run of polls yields, from an adapter in state `adapter`: each poll
/// sees to it that an accept is under way, then polls it.
pub open spec fn yielded_by(adapter: AsyncListenerView, polls: Seq<Poll<Accepted>>) -> Seq<
    Accepted,
>
    decreases polls.len(),
{
    if polls.len() == 0 {
        seq![]
    } else {
        let under_way = adapter.offload();
        let rest = yielded_by(under_way.poll_accept(polls[0]), polls.drop_first());
        match under_way.yields(polls[0]) {
            Poll::Ready(Some(accepted)) => seq![accepted] + rest,
            _ => rest,
        }
    }
}

/// The accepts that a run of polls found done, in the order of the polls.
pub open spec fn completed_in(polls: Seq<Poll<Accepted>>) -> Seq<Accepted>
    decreases polls.len(),
{
    if polls.len() == 0 {
        seq![]
    } else {
        match polls[0] {
            Poll::Ready(accepted) => seq![accepted] + completed_in(polls.drop_first()),
            Poll::Pending => completed_in(polls.drop_first()),
        }
    }
}

/// The accepts that a run of polls found done with a connection, by their
/// handles.
pub open spec fn handles_of(accepts: Seq<Accepted>) -> Seq<i32>
    decreases accepts.len(),
{
    if accepts.len() == 0 {
        seq![]
    } else {
        match accepts[0] {
            Ok(stream) => seq![stream.fd] + handles_of(accepts.drop_first()),
            Err(_) => handles_of(accepts.drop_first()),
        }
    }
}

/// Whatever state the adapter starts in, a run of polls yields each accept
/// that was found done exactly once, in the order in which they were done,
/// and yields nothing else.
pub proof fn yields_in_completion_order(adapter: AsyncListenerView, polls: Seq<Poll<Accepted>>)
    ensures
        yielded_by(adapter, polls).len() == completed_in(polls).len(),
        forall|i: int|
            0 <= i < completed_in(polls).len() ==> yielded_by(adapter, polls)[i] == handed_on(
                #[trigger] completed_in(polls)[i],
            ),
        handles_of(yielded_by(adapter, polls)) == handles_of(completed_in(polls)),
    decreases polls.len(),
{
    if polls.len() > 0 {
        let next = adapter.offload().poll_accept(polls[0]);
        let rest = polls.drop_first();
        yields_in_completion_order(next, rest);
        let yielded = yielded_by(adapter, polls);
        let completed = completed_in(polls);
        match polls[0] {
            Poll::Ready(accepted) => {
                assert(yielded == seq![handed_on(accepted)] + yielded_by(next, rest));
                assert(completed == seq![accepted] + completed_in(rest));
                assert forall|i: int| 0 <= i < completed.len() implies yielded[i] == handed_on(
                    #[trigger] completed[i],
                ) by {
                    if i > 0 {
                        assert(completed[i] == completed_in(rest)[i - 1]);
                        assert(yielded[i] == yielded_by(next, rest)[i - 1]);
                    }
                }
                assert(yielded.drop_first() =~= yielded_by(next, rest));
                assert(completed.drop_first() =~= completed_in(rest));
            },
            Poll::Pending => {},
        }
    }
}

/// Two accepts in a row whose connections differ are yielded as two
/// connections that differ, the first before the second.
pub proof fn two_accepts_differ(adapter: AsyncListenerView, first: StreamView, second: StreamView)
    requires
        first.fd != second.fd,
    ensures
        ({
            let polls = seq![Poll::Ready(Ok::<StreamView, ErrorView>(first)), Poll::Ready(Ok(second))];
            let yielded = yielded_by(adapter, polls);
            &&& yielded.len() == 2
            &&& yielded[0] == Ok::<StreamView, ErrorView>(StreamView { fd: first.fd, nonblocking: true })
            &&& yielded[1] == Ok::<StreamView, ErrorView>(StreamView { fd: second.fd, nonblocking: true })
            &&& yielded[0] != yielded[1]
        }),
{
    let polls = seq![Poll::Ready(Ok::<StreamView, ErrorView>(first)), Poll::Ready(Ok(second))];
    let rest = polls.drop_first();
    assert(rest.len() == 1);
    assert(rest[0] == polls[1]);
    assert(rest.drop_first().len() == 0);
    yields_in_completion_order(adapter, polls);
    assert(completed_in(rest.drop_first()) =~= seq![]);
    assert(completed_in(rest) =~= seq![Ok::<StreamView, ErrorView>(second)]);
    assert(completed_in(polls) =~= seq![Ok::<StreamView, ErrorView>(first), Ok(second)]);
}

} // verus!

//! A stream made from a function that makes producers: each value of the stream is
//! what one such producer hands out.

use crate::driver::Producer;
use core::task::Context;
use core::task::Poll;
use vstd::prelude::*;

verus! {

/// A stream that asks `f` for a producer, polls it until it hands out its value, and
/// starts over with a new one. It never ends.
#[verifier::reject_recursive_types(Fut)]
pub struct FnStream<Func: FnMut() -> Fut, Fut: Producer> {
    f: Func,
    cache: Option<Fut>,
}

/// What a poll of `fut` leads to: while polls are pending the answer is `Pending`
/// and `fut`, one poll further, is kept as `kept`; then the answer is the value of
/// `fut`, and nothing is kept.
pub open spec fn poll_leads_to<Fut: Producer>(
    fut: Fut,
    outcome: Poll<Option<Fut::Output>>,
    kept: Option<Fut>,
) -> bool {
    if fut.pending_polls() == 0 {
        &&& outcome == Poll::Ready(Some(fut.resolved()))
        &&& kept is None
    } else {
        &&& outcome is Pending
        &&& kept matches Some(rest)
        &&& rest.pollable()
        &&& rest.pending_polls() == fut.pending_polls() - 1
        &&& rest.resolved() == fut.resolved()
    }
}

impl<Func: FnMut() -> Fut, Fut: Producer> FnStream<Func, Fut> {
    /// The function that makes the producers.
    pub closed spec fn maker(&self) -> Func {
        self.f
    }

    /// The producer that was polled and has not handed out its value yet.
    pub closed spec fn in_flight(&self) -> Option<Fut> {
        self.cache
    }

    /// The stream can be polled: the function can be called, what it makes can be
    /// polled, and so can the producer in flight.
    pub open spec fn wf(&self) -> bool {
        &&& call_requires(self.maker(), ())
        &&& forall|fut: Fut| #[trigger] call_ensures(self.maker(), (), fut) ==> fut.pollable()
        &&& self.in_flight() matches Some(fut) ==> fut.pollable()
    }

    /// Whether `fut` is the producer that the next poll polls: the one in flight,
    /// or, where none is, one that the function makes.
    pub open spec fn polls(&self, fut: Fut) -> bool {
        match self.in_flight() {
            Some(cached) => fut == cached,
            None => call_ensures(self.maker(), (), fut),
        }
    }

    /// Polls the producer in flight; where none is, the function is asked for one
    /// first. The value of the producer is the next value of the stream, and while
    /// the producer is not ready the stream is not ready.
    pub fn poll_next(&mut self, cx: &mut Context<'_>) -> (outcome: Poll<Option<Fut::Output>>)
        requires
            old(self).wf(),
        ensures
            final(self).wf(),
            final(self).maker() == old(self).maker(),
            exists|fut: Fut| #[trigger]
                old(self).polls(fut) && poll_leads_to(fut, outcome, final(self).in_flight()),
    {
        let mut fut = match self.cache.take() {
            Some(cached) => cached,
            None => (self.f)(),
        };
        let ghost polled = fut;
        assert(old(self).polls(polled));
        match fut.poll(cx) {
            Poll::Ready(value) => Poll::Ready(Some(value)),
            Poll::Pending => {
                self.cache = Some(fut);
                Poll::Pending
            },
        }
    }
}

/// Makes a stream from `stream`, a function that makes a producer whenever the
/// stream needs its next value.
pub fn fn_stream<Fut: Producer, Func: FnMut() -> Fut>(stream: Func) -> (made: FnStream<Func, Fut>)
    requires
        call_requires(stream, ()),
        forall|fut: Fut| #[trigger] call_ensures(stream, (), fut) ==> fut.pollable(),
    ensures
        made.maker() == stream,
        made.in_flight() is None,
        made.wf(),
{
    FnStream { f: stream, cache: None }
}

} // verus!

//! Streams over a list: the values are asked for by polling. A list has every value
//! at hand, so a poll of these streams is never answered with `Pending`. The twins
//! with a hint also tell a hook, before they hand a value out, which node comes
//! after the one they moved to.

use crate::driver::Producer;
use crate::linked_list::head_of;
use crate::linked_list::tail_of;
use crate::linked_list::List;
use core::task::Context;
use core::task::Poll;
use vstd::prelude::*;

verus! {

/// Whether `stream` can be polled and hands out `value` at the next poll, with no
/// poll in vain before it.
pub open spec fn ready_with<P: Producer>(stream: P, value: P::Output) -> bool {
    &&& stream.pollable()
    &&& stream.pending_polls() == 0
    &&& stream.resolved() == value
}

/// Walks a list that it owns and hands out the values themselves.
pub struct ListStream<T> {
    list: List<T>,
}

impl<T> View for ListStream<T> {
    type V = Seq<T>;

    /// The values that are still to be handed out, in order.
    closed spec fn view(&self) -> Seq<T> {
        self.list@
    }
}

impl<T> ListStream<T> {
    pub(crate) fn over(list: List<T>) -> (stream: Self)
        ensures
            stream@ == list@,
            ready_with(stream, head_of(list@)),
    {
        ListStream { list }
    }

    /// Takes the head out of the list and leaves the tail in its place. At the end
    /// the answer is `Ready(None)`, and stays so.
    pub fn poll_next(&mut self, _cx: &mut Context<'_>) -> (outcome: Poll<Option<T>>)
        ensures
            outcome == Poll::Ready(head_of(old(self)@)),
            final(self)@ == tail_of(old(self)@),
    {
        match self.list.take_head() {
            Some(t) => Poll::Ready(Some(t)),
            None => Poll::Ready(None),
        }
    }
}

impl<T> Producer for ListStream<T> {
    type Output = Option<T>;

    open spec fn pollable(&self) -> bool {
        true
    }

    open spec fn pending_polls(&self) -> nat {
        0
    }

    open spec fn resolved(&self) -> Option<T> {
        head_of(self@)
    }

    /// What `poll_next` does, under the name by which the driver knows it.
    fn poll(&mut self, cx: &mut Context<'_>) -> (outcome: Poll<Option<T>>)
        ensures
            final(self)@ == tail_of(old(self)@),
            (*final(self)).pollable(),
            (*final(self)).pending_polls() == 0,
            (*final(self)).resolved() == head_of(final(self)@),
    {
        self.poll_next(cx)
    }
}

/// Like [`ListStream`], and tells `hint` of the node ahead. What the polls answer is
/// what the plain stream answers, whatever the hook does.
pub struct ListStreamPrefetch<T, H: Fn(&List<T>)> {
    list: List<T>,
    hint: H,
}

impl<T, H: Fn(&List<T>)> View for ListStreamPrefetch<T, H> {
    type V = Seq<T>;

    /// The values that are still to be handed out, in order.
    closed spec fn view(&self) -> Seq<T> {
        self.list@
    }
}

impl<T, H: Fn(&List<T>)> ListStreamPrefetch<T, H> {
    #[verifier::type_invariant]
    spec fn hint_takes_the_nodes_ahead(&self) -> bool {
        forall|node: &List<T>| #[trigger]
            self.list.holds_node(node) ==> call_requires(self.hint, (node,))
    }

    pub(crate) fn over(list: List<T>, hint: H) -> (stream: Self)
        requires
            forall|node: &List<T>| #[trigger] list.holds_node(node) ==> call_requires(hint, (node,)),
        ensures
            stream@ == list@,
            ready_with(stream, head_of(list@)),
    {
        ListStreamPrefetch { list, hint }
    }

    /// Takes the head out of the list and leaves the tail in its place. If the tail
    /// has a head of its own, the node after that head is given to the hook before
    /// the value is handed out; at the end of the list the hook is not called.
    pub fn poll_next(&mut self, _cx: &mut Context<'_>) -> (outcome: Poll<Option<T>>)
        ensures
            outcome == Poll::Ready(head_of(old(self)@)),
            final(self)@ == tail_of(old(self)@),
    {
        proof {
            use_type_invariant(&*self);
        }
        match self.list.take_head() {
            Some(t) => {
                self.list.hint_ahead(&self.hint);
                Poll::Ready(Some(t))
            },
            None => Poll::Ready(None),
        }
    }
}

impl<T, H: Fn(&List<T>)> Producer for ListStreamPrefetch<T, H> {
    type Output = Option<T>;

    open spec fn pollable(&self) -> bool {
        true
    }

    open spec fn pending_polls(&self) -> nat {
        0
    }

    open spec fn resolved(&self) -> Option<T> {
        head_of(self@)
    }

    /// What `poll_next` does, under the name by which the driver knows it.
    fn poll(&mut self, cx: &mut Context<'_>) -> (outcome: Poll<Option<T>>)
        ensures
            final(self)@ == tail_of(old(self)@),
            (*final(self)).pollable(),
            (*final(self)).pending_polls() == 0,
            (*final(self)).resolved() == head_of(final(self)@),
    {
        self.poll_next(cx)
    }
}

/// Walks a list that it borrows and hands out references to the values. The list is
/// never changed: only the stream's own position moves.
pub struct ListStreamRef<'a, T> {
    list: &'a List<T>,
}

impl<'a, T> View for ListStreamRef<'a, T> {
    type V = Seq<&'a T>;

    /// References to the values that are still to be handed out, in order.
    closed spec fn view(&self) -> Seq<&'a T> {
        self.list@.as_ref()
    }
}

impl<'a, T> ListStreamRef<'a, T> {
    pub(crate) fn over(list: &'a List<T>) -> (stream: Self)
        ensures
            stream@ == list@.as_ref(),
            ready_with(stream, head_of(list@.as_ref())),
    {
        ListStreamRef { list }
    }

    /// Hands out a reference to the value at the position and moves the position to
    /// the tail. At the end the answer is `Ready(None)`, and stays so.
    pub fn poll_next(&mut self, _cx: &mut Context<'_>) -> (outcome: Poll<Option<&'a T>>)
        ensures
            outcome == Poll::Ready(head_of(old(self)@)),
            final(self)@ == tail_of(old(self)@),
    {
        match self.list {
            List::Cons(t, next) => {
                self.list = &**next;
                Poll::Ready(Some(t))
            },
            List::Nil => Poll::Ready(None),
        }
    }
}

impl<'a, T> Producer for ListStreamRef<'a, T> {
    type Output = Option<&'a T>;

    open spec fn pollable(&self) -> bool {
        true
    }

    open spec fn pending_polls(&self) -> nat {
        0
    }

    open spec fn resolved(&self) -> Option<&'a T> {
        head_of(self@)
    }

    /// What `poll_next` does, under the name by which the driver knows it.
    fn poll(&mut self, cx: &mut Context<'_>) -> (outcome: Poll<Option<&'a T>>)
        ensures
            final(self)@ == tail_of(old(self)@),
            (*final(self)).pollable(),
            (*final(self)).pending_polls() == 0,
            (*final(self)).resolved() == head_of(final(self)@),
    {
        self.poll_next(cx)
    }
}

/// Like [`ListStreamRef`], and tells `hint` of the node ahead. What the polls answer
/// is what the plain stream answers, whatever the hook does.
pub struct ListStreamRefPrefetch<'a, T, H: Fn(&List<T>)> {
    list: &'a List<T>,
    hint: H,
}

impl<'a, T, H: Fn(&List<T>)> View for ListStreamRefPrefetch<'a, T, H> {
    type V = Seq<&'a T>;

    /// References to the values that are still to be handed out, in order.
    closed spec fn view(&self) -> Seq<&'a T> {
        self.list@.as_ref()
    }
}

impl<'a, T, H: Fn(&List<T>)> ListStreamRefPrefetch<'a, T, H> {
    #[verifier::type_invariant]
    spec fn hint_takes_the_nodes_ahead(&self) -> bool {
        forall|node: &List<T>| #[trigger]
            self.list.holds_node(node) ==> call_requires(self.hint, (node,))
    }

    pub(crate) fn over(list: &'a List<T>, hint: H) -> (stream: Self)
        requires
            forall|node: &List<T>| #[trigger] list.holds_node(node) ==> call_requires(hint, (node,)),
        ensures
            stream@ == list@.as_ref(),
            ready_with(stream, head_of(list@.as_ref())),
    {
        ListStreamRefPrefetch { list, hint }
    }

    /// Hands out a reference to the value at the position and moves the position to
    /// the tail. If the new position has a value, the node after it is given to the
    /// hook first; at the end of the list the hook is not called.
    pub fn poll_next(&mut self, _cx: &mut Context<'_>) -> (outcome: Poll<Option<&'a T>>)
        ensures
            outcome == Poll::Ready(head_of(old(self)@)),
            final(self)@ == tail_of(old(self)@),
    {
        proof {
            use_type_invariant(&*self);
        }
        match self.list {
            List::Cons(t, next) => {
                assert forall|node: &List<T>| #[trigger] next.holds_node(node) implies self.list.holds_node(
                    node,
                ) by {}
                self.list = &**next;
                self.list.hint_ahead(&self.hint);
                Poll::Ready(Some(t))
            },
            List::Nil => Poll::Ready(None),
        }
    }
}

impl<'a, T, H: Fn(&List<T>)> Producer for ListStreamRefPrefetch<'a, T, H> {
    type Output = Option<&'a T>;

    open spec fn pollable(&self) -> bool {
        true
    }

    open spec fn pending_polls(&self) -> nat {
        0
    }

    open spec fn resolved(&self) -> Option<&'a T> {
        head_of(self@)
    }

    /// What `poll_next` does, under the name by which the driver knows it.
    fn poll(&mut self, cx: &mut Context<'_>) -> (outcome: Poll<Option<&'a T>>)
        ensures
            final(self)@ == tail_of(old(self)@),
            (*final(self)).pollable(),
            (*final(self)).pending_polls() == 0,
            (*final(self)).resolved() == head_of(final(self)@),
    {
        self.poll_next(cx)
    }
}

} // verus!

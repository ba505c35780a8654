//! The list itself: its nodes, how it is built and how it is torn down.

use crate::generator::script_of;
use crate::generator::GenIter;
use crate::generator::ListGen;
use crate::generator::ListGenPrefetch;
use crate::generator::ListGenRef;
use crate::generator::ListGenRefPrefetch;
use crate::iter::ListIter;
use crate::iter::ListIterPrefetch;
use crate::iter::ListIterRef;
use crate::iter::ListIterRefPrefetch;
use crate::stream::ready_with;
use crate::stream::ListStream;
use crate::stream::ListStreamPrefetch;
use crate::stream::ListStreamRef;
use crate::stream::ListStreamRefPrefetch;
use vstd::prelude::*;

verus! {

/// A list is empty, or a value followed by the rest of the list, which it owns.
#[derive(Debug)]
pub enum List<T> {
    /// A value, the head, and the list that follows it, the tail.
    Cons(T, Box<List<T>>),
    /// The empty list, which ends every chain.
    Nil,
}

impl<T> List<T> {
    /// The values of the list from its head to its end.
    pub open spec fn elements(&self) -> Seq<T>
        decreases self,
    {
        match self {
            List::Nil => Seq::empty(),
            List::Cons(head, tail) => seq![*head] + tail.elements(),
        }
    }

    /// Whether `node` stands in the list behind one of its values: it is the tail of
    /// the list, or the tail of that tail, and so on to the empty list at the end.
    pub open spec fn holds_node(&self, node: &List<T>) -> bool
        decreases self,
    {
        match self {
            List::Nil => false,
            List::Cons(_, tail) => **tail == *node || tail.holds_node(node),
        }
    }
}

impl<T> View for List<T> {
    type V = Seq<T>;

    open spec fn view(&self) -> Seq<T> {
        self.elements()
    }
}

/// A node that the list holds is a part of the list: it holds the values of the list
/// from some place behind the head on, and so fewer of them than the list itself.
pub proof fn lemma_held_node_is_a_tail<T>(list: &List<T>, node: &List<T>)
    requires
        list.holds_node(node),
    ensures
        node@.len() < list@.len(),
        node@ == list@.skip(list@.len() - node@.len()),
    decreases list,
{
    match list {
        List::Cons(_, tail) => {
            if **tail == *node {
                assert(node@ =~= list@.skip(1));
            } else {
                lemma_held_node_is_a_tail(&**tail, node);
                assert(node@ =~= list@.skip(list@.len() - node@.len()));
            }
        },
        List::Nil => {},
    }
}

/// The value at the front of `values`, if there is one.
pub open spec fn head_of<T>(values: Seq<T>) -> Option<T> {
    if values.len() > 0 {
        Some(values[0])
    } else {
        None
    }
}

/// What follows the front of `values`. Where there is no front, nothing changes.
pub open spec fn tail_of<T>(values: Seq<T>) -> Seq<T> {
    if values.len() > 0 {
        values.skip(1)
    } else {
        values
    }
}

/// What a walk over `values` hands out when it is asked again and again until
/// nothing is left: each time the front, and then the walk goes on with what follows.
pub open spec fn pulled<T>(values: Seq<T>) -> Seq<T>
    decreases values.len(),
{
    match head_of(values) {
        Some(front) => seq![front] + pulled(tail_of(values)),
        None => Seq::empty(),
    }
}

/// A walk hands out the values themselves, each once and in order.
pub proof fn lemma_pulled<T>(values: Seq<T>)
    ensures
        pulled(values) == values,
    decreases values.len(),
{
    if values.len() > 0 {
        lemma_pulled(tail_of(values));
        assert(seq![values[0]] + values.skip(1) =~= values);
    }
}

impl<T> List<T> {
    /// Builds a list by putting each item in turn in front of what was built so far,
    /// so the last item given becomes the head.
    pub fn new(items: Vec<T>) -> (list: Self)
        ensures
            list@ == items@.reverse(),
    {
        let mut tail = List::Nil;
        for item in given: items
            invariant
                tail@ == given.history().reverse(),
        {
            tail = List::Cons(item, Box::new(tail));
        }
        tail
    }

    /// Empties the list. The chain is taken out of `self` and then unlinked one node
    /// at a time, so that no node is dropped while it still owns a tail.
    pub fn clear(&mut self)
        ensures
            *final(self) is Nil,
            final(self)@ == Seq::<T>::empty(),
    {
        if self.is_nil() {
            return ;
        }
        let mut tmp = List::Nil;
        std::mem::swap(self, &mut tmp);
        loop
            invariant
                *self is Nil,
            decreases tmp@.len(),
        {
            match tmp {
                List::Nil => break ,
                List::Cons(_, next) => tmp = *next,
            }
        }
    }

    /// Takes the head out of the list and leaves the tail in its place, so that the
    /// value can be handed on without being copied. An empty list stays empty.
    pub(crate) fn take_head(&mut self) -> (head: Option<T>)
        ensures
            head == head_of(old(self)@),
            final(self)@ == tail_of(old(self)@),
            forall|node: &List<T>| #[trigger]
                final(self).holds_node(node) ==> old(self).holds_node(node),
        no_unwind
    {
        let mut temp = List::Nil;
        std::mem::swap(self, &mut temp);
        match temp {
            List::Cons(t, next) => {
                *self = *next;
                Some(t)
            },
            List::Nil => None,
        }
    }

    /// Gives `hint` the node that follows the head, where the list has a head. On an
    /// empty list there is no such node, and `hint` is not called.
    pub(crate) fn hint_ahead<H: Fn(&List<T>)>(&self, hint: &H)
        requires
            forall|node: &List<T>| #[trigger]
                self.holds_node(node) ==> call_requires(*hint, (node,)),
    {
        match self {
            List::Cons(_, ahead) => {
                assert(self.holds_node(&**ahead));
                hint(&**ahead)
            },
            List::Nil => (),
        }
    }

    /// Gives `hint` the node that follows the head of a list that is known to have
    /// one.
    pub(crate) fn hint_behind_head<H: Fn(&List<T>)>(&self, hint: &H)
        requires
            self is Cons,
            forall|node: &List<T>| #[trigger]
                self.holds_node(node) ==> call_requires(*hint, (node,)),
    {
        match self {
            List::Cons(_, ahead) => {
                assert(self.holds_node(&**ahead));
                hint(&**ahead)
            },
            List::Nil => vstd::pervasive::unreached(),
        }
    }

    /// Whether the list is empty.
    pub fn is_nil(&self) -> (nil: bool)
        ensures
            nil == (self is Nil),
            nil == (self@.len() == 0),
    {
        matches!(self, List::Nil)
    }

    /// A pull iterator over references to the values, from the head on.
    pub fn iter(&self) -> (it: ListIterRef<'_, T>)
        ensures
            it@ == self@.as_ref(),
    {
        self.into_iter()
    }

    /// Like [`List::iter`]; before each reference is handed out, `hint` is given
    /// the node after the one that the iterator moved to, where there is one. The
    /// hook is given nodes of this list only, so it need not take any other.
    pub fn iter_prefetch<H: Fn(&List<T>)>(&self, hint: H) -> (it: ListIterRefPrefetch<'_, T, H>)
        requires
            forall|node: &List<T>| #[trigger] self.holds_node(node) ==> call_requires(hint, (node,)),
        ensures
            it@ == self@.as_ref(),
    {
        ListIterRefPrefetch::over(self, hint)
    }

    /// Like `into_iter`; before each value is handed out, `hint` is given the node
    /// after the one that the iterator moved to, where there is one. The hook is
    /// given nodes of this list only, so it need not take any other.
    pub fn into_iter_prefetch<H: Fn(&List<T>)>(self, hint: H) -> (it: ListIterPrefetch<T, H>)
        requires
            forall|node: &List<T>| #[trigger] self.holds_node(node) ==> call_requires(hint, (node,)),
        ensures
            it@ == self@,
    {
        ListIterPrefetch::over(self, hint)
    }

    /// A coroutine that takes the values out of the list, from the head on. The
    /// last value is its final value. Made from an empty list it must not be
    /// resumed at all.
    pub fn into_generator(self) -> (gen: ListGen<T>)
        ensures
            gen@ == self@,
            gen.script() == script_of(self@),
    {
        ListGen::over(self)
    }

    /// A coroutine over references to the values, from the head on. The reference
    /// to the last value is its final value. Made from an empty list it must not
    /// be resumed at all.
    pub fn generator(&self) -> (gen: ListGenRef<'_, T>)
        ensures
            gen@ == self@.as_ref(),
            gen.script() == script_of(self@.as_ref()),
    {
        ListGenRef::over(self)
    }

    /// Like [`List::generator`]; on every resumption but the final one, `hint` is
    /// given the node after the one that the coroutine moved to. The hook is given
    /// nodes of this list only, so it need not take any other.
    pub fn generator_prefetch<H: Fn(&List<T>)>(&self, hint: H) -> (gen: ListGenRefPrefetch<
        '_,
        T,
        H,
    >)
        requires
            forall|node: &List<T>| #[trigger] self.holds_node(node) ==> call_requires(hint, (node,)),
        ensures
            gen@ == self@.as_ref(),
            gen.script() == script_of(self@.as_ref()),
    {
        ListGenRefPrefetch::over(self, hint)
    }

    /// Like [`List::into_generator`]; on every resumption but the final one, `hint`
    /// is given the node after the one that the coroutine moved to. The hook is
    /// given nodes of this list only, so it need not take any other.
    pub fn into_generator_prefetch<H: Fn(&List<T>)>(self, hint: H) -> (gen: ListGenPrefetch<T, H>)
        requires
            forall|node: &List<T>| #[trigger] self.holds_node(node) ==> call_requires(hint, (node,)),
        ensures
            gen@ == self@,
            gen.script() == script_of(self@),
    {
        ListGenPrefetch::over(self, hint)
    }

    /// A stream that takes the values out of the list, from the head on.
    pub fn into_stream(self) -> (stream: ListStream<T>)
        ensures
            stream@ == self@,
            ready_with(stream, head_of(self@)),
    {
        ListStream::over(self)
    }

    /// Like [`List::into_stream`]; before each value is handed out, `hint` is given
    /// the node after the one that the stream moved to, where there is one. The hook
    /// is given nodes of this list only, so it need not take any other.
    pub fn into_stream_prefetch<H: Fn(&List<T>)>(self, hint: H) -> (stream: ListStreamPrefetch<
        T,
        H,
    >)
        requires
            forall|node: &List<T>| #[trigger] self.holds_node(node) ==> call_requires(hint, (node,)),
        ensures
            stream@ == self@,
            ready_with(stream, head_of(self@)),
    {
        ListStreamPrefetch::over(self, hint)
    }

    /// A stream over references to the values, from the head on.
    pub fn stream(&self) -> (stream: ListStreamRef<'_, T>)
        ensures
            stream@ == self@.as_ref(),
            ready_with(stream, head_of(self@.as_ref())),
    {
        ListStreamRef::over(self)
    }

    /// Like [`List::stream`]; before each reference is handed out, `hint` is given
    /// the node after the one that the stream moved to, where there is one. The hook
    /// is given nodes of this list only, so it need not take any other.
    pub fn stream_prefetch<H: Fn(&List<T>)>(&self, hint: H) -> (stream: ListStreamRefPrefetch<
        '_,
        T,
        H,
    >)
        requires
            forall|node: &List<T>| #[trigger] self.holds_node(node) ==> call_requires(hint, (node,)),
        ensures
            stream@ == self@.as_ref(),
            ready_with(stream, head_of(self@.as_ref())),
    {
        ListStreamRefPrefetch::over(self, hint)
    }
}

impl<T: Clone> Clone for List<T> {
    /// A list of clones of the values, in the same order. The copy is made by two
    /// passes over a chain, never by a call for each node that waits for the next.
    fn clone(&self) -> (copy: Self)
        ensures
            copy@.len() == self@.len(),
            forall|i: int| 0 <= i < self@.len() ==> cloned::<T>(self@[i], #[trigger] copy@[i]),
    {
        let mut reversed = List::Nil;
        let mut rest = self;
        loop
            invariant
                reversed@.len() + rest@.len() == self@.len(),
                forall|i: int|
                    0 <= i < rest@.len() ==> #[trigger] rest@[i] == self@[reversed@.len() + i],
                forall|i: int|
                    0 <= i < reversed@.len() ==> cloned::<T>(
                        self@[reversed@.len() - 1 - i],
                        #[trigger] reversed@[i],
                    ),
            ensures
                rest@.len() == 0,
            decreases rest@.len(),
        {
            match rest {
                List::Cons(value, tail) => {
                    let ghost before = reversed@;
                    assert(rest@[0] == *value);
                    assert forall|i: int| 0 <= i < tail@.len() implies #[trigger] tail@[i]
                        == self@[before.len() + 1 + i] by {
                        assert(tail@[i] == rest@[i + 1]);
                    }
                    reversed = List::Cons(value.clone(), Box::new(reversed));
                    assert forall|i: int| 0 <= i < reversed@.len() implies cloned::<T>(
                        self@[reversed@.len() - 1 - i],
                        #[trigger] reversed@[i],
                    ) by {
                        if i > 0 {
                            assert(reversed@[i] == before[i - 1]);
                        }
                    }
                    rest = &**tail;
                },
                List::Nil => break ,
            }
        }
        let mut copy = List::Nil;
        loop
            invariant
                copy@.len() + reversed@.len() == self@.len(),
                forall|i: int|
                    0 <= i < reversed@.len() ==> cloned::<T>(
                        self@[reversed@.len() - 1 - i],
                        #[trigger] reversed@[i],
                    ),
                forall|i: int|
                    0 <= i < copy@.len() ==> cloned::<T>(
                        self@[reversed@.len() + i],
                        #[trigger] copy@[i],
                    ),
            ensures
                reversed@.len() == 0,
            decreases reversed@.len(),
        {
            let ghost left = reversed@;
            let ghost done = copy@;
            match reversed.take_head() {
                Some(value) => {
                    copy = List::Cons(value, Box::new(copy));
                    assert forall|i: int| 0 <= i < reversed@.len() implies cloned::<T>(
                        self@[reversed@.len() - 1 - i],
                        #[trigger] reversed@[i],
                    ) by {
                        assert(reversed@[i] == left[i + 1]);
                    }
                    assert forall|i: int| 0 <= i < copy@.len() implies cloned::<T>(
                        self@[reversed@.len() + i],
                        #[trigger] copy@[i],
                    ) by {
                        if i > 0 {
                            assert(copy@[i] == done[i - 1]);
                        } else {
                            assert(copy@[0] == left[0]);
                        }
                    }
                },
                None => break ,
            }
        }
        copy
    }
}

impl<T> IntoIterator for List<T> {
    type IntoIter = ListIter<T>;

    type Item = T;

    /// A pull iterator that takes the values out of the list, from the head on.
    fn into_iter(self) -> (it: ListIter<T>)
        ensures
            it@ == self@,
    {
        ListIter::over(self)
    }
}

impl<'a, T> IntoIterator for &'a List<T> {
    type IntoIter = ListIterRef<'a, T>;

    type Item = &'a T;

    /// A pull iterator over references to the values, from the head on.
    fn into_iter(self) -> (it: ListIterRef<'a, T>)
        ensures
            it@ == self@.as_ref(),
    {
        ListIterRef::over(self)
    }
}

} // verus!

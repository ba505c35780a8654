//! Pull iterators over a list: each call of `next` hands out the value at the head
//! and moves on to the tail. The twins with a hint also tell a hook, before they
//! hand a value out, which node comes after the one they moved to.

use crate::linked_list::head_of;
use crate::linked_list::tail_of;
use crate::linked_list::List;
use vstd::prelude::*;
use vstd::std_specs::iter::IteratorSpecImpl;

verus! {

/// Walks a list that it owns and hands out the values themselves.
pub struct ListIter<T> {
    list: List<T>,
}

impl<T> View for ListIter<T> {
    type V = Seq<T>;

    /// The values that are still to be handed out, in order.
    closed spec fn view(&self) -> Seq<T> {
        self.list@
    }
}

impl<T> ListIter<T> {
    pub(crate) fn over(list: List<T>) -> (it: Self)
        ensures
            it@ == list@,
    {
        ListIter { list }
    }
}

impl<T> Iterator for ListIter<T> {
    type Item = T;

    /// Takes the head out of the list and leaves the tail in its place. On an empty
    /// list there is nothing to hand out and nothing changes.
    fn next(&mut self) -> (item: Option<T>)
        ensures
            item == head_of(old(self)@),
            final(self)@ == tail_of(old(self)@),
    {
        self.list.take_head()
    }
}

impl<T> IteratorSpecImpl for ListIter<T> {
    open spec fn obeys_prophetic_iter_laws(&self) -> bool {
        true
    }

    open spec fn remaining(&self) -> Seq<T> {
        self@
    }

    open spec fn will_return_none(&self) -> bool {
        true
    }

    open spec fn decrease(&self) -> Option<nat> {
        Some(self@.len())
    }

    open spec fn initial_value_relation(&self, init: &Self) -> bool {
        self@ == init@
    }

    open spec fn peek(&self, index: int) -> Option<T> {
        if 0 <= index < self@.len() {
            Some(self@[index])
        } else {
            None
        }
    }
}

/// Walks a list that it borrows and hands out references to the values. The list is
/// never changed: only the iterator's own position moves.
pub struct ListIterRef<'a, T> {
    list: &'a List<T>,
}

impl<'a, T> View for ListIterRef<'a, T> {
    type V = Seq<&'a T>;

    /// References to the values that are still to be handed out, in order.
    closed spec fn view(&self) -> Seq<&'a T> {
        self.list@.as_ref()
    }
}

impl<'a, T> ListIterRef<'a, T> {
    pub(crate) fn over(list: &'a List<T>) -> (it: Self)
        ensures
            it@ == list@.as_ref(),
    {
        ListIterRef { list }
    }
}

impl<'a, T> Iterator for ListIterRef<'a, T> {
    type Item = &'a T;

    /// Hands out a reference to the value at the position and moves the position to
    /// the tail. At the end of the list there is nothing to hand out.
    fn next(&mut self) -> (item: Option<&'a T>)
        ensures
            item == head_of(old(self)@),
            final(self)@ == tail_of(old(self)@),
    {
        match self.list {
            List::Cons(t, next) => {
                self.list = &**next;
                Some(t)
            },
            List::Nil => None,
        }
    }
}

impl<'a, T> IteratorSpecImpl for ListIterRef<'a, T> {
    open spec fn obeys_prophetic_iter_laws(&self) -> bool {
        true
    }

    open spec fn remaining(&self) -> Seq<&'a T> {
        self@
    }

    open spec fn will_return_none(&self) -> bool {
        true
    }

    open spec fn decrease(&self) -> Option<nat> {
        Some(self@.len())
    }

    open spec fn initial_value_relation(&self, init: &Self) -> bool {
        self@ == init@
    }

    open spec fn peek(&self, index: int) -> Option<&'a T> {
        if 0 <= index < self@.len() {
            Some(self@[index])
        } else {
            None
        }
    }
}

/// Like [`ListIter`], and tells `hint` of the node ahead. The values handed out and
/// the end of the walk are those of the plain iterator, whatever the hook does.
pub struct ListIterPrefetch<T, H: Fn(&List<T>)> {
    list: List<T>,
    hint: H,
}

impl<T, H: Fn(&List<T>)> View for ListIterPrefetch<T, H> {
    type V = Seq<T>;

    /// The values that are still to be handed out, in order.
    closed spec fn view(&self) -> Seq<T> {
        self.list@
    }
}

impl<T, H: Fn(&List<T>)> ListIterPrefetch<T, H> {
    #[verifier::type_invariant]
    spec fn hint_takes_the_nodes_ahead(&self) -> bool {
        forall|node: &List<T>| #[trigger]
            self.list.holds_node(node) ==> call_requires(self.hint, (node,))
    }

    pub(crate) fn over(list: List<T>, hint: H) -> (it: Self)
        requires
            forall|node: &List<T>| #[trigger] list.holds_node(node) ==> call_requires(hint, (node,)),
        ensures
            it@ == list@,
    {
        ListIterPrefetch { list, hint }
    }
}

impl<T, H: Fn(&List<T>)> Iterator for ListIterPrefetch<T, H> {
    type Item = T;

    /// Takes the head out of the list and leaves the tail in its place. If the tail
    /// has a head of its own, the node after that head is given to the hook before
    /// the value is handed out; at the end of the list the hook is not called.
    fn next(&mut self) -> (item: Option<T>)
        ensures
            item == head_of(old(self)@),
            final(self)@ == tail_of(old(self)@),
    {
        proof {
            use_type_invariant(&*self);
        }
        let item = self.list.take_head();
        if item.is_some() {
            self.list.hint_ahead(&self.hint);
        }
        item
    }
}

impl<T, H: Fn(&List<T>)> IteratorSpecImpl for ListIterPrefetch<T, H> {
    open spec fn obeys_prophetic_iter_laws(&self) -> bool {
        true
    }

    open spec fn remaining(&self) -> Seq<T> {
        self@
    }

    open spec fn will_return_none(&self) -> bool {
        true
    }

    open spec fn decrease(&self) -> Option<nat> {
        Some(self@.len())
    }

    open spec fn initial_value_relation(&self, init: &Self) -> bool {
        self@ == init@
    }

    open spec fn peek(&self, index: int) -> Option<T> {
        if 0 <= index < self@.len() {
            Some(self@[index])
        } else {
            None
        }
    }
}

/// Like [`ListIterRef`], and tells `hint` of the node ahead. The references handed
/// out and the end of the walk are those of the plain iterator, whatever the hook
/// does.
pub struct ListIterRefPrefetch<'a, T, H: Fn(&List<T>)> {
    list: &'a List<T>,
    hint: H,
}

impl<'a, T, H: Fn(&List<T>)> View for ListIterRefPrefetch<'a, T, H> {
    type V = Seq<&'a T>;

    /// References to the values that are still to be handed out, in order.
    closed spec fn view(&self) -> Seq<&'a T> {
        self.list@.as_ref()
    }
}

impl<'a, T, H: Fn(&List<T>)> ListIterRefPrefetch<'a, T, H> {
    #[verifier::type_invariant]
    spec fn hint_takes_the_nodes_ahead(&self) -> bool {
        forall|node: &List<T>| #[trigger]
            self.list.holds_node(node) ==> call_requires(self.hint, (node,))
    }

    pub(crate) fn over(list: &'a List<T>, hint: H) -> (it: Self)
        requires
            forall|node: &List<T>| #[trigger] list.holds_node(node) ==> call_requires(hint, (node,)),
        ensures
            it@ == list@.as_ref(),
    {
        ListIterRefPrefetch { list, hint }
    }
}

impl<'a, T, H: Fn(&List<T>)> Iterator for ListIterRefPrefetch<'a, T, H> {
    type Item = &'a T;

    /// Hands out a reference to the value at the position and moves the position to
    /// the tail. If the new position has a value, the node after it is given to the
    /// hook first; at the end of the list the hook is not called.
    fn next(&mut self) -> (item: Option<&'a T>)
        ensures
            item == head_of(old(self)@),
            final(self)@ == tail_of(old(self)@),
    {
        proof {
            use_type_invariant(&*self);
        }
        match self.list {
            List::Cons(t, next) => {
                assert forall|node: &List<T>| #[trigger] next.holds_node(node) implies self.list.holds_node(
                    node,
                ) by {}
                self.list = &**next;
                self.list.hint_ahead(&self.hint);
                Some(t)
            },
            List::Nil => None,
        }
    }
}

impl<'a, T, H: Fn(&List<T>)> IteratorSpecImpl for ListIterRefPrefetch<'a, T, H> {
    open spec fn obeys_prophetic_iter_laws(&self) -> bool {
        true
    }

    open spec fn remaining(&self) -> Seq<&'a T> {
        self@
    }

    open spec fn will_return_none(&self) -> bool {
        true
    }

    open spec fn decrease(&self) -> Option<nat> {
        Some(self@.len())
    }

    open spec fn initial_value_relation(&self, init: &Self) -> bool {
        self@ == init@
    }

    open spec fn peek(&self, index: int) -> Option<&'a T> {
        if 0 <= index < self@.len() {
            Some(self@[index])
        } else {
            None
        }
    }
}

} // verus!

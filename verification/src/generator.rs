//! The coroutine protocol, and the coroutines that walk a list.
//!
//! A coroutine is resumed again and again. Each resumption but the last yields a
//! value; the last one completes with a value of its own. After that the coroutine
//! must not be resumed.

use crate::linked_list::lemma_pulled;
use crate::linked_list::pulled;
use crate::linked_list::List;
use vstd::prelude::*;

verus! {

/// What one resumption of a coroutine returns.
#[derive(Debug, PartialEq, Eq)]
pub enum GeneratorState<Y, R> {
    /// A value on the way; the coroutine can be resumed again.
    Yielded(Y),
    /// The final value; the coroutine is finished.
    Complete(R),
}

/// The value that a resumption carried, whether it was yielded or final.
pub open spec fn value_of<T>(state: GeneratorState<T, T>) -> T {
    match state {
        GeneratorState::Yielded(t) => t,
        GeneratorState::Complete(t) => t,
    }
}

/// The values that a run of resumptions carried, in order.
pub open spec fn values_of<T>(script: Seq<GeneratorState<T, T>>) -> Seq<T> {
    Seq::new(script.len(), |i: int| value_of(script[i]))
}

/// The run of resumptions that delivers `values`: each value but the last is
/// yielded, and the last is the final value. No values, no resumption.
pub open spec fn script_of<T>(values: Seq<T>) -> Seq<GeneratorState<T, T>> {
    Seq::new(
        values.len(),
        |i: int|
            if i + 1 == values.len() {
                GeneratorState::Complete(values[i])
            } else {
                GeneratorState::Yielded(values[i])
            },
    )
}

/// Whether a run of resumptions obeys the protocol: none but the last may be final.
pub open spec fn valid_script<T>(script: Seq<GeneratorState<T, T>>) -> bool {
    forall|i: int| 0 <= i < script.len() - 1 ==> (#[trigger] script[i]) is Yielded
}

/// A coroutine whose yielded and final values have the same type.
pub trait GenIter<T> {
    /// What the coming resumptions will return, in order. Where it is empty the
    /// coroutine must not be resumed: it has finished, or it had nothing to give.
    spec fn script(&self) -> Seq<GeneratorState<T, T>>;

    /// In whatever state the coroutine is, what is still to come obeys the protocol.
    proof fn script_is_valid(&self)
        ensures
            valid_script(self.script()),
    ;

    /// Whether the coroutine may be resumed.
    fn can_resume(&self) -> (yes: bool)
        ensures
            yes == (self.script().len() > 0),
    ;

    /// Runs the coroutine to its next result.
    fn resume(&mut self) -> (state: GeneratorState<T, T>)
        requires
            old(self).script().len() > 0,
        ensures
            state == old(self).script()[0],
            final(self).script() == old(self).script().skip(1),
            state is Complete ==> final(self).script().len() == 0,
    ;
}

/// A coroutine behind a mutable reference is the same coroutine: resuming through
/// the reference resumes it, so that it can be lent to a combinator and taken up
/// again afterwards.
impl<T, G: GenIter<T>> GenIter<T> for &mut G {
    open spec fn script(&self) -> Seq<GeneratorState<T, T>> {
        (**self).script()
    }

    proof fn script_is_valid(&self) {
        (**self).script_is_valid();
    }

    fn can_resume(&self) -> (yes: bool) {
        (**self).can_resume()
    }

    fn resume(&mut self) -> (state: GeneratorState<T, T>) {
        (**self).resume()
    }
}

/// What a coroutine over `values` is all about: as many resumptions as values, each
/// carrying its value, all but the last yielded and the last final.
pub proof fn lemma_script_of<T>(values: Seq<T>)
    ensures
        script_of(values).len() == values.len(),
        values_of(script_of(values)) == values,
        valid_script(script_of(values)),
        forall|i: int|
            0 <= i < values.len() - 1 ==> #[trigger] script_of(values)[i]
                == GeneratorState::<T, T>::Yielded(values[i]),
        values.len() > 0 ==> script_of(values).last() == GeneratorState::<T, T>::Complete(
            values.last(),
        ),
{
    assert(values_of(script_of(values)) =~= values);
}

/// A list built from `items` holds them in reverse. Walked by pulls or polls, or by
/// resumptions with the final value counted in, it delivers the items in reverse,
/// and a fold over what is delivered is the fold over the reversed items.
pub proof fn lemma_walks_agree<T, B>(items: Seq<T>, init: B, f: spec_fn(B, T) -> B)
    ensures
        pulled(items.reverse()) == items.reverse(),
        values_of(script_of(items.reverse())) == items.reverse(),
        pulled(items.reverse()).fold_left(init, f) == items.reverse().fold_left(init, f),
        values_of(script_of(items.reverse())).fold_left(init, f) == items.reverse().fold_left(
            init,
            f,
        ),
{
    lemma_pulled(items.reverse());
    lemma_script_of(items.reverse());
}

/// Walks a list that it owns: yields every value but the last, and completes with
/// the last.
pub struct ListGen<T> {
    list: List<T>,
}

impl<T> View for ListGen<T> {
    type V = Seq<T>;

    /// The values that are still to be delivered, in order.
    closed spec fn view(&self) -> Seq<T> {
        self.list@
    }
}

impl<T> ListGen<T> {
    pub(crate) fn over(list: List<T>) -> (gen: Self)
        ensures
            gen@ == list@,
            gen.script() == script_of(list@),
    {
        ListGen { list }
    }
}

impl<T> GenIter<T> for ListGen<T> {
    open spec fn script(&self) -> Seq<GeneratorState<T, T>> {
        script_of(self@)
    }

    proof fn script_is_valid(&self) {
    }

    fn can_resume(&self) -> (yes: bool) {
        !self.list.is_nil()
    }

    /// Takes the head out of the list. If nothing follows it, it is the final value;
    /// otherwise it is yielded and the tail takes the list's place.
    fn resume(&mut self) -> (state: GeneratorState<T, T>)
        ensures
            final(self)@ == old(self)@.skip(1),
    {
        match self.list.take_head() {
            Some(t) => {
                if self.list.is_nil() {
                    GeneratorState::Complete(t)
                } else {
                    GeneratorState::Yielded(t)
                }
            },
            None => vstd::pervasive::unreached(),
        }
    }
}

/// Walks a list that it borrows: yields a reference to every value but the last,
/// and completes with a reference to the last. The list is never changed.
pub struct ListGenRef<'a, T> {
    list: &'a List<T>,
}

impl<'a, T> View for ListGenRef<'a, T> {
    type V = Seq<&'a T>;

    /// References to the values that are still to be delivered, in order.
    closed spec fn view(&self) -> Seq<&'a T> {
        self.list@.as_ref()
    }
}

impl<'a, T> ListGenRef<'a, T> {
    pub(crate) fn over(list: &'a List<T>) -> (gen: Self)
        ensures
            gen@ == list@.as_ref(),
            gen.script() == script_of(list@.as_ref()),
    {
        ListGenRef { list }
    }
}

impl<'a, T> GenIter<&'a T> for ListGenRef<'a, T> {
    open spec fn script(&self) -> Seq<GeneratorState<&'a T, &'a T>> {
        script_of(self@)
    }

    proof fn script_is_valid(&self) {
    }

    fn can_resume(&self) -> (yes: bool) {
        !self.list.is_nil()
    }

    /// Moves the position to the tail. If the tail is empty, the value that was
    /// passed is the final one; otherwise it is yielded.
    fn resume(&mut self) -> (state: GeneratorState<&'a T, &'a T>)
        ensures
            final(self)@ == old(self)@.skip(1),
    {
        match self.list {
            List::Cons(t, tail) => {
                self.list = &**tail;
                if tail.is_nil() {
                    GeneratorState::Complete(t)
                } else {
                    GeneratorState::Yielded(t)
                }
            },
            List::Nil => vstd::pervasive::unreached(),
        }
    }
}

/// Like [`ListGen`], and tells `hint` of the node ahead on every resumption but the
/// final one. The results are those of the plain coroutine, whatever the hook does.
pub struct ListGenPrefetch<T, H: Fn(&List<T>)> {
    list: List<T>,
    hint: H,
}

impl<T, H: Fn(&List<T>)> View for ListGenPrefetch<T, H> {
    type V = Seq<T>;

    /// The values that are still to be delivered, in order.
    closed spec fn view(&self) -> Seq<T> {
        self.list@
    }
}

impl<T, H: Fn(&List<T>)> ListGenPrefetch<T, H> {
    #[verifier::type_invariant]
    spec fn hint_takes_the_nodes_ahead(&self) -> bool {
        forall|node: &List<T>| #[trigger]
            self.list.holds_node(node) ==> call_requires(self.hint, (node,))
    }

    pub(crate) fn over(list: List<T>, hint: H) -> (gen: Self)
        requires
            forall|node: &List<T>| #[trigger] list.holds_node(node) ==> call_requires(hint, (node,)),
        ensures
            gen@ == list@,
            gen.script() == script_of(list@),
    {
        ListGenPrefetch { list, hint }
    }
}

impl<T, H: Fn(&List<T>)> GenIter<T> for ListGenPrefetch<T, H> {
    open spec fn script(&self) -> Seq<GeneratorState<T, T>> {
        script_of(self@)
    }

    proof fn script_is_valid(&self) {
    }

    fn can_resume(&self) -> (yes: bool) {
        !self.list.is_nil()
    }

    /// Takes the head out of the list. If nothing follows it, it is the final value
    /// and the hook is not called. Otherwise the tail takes the list's place, the
    /// node after the tail's head is given to the hook, and the value is yielded.
    fn resume(&mut self) -> (state: GeneratorState<T, T>)
        ensures
            final(self)@ == old(self)@.skip(1),
    {
        proof {
            use_type_invariant(&*self);
        }
        match self.list.take_head() {
            Some(t) => {
                if self.list.is_nil() {
                    GeneratorState::Complete(t)
                } else {
                    self.list.hint_behind_head(&self.hint);
                    GeneratorState::Yielded(t)
                }
            },
            None => vstd::pervasive::unreached(),
        }
    }
}

/// Like [`ListGenRef`], and tells `hint` of the node ahead on every resumption but
/// the final one. The results are those of the plain coroutine, whatever the hook
/// does.
pub struct ListGenRefPrefetch<'a, T, H: Fn(&List<T>)> {
    list: &'a List<T>,
    hint: H,
}

impl<'a, T, H: Fn(&List<T>)> View for ListGenRefPrefetch<'a, T, H> {
    type V = Seq<&'a T>;

    /// References to the values that are still to be delivered, in order.
    closed spec fn view(&self) -> Seq<&'a T> {
        self.list@.as_ref()
    }
}

impl<'a, T, H: Fn(&List<T>)> ListGenRefPrefetch<'a, T, H> {
    #[verifier::type_invariant]
    spec fn hint_takes_the_nodes_ahead(&self) -> bool {
        forall|node: &List<T>| #[trigger]
            self.list.holds_node(node) ==> call_requires(self.hint, (node,))
    }

    pub(crate) fn over(list: &'a List<T>, hint: H) -> (gen: Self)
        requires
            forall|node: &List<T>| #[trigger] list.holds_node(node) ==> call_requires(hint, (node,)),
        ensures
            gen@ == list@.as_ref(),
            gen.script() == script_of(list@.as_ref()),
    {
        ListGenRefPrefetch { list, hint }
    }
}

impl<'a, T, H: Fn(&List<T>)> GenIter<&'a T> for ListGenRefPrefetch<'a, T, H> {
    open spec fn script(&self) -> Seq<GeneratorState<&'a T, &'a T>> {
        script_of(self@)
    }

    proof fn script_is_valid(&self) {
    }

    fn can_resume(&self) -> (yes: bool) {
        !self.list.is_nil()
    }

    /// Moves the position to the tail. If the tail is empty, the value that was
    /// passed is the final one and the hook is not called. Otherwise the node after
    /// the new position is given to the hook, and the value is yielded.
    fn resume(&mut self) -> (state: GeneratorState<&'a T, &'a T>)
        ensures
            final(self)@ == old(self)@.skip(1),
    {
        proof {
            use_type_invariant(&*self);
        }
        match self.list {
            List::Cons(t, tail) => {
                assert forall|node: &List<T>| #[trigger] tail.holds_node(node) implies self.list.holds_node(
                    node,
                ) by {}
                self.list = &**tail;
                if tail.is_nil() {
                    GeneratorState::Complete(t)
                } else {
                    self.list.hint_behind_head(&self.hint);
                    GeneratorState::Yielded(t)
                }
            },
            List::Nil => vstd::pervasive::unreached(),
        }
    }
}

} // verus!

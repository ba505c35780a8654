//! Combinators over any two coroutines: one that pairs their results step by step,
//! and one that runs them one after the other.

use crate::generator::script_of;
use crate::generator::valid_script;
use crate::generator::value_of;
use crate::generator::values_of;
use crate::generator::GenIter;
use crate::generator::GeneratorState;
use vstd::prelude::*;

verus! {

/// What a step of a pair returns when its two sides returned `left` and `right`:
/// the pair of their values, yielded if both were yielded and final if either was
/// final.
pub open spec fn zip_state<T, U>(
    left: GeneratorState<T, T>,
    right: GeneratorState<U, U>,
) -> GeneratorState<(T, U), (T, U)> {
    if left is Yielded && right is Yielded {
        GeneratorState::Yielded((value_of(left), value_of(right)))
    } else {
        GeneratorState::Complete((value_of(left), value_of(right)))
    }
}

/// What a pair of coroutines with the scripts `left` and `right` returns: it goes
/// step by step as far as both sides go. A script that obeys the protocol has its
/// final value at its end, so the pair ends with the side that ends first.
pub open spec fn zip_script<T, U>(
    left: Seq<GeneratorState<T, T>>,
    right: Seq<GeneratorState<U, U>>,
) -> Seq<GeneratorState<(T, U), (T, U)>> {
    Seq::new(
        if left.len() <= right.len() {
            left.len()
        } else {
            right.len()
        },
        |i: int| zip_state(left[i], right[i]),
    )
}

/// The values of `left` and `right` in pairs, as far as both go.
pub open spec fn zipped<T, U>(left: Seq<T>, right: Seq<U>) -> Seq<(T, U)> {
    Seq::new(
        if left.len() <= right.len() {
            left.len()
        } else {
            right.len()
        },
        |i: int| (left[i], right[i]),
    )
}

/// The results of `script`, each one turned into a yielded value.
pub open spec fn all_yielded<T>(script: Seq<GeneratorState<T, T>>) -> Seq<GeneratorState<T, T>> {
    Seq::new(script.len(), |i: int| GeneratorState::Yielded(value_of(script[i])))
}

/// What a chain of coroutines with the scripts `first` and `second` returns: every
/// result of `first` as a yielded value, its final value too, and then, if `first`
/// came to its final value, the results of `second` as they are. Where `first` ends
/// without a final value, the chain ends with it and `second` is never resumed.
pub open spec fn chain_script<T>(
    first: Seq<GeneratorState<T, T>>,
    second: Seq<GeneratorState<T, T>>,
) -> Seq<GeneratorState<T, T>> {
    if first.len() > 0 && first.last() is Complete {
        all_yielded(first) + second
    } else {
        all_yielded(first)
    }
}

/// Two coroutines resumed in step.
pub struct GenZip<L, R> {
    l: L,
    r: R,
}

impl<L, R> GenZip<L, R> {
    /// The left side as it now stands.
    pub closed spec fn left(&self) -> L {
        self.l
    }

    /// The right side as it now stands.
    pub closed spec fn right(&self) -> R {
        self.r
    }
}

impl<T, U, L: GenIter<T>, R: GenIter<U>> GenIter<(T, U)> for GenZip<L, R> {
    open spec fn script(&self) -> Seq<GeneratorState<(T, U), (T, U)>> {
        zip_script(self.left().script(), self.right().script())
    }

    proof fn script_is_valid(&self) {
        self.left().script_is_valid();
        self.right().script_is_valid();
    }

    fn can_resume(&self) -> (yes: bool) {
        self.l.can_resume() && self.r.can_resume()
    }

    /// Resumes the left side, then the right side. If both yielded, the pair of
    /// their values is yielded. If either came to its final value, the pair of the
    /// two values of this step is the final value, whatever the other side still
    /// had to give.
    fn resume(&mut self) -> (state: GeneratorState<(T, U), (T, U)>)
        ensures
            final(self).left().script() == old(self).left().script().skip(1),
            final(self).right().script() == old(self).right().script().skip(1),
    {
        match (self.l.resume(), self.r.resume()) {
            (GeneratorState::Complete(l), GeneratorState::Complete(r)) => GeneratorState::Complete(
                (l, r),
            ),
            (GeneratorState::Complete(l), GeneratorState::Yielded(r)) => GeneratorState::Complete(
                (l, r),
            ),
            (GeneratorState::Yielded(l), GeneratorState::Complete(r)) => GeneratorState::Complete(
                (l, r),
            ),
            (GeneratorState::Yielded(l), GeneratorState::Yielded(r)) => GeneratorState::Yielded(
                (l, r),
            ),
        }
    }
}

/// Pairs two coroutines: each resumption resumes `l` and then `r`, once each, and
/// the pair ends with the side that ends first.
pub fn gen_zip<T, U, L: GenIter<T>, R: GenIter<U>>(l: L, r: R) -> (zip: GenZip<L, R>)
    ensures
        zip.left() == l,
        zip.right() == r,
        zip.script() == zip_script(l.script(), r.script()),
{
    GenZip { l, r }
}

/// Two coroutines run one after the other.
pub struct GenChain<L, R> {
    l: L,
    r: R,
    right: bool,
}

impl<L, R> GenChain<L, R> {
    /// The first coroutine as it now stands.
    pub closed spec fn first(&self) -> L {
        self.l
    }

    /// The second coroutine as it now stands.
    pub closed spec fn second(&self) -> R {
        self.r
    }

    /// Whether the first coroutine has come to its final value, so that the second
    /// one is being run.
    pub closed spec fn on_second(&self) -> bool {
        self.right
    }
}

impl<T, L: GenIter<T>, R: GenIter<T>> GenIter<T> for GenChain<L, R> {
    open spec fn script(&self) -> Seq<GeneratorState<T, T>> {
        if self.on_second() {
            self.second().script()
        } else {
            chain_script(self.first().script(), self.second().script())
        }
    }

    proof fn script_is_valid(&self) {
        self.first().script_is_valid();
        self.second().script_is_valid();
    }

    fn can_resume(&self) -> (yes: bool) {
        if self.right {
            self.r.can_resume()
        } else {
            self.l.can_resume()
        }
    }

    /// While the first coroutine runs, its result is yielded, and so is its final
    /// value, after which the second coroutine takes over. The results of the second
    /// one are returned as they are, so that its final value ends the chain.
    fn resume(&mut self) -> (state: GeneratorState<T, T>)
        ensures
            old(self).on_second() ==> {
                &&& final(self).on_second()
                &&& final(self).first() == old(self).first()
                &&& final(self).second().script() == old(self).second().script().skip(1)
            },
            !old(self).on_second() ==> {
                &&& final(self).on_second() == (old(self).first().script()[0] is Complete)
                &&& final(self).first().script() == old(self).first().script().skip(1)
                &&& final(self).second() == old(self).second()
            },
    {
        if self.right {
            self.r.resume()
        } else {
            match self.l.resume() {
                GeneratorState::Yielded(t) => GeneratorState::Yielded(t),
                GeneratorState::Complete(t) => {
                    self.right = true;
                    GeneratorState::Yielded(t)
                },
            }
        }
    }
}

/// Chains two coroutines: `l` is run to its end with all its values yielded, its
/// final value among them, and then `r` is run, whose final value ends the chain.
pub fn gen_chain<T, L: GenIter<T>, R: GenIter<T>>(l: L, r: R) -> (chain: GenChain<L, R>)
    ensures
        chain.first() == l,
        chain.second() == r,
        !chain.on_second(),
        chain.script() == chain_script(l.script(), r.script()),
{
    GenChain { l, r, right: false }
}

/// A pair of coroutines over two runs of values is a coroutine over the values in
/// pairs: it ends where the shorter run ends, with the pair at that place as its
/// final value, and never goes on into the longer run.
pub proof fn lemma_zip_of_values<T, U>(left: Seq<T>, right: Seq<U>)
    ensures
        zip_script(script_of(left), script_of(right)) == script_of(zipped(left, right)),
        values_of(zip_script(script_of(left), script_of(right))) == zipped(left, right),
{
    assert(zip_script(script_of(left), script_of(right)) =~= script_of(zipped(left, right)));
    assert(values_of(script_of(zipped(left, right))) =~= zipped(left, right));
}

/// A chain of coroutines over two runs of values, neither of them empty, is a
/// coroutine over the first run followed by the second: the final value of the first
/// is yielded like the values before it, and the final value of the second ends the
/// chain.
pub proof fn lemma_chain_of_values<T>(first: Seq<T>, second: Seq<T>)
    requires
        first.len() > 0,
        second.len() > 0,
    ensures
        chain_script(script_of(first), script_of(second)) == script_of(first + second),
        values_of(chain_script(script_of(first), script_of(second))) == first + second,
{
    assert(chain_script(script_of(first), script_of(second)) =~= script_of(first + second));
    assert(values_of(script_of(first + second)) =~= first + second);
}

/// Whatever the two coroutines of a chain are, if the first comes to a final value,
/// the chain delivers the values of the first and then those of the second, and it
/// ends as the second ends.
pub proof fn lemma_chain_values<T>(
    first: Seq<GeneratorState<T, T>>,
    second: Seq<GeneratorState<T, T>>,
)
    requires
        first.len() > 0,
        first.last() is Complete,
    ensures
        values_of(chain_script(first, second)) == values_of(first) + values_of(second),
        chain_script(first, second).len() == first.len() + second.len(),
        valid_script(second) ==> valid_script(chain_script(first, second)),
{
    assert(values_of(chain_script(first, second)) =~= values_of(first) + values_of(second));
}

} // verus!

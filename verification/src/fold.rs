//! Sums over two coroutines run in step.

use crate::combinators::gen_zip;
use crate::combinators::zip_script;
use crate::generator::values_of;
use crate::generator::GenIter;
use crate::generator::GeneratorState;
use vstd::prelude::*;

verus! {

/// The sum of both sides of every pair.
pub open spec fn pair_sum(pairs: Seq<(i32, i32)>) -> int {
    pairs.fold_left(0int, |acc: int, pair: (i32, i32)| acc + pair.0 + pair.1)
}

/// Whether the sum over `pairs`, taken pair by pair from the front, is an `i32` all
/// the way.
pub open spec fn sums_fit(pairs: Seq<(i32, i32)>) -> bool {
    forall|n: int|
        0 <= n <= pairs.len() ==> i32::MIN <= #[trigger] pair_sum(pairs.take(n)) <= i32::MAX
}

/// Whether the sum over a pair of coroutines with the script `script` can be taken:
/// the pair comes to a final value, and the sum is an `i32` after every step.
pub open spec fn summable(script: Seq<GeneratorState<(i32, i32), (i32, i32)>>) -> bool {
    &&& script.len() > 0
    &&& script.last() is Complete
    &&& sums_fit(values_of(script))
}

/// What [`summable`] says, of a pair of coroutines that deliver references.
pub open spec fn summable_ref(script: Seq<GeneratorState<(&i32, &i32), (&i32, &i32)>>) -> bool {
    &&& script.len() > 0
    &&& script.last() is Complete
    &&& sums_fit(values_of(script).unref())
}

/// The sum over one pair more is the sum so far and the two sides of that pair.
pub proof fn lemma_pair_sum_step(pairs: Seq<(i32, i32)>, n: int)
    requires
        0 <= n < pairs.len(),
    ensures
        pair_sum(pairs.take(n + 1)) == pair_sum(pairs.take(n)) + pairs[n].0 + pairs[n].1,
{
    assert(pairs.take(n + 1).drop_last() =~= pairs.take(n));
}

/// Runs `l` and `r` in step and adds up all the values that they deliver, the final
/// ones included. The answer is `None` where the sum cannot be taken: where a step
/// takes it out of `i32`, or where the pair stops without a final value.
pub fn gen_zip_sum_checked<L: GenIter<i32>, R: GenIter<i32>>(l: L, r: R) -> (sum: Option<i32>)
    ensures
        summable(zip_script(l.script(), r.script())) ==> {
            &&& sum matches Some(total)
            &&& total == pair_sum(values_of(zip_script(l.script(), r.script())))
        },
        !summable(zip_script(l.script(), r.script())) ==> sum is None,
{
    let ghost script = zip_script(l.script(), r.script());
    let ghost pairs = values_of(script);
    let ghost mut done: int = 0;
    let mut sum: i32 = 0;
    let mut gen = gen_zip(l, r);
    loop
        invariant
            script == zip_script(l.script(), r.script()),
            pairs == values_of(script),
            0 <= done <= script.len(),
            gen.script() == script.skip(done),
            sum == pair_sum(pairs.take(done)),
            forall|i: int| 0 <= i < done ==> (#[trigger] script[i]) is Yielded,
            forall|n: int|
                0 <= n <= done ==> i32::MIN <= #[trigger] pair_sum(pairs.take(n)) <= i32::MAX,
        decreases script.len() - done,
    {
        if !gen.can_resume() {
            return None;
        }
        proof {
            lemma_pair_sum_step(pairs, done);
            assert(script.skip(done)[0] == script[done]);
        }
        let state = gen.resume();
        let (a, b, last) = match state {
            GeneratorState::Complete((a, b)) => (a, b, true),
            GeneratorState::Yielded((a, b)) => (a, b, false),
        };
        let total: i64 = sum as i64 + a as i64 + b as i64;
        if total < i32::MIN as i64 || total > i32::MAX as i64 {
            return None;
        }
        sum = total as i32;
        proof {
            assert(script.skip(done).skip(1) =~= script.skip(done + 1));
            done = done + 1;
        }
        if last {
            assert(pairs.take(done) =~= pairs);
            return Some(sum);
        }
    }
}

/// Runs `l` and `r` in step and adds up all the values that they deliver, the final
/// ones included. The pair must come to a final value, and the sum must be an `i32`
/// after every step.
pub fn gen_zip_sum<L: GenIter<i32>, R: GenIter<i32>>(l: L, r: R) -> (sum: i32)
    requires
        summable(zip_script(l.script(), r.script())),
    ensures
        sum == pair_sum(values_of(zip_script(l.script(), r.script()))),
{
    match gen_zip_sum_checked(l, r) {
        Some(sum) => sum,
        None => vstd::pervasive::unreached(),
    }
}

/// Like [`gen_zip_sum_checked`], over coroutines that deliver references.
pub fn gen_zip_sum_ref_checked<'a, L: GenIter<&'a i32>, R: GenIter<&'a i32>>(l: L, r: R) -> (sum:
    Option<i32>)
    ensures
        summable_ref(zip_script(l.script(), r.script())) ==> {
            &&& sum matches Some(total)
            &&& total == pair_sum(values_of(zip_script(l.script(), r.script())).unref())
        },
        !summable_ref(zip_script(l.script(), r.script())) ==> sum is None,
{
    let ghost script = zip_script(l.script(), r.script());
    let ghost pairs = values_of(script).unref();
    let ghost mut done: int = 0;
    let mut sum: i32 = 0;
    let mut gen = gen_zip(l, r);
    loop
        invariant
            script == zip_script(l.script(), r.script()),
            pairs == values_of(script).unref(),
            0 <= done <= script.len(),
            gen.script() == script.skip(done),
            sum == pair_sum(pairs.take(done)),
            forall|i: int| 0 <= i < done ==> (#[trigger] script[i]) is Yielded,
            forall|n: int|
                0 <= n <= done ==> i32::MIN <= #[trigger] pair_sum(pairs.take(n)) <= i32::MAX,
        decreases script.len() - done,
    {
        if !gen.can_resume() {
            return None;
        }
        proof {
            lemma_pair_sum_step(pairs, done);
            assert(script.skip(done)[0] == script[done]);
        }
        let state = gen.resume();
        let (a, b, last) = match state {
            GeneratorState::Complete((a, b)) => (*a, *b, true),
            GeneratorState::Yielded((a, b)) => (*a, *b, false),
        };
        let total: i64 = sum as i64 + a as i64 + b as i64;
        if total < i32::MIN as i64 || total > i32::MAX as i64 {
            return None;
        }
        sum = total as i32;
        proof {
            assert(script.skip(done).skip(1) =~= script.skip(done + 1));
            done = done + 1;
        }
        if last {
            assert(pairs.take(done) =~= pairs);
            return Some(sum);
        }
    }
}

/// Like [`gen_zip_sum`], over coroutines that deliver references.
pub fn gen_zip_sum_ref<'a, L: GenIter<&'a i32>, R: GenIter<&'a i32>>(l: L, r: R) -> (sum: i32)
    requires
        summable_ref(zip_script(l.script(), r.script())),
    ensures
        sum == pair_sum(values_of(zip_script(l.script(), r.script())).unref()),
{
    match gen_zip_sum_ref_checked(l, r) {
        Some(sum) => sum,
        None => vstd::pervasive::unreached(),
    }
}

} // verus!

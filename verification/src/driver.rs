//! The poll protocol, and a driver that polls a producer on the calling thread
//! until it hands out its value.

use core::task::Context;
use core::task::Poll;
use core::task::Waker;
use vstd::prelude::*;

verus! {

/// `core::task::Poll`, with its two variants: `Ready`, which carries a value, and
/// `Pending`.
#[verifier::external_type_specification]
pub struct ExPoll<T>(Poll<T>);

/// `core::task::Context`: what a poll is handed so that it could ask to be woken.
/// Nothing is known of what it holds.
#[verifier::external_type_specification]
#[verifier::external_body]
pub struct ExContext<'a>(Context<'a>);

/// `core::task::Waker`. Nothing is known of what it holds.
#[verifier::external_type_specification]
#[verifier::external_body]
pub struct ExWaker(Waker);

/// `Waker::noop` returns a waker that does nothing when it is used. Nothing is
/// claimed of the result.
pub assume_specification[ Waker::noop ]() -> (waker: &'static Waker)
;

/// `Context::from_waker` makes a context around a waker. Nothing is claimed of the
/// result.
pub assume_specification<'a>[ Context::<'a>::from_waker ](waker: &'a Waker) -> (cx: Context<'a>)
;

/// Something that is polled until it hands out a value.
pub trait Producer {
    /// What is handed out.
    type Output;

    /// Whether the producer may be polled.
    spec fn pollable(&self) -> bool;

    /// How many of the coming polls report that the value is not ready yet.
    spec fn pending_polls(&self) -> nat;

    /// The value that is handed out by the first poll that is not in vain.
    spec fn resolved(&self) -> Self::Output;

    /// Asks for the value. While polls are pending the answer is `Pending`, and one
    /// poll fewer is pending afterwards; then the answer is the value.
    fn poll(&mut self, cx: &mut Context<'_>) -> (outcome: Poll<Self::Output>)
        requires
            old(self).pollable(),
        ensures
            old(self).pending_polls() == 0 ==> outcome == Poll::Ready(old(self).resolved()),
            old(self).pending_polls() > 0 ==> {
                &&& outcome is Pending
                &&& final(self).pollable()
                &&& final(self).pending_polls() == old(self).pending_polls() - 1
                &&& final(self).resolved() == old(self).resolved()
            },
    ;
}

/// A producer behind a mutable reference is the same producer: polling through the
/// reference polls it.
impl<P: Producer> Producer for &mut P {
    type Output = P::Output;

    open spec fn pollable(&self) -> bool {
        (**self).pollable()
    }

    open spec fn pending_polls(&self) -> nat {
        (**self).pending_polls()
    }

    open spec fn resolved(&self) -> P::Output {
        (**self).resolved()
    }

    fn poll(&mut self, cx: &mut Context<'_>) -> (outcome: Poll<P::Output>) {
        (**self).poll(cx)
    }
}

/// A producer that holds a value back for a number of polls and hands it out at the
/// poll after them. Once the value is out it must not be polled again.
pub struct Delayed<T> {
    waits: usize,
    value: Option<T>,
}

impl<T> Delayed<T> {
    /// How many polls are still answered with `Pending`.
    pub closed spec fn waits(&self) -> nat {
        self.waits as nat
    }

    /// The value that is held back; `None` once it was handed out.
    pub closed spec fn held(&self) -> Option<T> {
        self.value
    }

    /// A producer that is not ready `waits` times and then hands out `value`.
    pub fn new(waits: usize, value: T) -> (delayed: Self)
        ensures
            delayed.waits() == waits,
            delayed.held() == Some(value),
    {
        Delayed { waits, value: Some(value) }
    }

    /// How many polls are still answered with `Pending`.
    pub fn waits_left(&self) -> (left: usize)
        ensures
            left == self.waits(),
    {
        self.waits
    }

    /// Whether the value was handed out, so that no further poll is in order.
    pub fn is_spent(&self) -> (spent: bool)
        ensures
            spent == !self.pollable(),
    {
        self.value.is_none()
    }
}

impl<T> Producer for Delayed<T> {
    type Output = T;

    open spec fn pollable(&self) -> bool {
        self.held() is Some
    }

    open spec fn pending_polls(&self) -> nat {
        self.waits()
    }

    open spec fn resolved(&self) -> T {
        self.held()->0
    }

    /// Counts one wait down, or hands the value out where none is left.
    fn poll(&mut self, _cx: &mut Context<'_>) -> (outcome: Poll<T>)
        ensures
            old(self).waits() == 0 ==> final(self).held() is None && final(self).waits() == 0,
    {
        if self.waits > 0 {
            self.waits = self.waits - 1;
            Poll::Pending
        } else {
            match self.value.take() {
                Some(value) => Poll::Ready(value),
                None => vstd::pervasive::unreached(),
            }
        }
    }
}

/// Polls `fut` with a waker that does nothing, again and again while it is not
/// ready, and returns the value that it hands out.
pub fn execute<P: Producer>(fut: P) -> (value: P::Output)
    requires
        fut.pollable(),
    ensures
        value == fut.resolved(),
{
    let waker = Waker::noop();
    let mut ctx = Context::from_waker(waker);
    let mut hosted = fut;
    loop
        invariant
            hosted.pollable(),
            hosted.resolved() == fut.resolved(),
        decreases hosted.pending_polls(),
    {
        match hosted.poll(&mut ctx) {
            Poll::Pending => continue ,
            Poll::Ready(t) => return t,
        }
    }
}

} // verus!

//! A singly linked list that can be walked in three ways: by a pull iterator, by a
//! coroutine that is resumed, and by a stream that is polled. Each way exists for an
//! owned and for a borrowed list, plain and with a prefetch hint for the node ahead.
//! Two combinators work on any coroutines, and a small driver polls a producer until
//! it hands out its value.
//!
//! Every walk is described by the values that it still has to deliver, a `Seq` that
//! is the view of the iterator, coroutine or stream. A step hands out the front of
//! that sequence and leaves the rest.

pub mod combinators;
pub mod driver;
pub mod fn_stream;
pub mod fold;
pub mod generator;
pub mod iter;
pub mod linked_list;
pub mod stream;

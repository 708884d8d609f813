//! The request counter of an endpoint, kept in an
//! `atomic_counter::RelaxedCounter`.
//!
//! Nothing in this file is proved. Each function states what the counter
//! crate does, and the rest of the library is verified against those
//! statements. Every operation that changes the count takes the counter by
//! unique reference, so within this crate a shared reference always sees a
//! fixed value.

use atomic_counter::AtomicCounter;
use atomic_counter::RelaxedCounter;
use vstd::prelude::*;

verus! {

/// `atomic_counter::RelaxedCounter`, carried around as a value that only
/// the functions below look into.
#[verifier::external_type_specification]
#[verifier::external_body]
pub struct ExRelaxedCounter(RelaxedCounter);

/// The number a counter currently holds.
pub uninterp spec fn count_of(counter: RelaxedCounter) -> usize;

/// The count that follows `count` after one more request. The counter is a
/// machine word and starts over at zero once the word is full.
pub open spec fn count_after(count: usize) -> usize {
    if count == usize::MAX {
        0
    } else {
        (count + 1) as usize
    }
}

/// `RelaxedCounter::new`: a counter that starts at `initial`.
#[verifier::external_body]
pub(crate) fn counter_new(initial: usize) -> (counter: RelaxedCounter)
    ensures
        count_of(counter) == initial,
{
    RelaxedCounter::new(initial)
}

/// `AtomicCounter::get` on a `RelaxedCounter`: reads the count and leaves
/// it as it was.
#[verifier::external_body]
pub(crate) fn counter_get(counter: &RelaxedCounter) -> (count: usize)
    ensures
        count == count_of(*counter),
{
    counter.get()
}

/// `AtomicCounter::inc` on a `RelaxedCounter`: adds one with a wrapping
/// atomic fetch-and-add, and hands back the count from before.
#[verifier::external_body]
pub(crate) fn counter_inc(counter: &mut RelaxedCounter) -> (before: usize)
    ensures
        before == count_of(*old(counter)),
        count_of(*final(counter)) == count_after(count_of(*old(counter))),
{
    counter.inc()
}

/// `AtomicCounter::reset` on a `RelaxedCounter`: swaps zero in, and hands
/// back the count from before.
#[verifier::external_body]
pub(crate) fn counter_reset(counter: &mut RelaxedCounter) -> (before: usize)
    ensures
        before == count_of(*old(counter)),
        count_of(*final(counter)) == 0,
{
    counter.reset()
}

} // verus!

//! The three-way answer of a scheduling pass over racing branches.

use vstd::prelude::*;

verus! {

/// What a race, or one of its branches, answers when it is polled.
#[derive(Debug)]
pub enum SoftFailPoll<T> {
    /// Nothing is settled yet.
    Pending,
    /// This value settles the matter.
    Ready(T),
    /// There will be no value: the branch soft-failed, or every branch of
    /// the race did.
    SoftFail,
}

} // verus!

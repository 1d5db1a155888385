use vstd::prelude::*;

verus! {

/// What a node hands back besides a hard error: either a value, or a
/// deliberate "no result" that is not a failure.
#[derive(Debug, PartialEq, Eq)]
pub enum NodeOutput<T> {
    /// The node had nothing to offer for this input.
    SoftFail,
    /// The node produced a value.
    Success(T),
}

impl<T> NodeOutput<T> {
    /// Turns the output into an `Option`, dropping the soft failure.
    pub fn ok(self) -> (result: Option<T>)
        ensures
            result == match self {
                NodeOutput::SoftFail => None::<T>,
                NodeOutput::Success(val) => Some(val),
            },
    {
        match self {
            NodeOutput::SoftFail => None,
            NodeOutput::Success(val) => Some(val),
        }
    }

    /// Turns the output into a `Result`, with `err` standing in for the soft
    /// failure.
    pub fn ok_or<E>(self, err: E) -> (result: Result<T, E>)
        ensures
            result == match self {
                NodeOutput::SoftFail => Err::<T, E>(err),
                NodeOutput::Success(val) => Ok(val),
            },
    {
        match self {
            NodeOutput::SoftFail => Err(err),
            NodeOutput::Success(val) => Ok(val),
        }
    }

    /// Turns the output into a `Result`; `err` is called for the error only
    /// when the output is a soft failure.
    pub fn ok_or_else<E, F: Fn() -> E>(self, err: F) -> (result: Result<T, E>)
        requires
            self is SoftFail ==> err.requires(()),
        ensures
            match self {
                NodeOutput::SoftFail => result is Err && err.ensures((), result->Err_0),
                NodeOutput::Success(val) => result == Ok::<T, E>(val),
            },
    {
        match self {
            NodeOutput::SoftFail => Err(err()),
            NodeOutput::Success(val) => Ok(val),
        }
    }
}

} // verus!

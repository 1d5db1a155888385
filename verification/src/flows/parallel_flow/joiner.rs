use crate::node::NodeOutput;
use vstd::prelude::*;

verus! {

/// Makes the output of a fan-out of the outputs of its branches.
pub trait Joiner<Input, Output, Error, Context> {
    /// Whether joining `input` in the context `before` may come back with
    /// `result` and leave the context as `after`. A joiner that says nothing
    /// about itself may do anything.
    open spec fn joins(
        &self,
        input: Input,
        before: Context,
        result: Result<NodeOutput<Output>, Error>,
        after: Context,
    ) -> bool {
        true
    }

    /// Joins the outputs of the branches, which come in branch order.
    fn join(&self, input: Input, context: &mut Context) -> (result: Result<
        NodeOutput<Output>,
        Error,
    >)
        ensures
            self.joins(input, *old(context), result, *final(context)),
    ;
}

} // verus!

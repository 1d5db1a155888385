use vstd::prelude::*;

verus! {

/// A unit of work: it takes an input and the context of the run, and comes
/// back with an output or an error. What a node does is its own business;
/// a flow only ever relies on what `yields` says about it.
pub trait Node<Input, Output, Error, Context> {
    /// Whether running this node on `input` in the context `before` may come
    /// back with `result` and leave the context as `after`. A node that says
    /// nothing about itself may do anything.
    open spec fn yields(
        &self,
        input: Input,
        before: Context,
        result: Result<Output, Error>,
        after: Context,
    ) -> bool {
        true
    }

    /// Runs the node.
    fn run(&mut self, input: Input, context: &mut Context) -> (result: Result<Output, Error>)
        ensures
            old(self).yields(input, *old(context), result, *final(context)),
    ;
}

} // verus!

use crate::node::{Node, NodeOutput};
use core::marker::PhantomData;
use vstd::prelude::*;

verus! {

/// Fits a node into a flow whose types differ from its own: the flow's
/// input is converted to the node's input, and the node's output and error
/// are converted to the flow's.
pub struct InternalNodeStruct2<NodeType, NodeInput, NodeOut, NodeError> {
    node: NodeType,
    _node_types: PhantomData<(NodeInput, NodeOut, NodeError)>,
}

impl<NodeType, NodeInput, NodeOut, NodeError> InternalNodeStruct2<
    NodeType,
    NodeInput,
    NodeOut,
    NodeError,
> {
    /// The node that is fitted.
    pub closed spec fn node(&self) -> NodeType {
        self.node
    }

    /// Wraps `node`.
    pub fn new(node: NodeType) -> (adapter: Self)
        ensures
            adapter.node() == node,
    {
        InternalNodeStruct2 { node, _node_types: PhantomData }
    }
}

impl<NodeType: Clone, NodeInput, NodeOut, NodeError> Clone for InternalNodeStruct2<
    NodeType,
    NodeInput,
    NodeOut,
    NodeError,
> {
    /// Copies the node.
    fn clone(&self) -> (copy: Self)
        ensures
            cloned(self.node(), copy.node()),
    {
        InternalNodeStruct2 { node: self.node.clone(), _node_types: PhantomData }
    }
}

/// What the flow sees of what the node came back with: a value and an
/// error are converted, a soft failure stays a soft failure.
pub open spec fn converted<NodeOut, NodeError, Output: From<NodeOut>, Error: From<NodeError>>(
    inner: Result<NodeOutput<NodeOut>, NodeError>,
    result: Result<NodeOutput<Output>, Error>,
) -> bool {
    match inner {
        Ok(NodeOutput::Success(value)) => result is Ok && result->Ok_0 is Success && call_ensures(
            Output::from,
            (value,),
            result->Ok_0->Success_0,
        ),
        Ok(NodeOutput::SoftFail) => result == Ok::<NodeOutput<Output>, Error>(NodeOutput::SoftFail),
        Err(error) => result is Err && call_ensures(Error::from, (error,), result->Err_0),
    }
}

impl<
    Input,
    Output: From<NodeOut>,
    Error: From<NodeError>,
    Context,
    NodeType: Node<NodeInput, NodeOutput<NodeOut>, NodeError, Context>,
    NodeInput: From<Input>,
    NodeOut,
    NodeError,
> Node<Input, NodeOutput<Output>, Error, Context> for InternalNodeStruct2<
    NodeType,
    NodeInput,
    NodeOut,
    NodeError,
> {
    /// The node runs on the converted input, and what it comes back with is
    /// converted for the flow.
    open spec fn yields(
        &self,
        input: Input,
        before: Context,
        result: Result<NodeOutput<Output>, Error>,
        after: Context,
    ) -> bool {
        exists|fed: NodeInput, inner: Result<NodeOutput<NodeOut>, NodeError>|
            call_ensures(NodeInput::from, (input,), fed) && #[trigger] self.node().yields(
                fed,
                before,
                inner,
                after,
            ) && converted(inner, result)
    }

    fn run(&mut self, input: Input, context: &mut Context) -> (result: Result<
        NodeOutput<Output>,
        Error,
    >) {
        let ghost held = self.node;
        let fed: NodeInput = input.into();
        let inner = self.node.run(fed, context);
        let result = match inner {
            Ok(NodeOutput::Success(value)) => Ok(NodeOutput::Success(value.into())),
            Ok(NodeOutput::SoftFail) => Ok(NodeOutput::SoftFail),
            Err(error) => Err(error.into()),
        };
        proof {
            assert(held == old(self).node());
        }
        result
    }
}

} // verus!

//! A flow that starts a node in the background and does not wait for it.

use crate::context::Fork;
use crate::describe::{Description, DescriptionBase, Edge, EdgeEnding};
use crate::flows::one_of_parallel_flow::Branch;
use crate::flows::{describe_flow, describes_flow, into_node};
use crate::node::NodeOutput;
use vstd::prelude::*;

verus! {

/// A flow that hands its node to the background and passes its own input
/// on unchanged. What becomes of the node, its output and its error alike,
/// is of no concern to the flow.
pub struct Detached<N> {
    node: N,
}

/// The wiring of a detached flow: the flow's input is its output, and the
/// input also goes to the node.
pub open spec fn detached_wiring() -> Seq<Edge> {
    seq![Edge { start: EdgeEnding::ToFlow, end: EdgeEnding::ToFlow }, into_node(0)]
}

impl<N> Detached<N> {
    /// The node that is run in the background.
    pub closed spec fn node(&self) -> N {
        self.node
    }

    /// Makes a detached flow of `node`.
    pub fn new(node: N) -> (flow: Self)
        ensures
            flow.node() == node,
    {
        Detached { node }
    }

    /// The node that is run in the background.
    pub fn node_ref(&self) -> (node: &N)
        ensures
            *node == self.node(),
    {
        &self.node
    }

    /// Describes the flow: `base` tells what the flow itself is, and
    /// `node_description` is the description of its node.
    pub fn describe(&self, base: DescriptionBase, node_description: Description) -> (described:
        Description)
        ensures
            describes_detached_flow(described, base, node_description),
    {
        describe_detached_flow(base, node_description)
    }
}

/// Whether `described` is the description of a detached flow with the
/// given base and the given description of its node.
pub open spec fn describes_detached_flow(
    described: Description,
    base: DescriptionBase,
    node_description: Description,
) -> bool {
    &&& describes_flow(described, base, described->Flow_nodes, detached_wiring())
    &&& described->Flow_nodes@ == seq![node_description]
}

/// Describes a detached flow: `base` tells what the flow itself is, and
/// `node_description` is the description of its node.
pub fn describe_detached_flow(base: DescriptionBase, node_description: Description) -> (described:
    Description)
    ensures
        describes_detached_flow(described, base, node_description),
{
    let mut nodes: Vec<Description> = Vec::new();
    nodes.push(node_description);
    let mut edges: Vec<Edge> = Vec::new();
    edges.push(Edge::passthrough());
    edges.push(Edge::flow_to_node(0));
    assert(edges@ =~= detached_wiring());
    describe_flow(base, nodes, edges)
}

impl<N: Clone> Detached<N> {
    /// Makes ready one run of the flow on `input` in `context`. The first
    /// part of what comes back is the work to hand to the background: a copy
    /// of the node, a copy of the input, and a fork of the context for the
    /// node to work on. The second part is what the flow itself comes back
    /// with, at once and whatever becomes of the work: its input, unchanged.
    pub fn launch<Input: Clone, Error, Context: Fork>(&self, input: Input, context: &Context) -> (launched:
        (Branch<N, Input, Context>, Result<NodeOutput<Input>, Error>))
        ensures
            cloned(self.node(), launched.0.node),
            cloned(input, launched.0.input),
            context.forks_into(launched.0.context),
            launched.1 == Ok::<NodeOutput<Input>, Error>(NodeOutput::Success(input)),
    {
        let work = Branch {
            node: self.node.clone(),
            input: input.clone(),
            context: context.fork(),
        };
        (work, Ok(NodeOutput::Success(input)))
    }
}

impl<N: Clone> Clone for Detached<N> {
    /// Copies the node.
    fn clone(&self) -> (copy: Self)
        ensures
            cloned(self.node(), copy.node()),
    {
        Detached { node: self.node.clone() }
    }
}

} // verus!

use super::builder::Builder;
use super::chain_run::{chain_yields, ChainRunSequential};
use crate::node::{Node, NodeOutput};
use crate::describe::{Description, DescriptionBase};
use crate::flows::{describe_flow, describes_flow, sequential_edges, sequential_wiring};
use vstd::prelude::*;

verus! {

/// A flow that runs its nodes one after the other on one shared context.
#[derive(Clone)]
pub struct SequentialFlow<N> {
    nodes: Vec<N>,
}

impl<N> SequentialFlow<N> {
    /// Starts the assembly of a pipeline.
    pub fn builder() -> (builder: Builder<N>)
        ensures
            builder.nodes() == Seq::<N>::empty(),
    {
        Builder::new()
    }

    /// Makes a pipeline of `nodes`, which run in the order given.
    pub(super) fn from_nodes(nodes: Vec<N>) -> (flow: Self)
        ensures
            flow.nodes() == nodes@,
    {
        SequentialFlow { nodes }
    }

    /// Takes the flow apart and hands out its nodes, in order.
    pub fn into_nodes(self) -> (nodes: Vec<N>)
        ensures
            nodes@ == self.nodes(),
    {
        self.nodes
    }

    /// Describes the flow: `base` tells what the flow itself is, and
    /// `node_descriptions` holds the descriptions of its nodes, in order.
    pub fn describe(&self, base: DescriptionBase, node_descriptions: Vec<Description>) -> (described:
        Description)
        ensures
            describes_flow(
                described,
                base,
                node_descriptions,
                sequential_wiring(self.nodes().len() as int),
            ),
    {
        let edges = sequential_edges(self.nodes.len());
        describe_flow(base, node_descriptions, edges)
    }

    /// The nodes of the pipeline, in the order in which they run.
    pub closed spec fn nodes(&self) -> Seq<N> {
        self.nodes@
    }
}

impl<T, E, C, N: Node<T, NodeOutput<T>, E, C> + Clone> Node<T, NodeOutput<T>, E, C> for SequentialFlow<
    N,
> {
    open spec fn yields(
        &self,
        input: T,
        before: C,
        result: Result<NodeOutput<T>, E>,
        after: C,
    ) -> bool {
        chain_yields(self.nodes(), input, before, result, after)
    }

    fn run(&mut self, input: T, context: &mut C) -> (result: Result<NodeOutput<T>, E>)
        ensures
            *final(self) == *old(self),
    {
        self.nodes.run(input, context)
    }
}

} // verus!

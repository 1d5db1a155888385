use super::builder::OneOfSequentialFlowBuilder;
use super::chain_run::{attempts_yield, ChainRunOneOfSequential};
use crate::context::{Fork, Update};
use crate::node::{Node, NodeOutput};
use crate::describe::{Description, DescriptionBase};
use crate::flows::{describe_flow, describes_flow, one_of_edges, one_of_wiring};
use vstd::prelude::*;

verus! {

/// A flow that tries its nodes one after the other, each on a fork of the
/// context, and settles for the first that produces a value.
#[derive(Clone)]
pub struct OneOfSequentialFlow<N> {
    nodes: Vec<N>,
}

impl<N> OneOfSequentialFlow<N> {
    /// Starts the assembly of a fallback chain.
    pub fn builder() -> (builder: OneOfSequentialFlowBuilder<N>)
        ensures
            builder.nodes() == Seq::<N>::empty(),
    {
        OneOfSequentialFlowBuilder::new()
    }

    /// Makes a fallback chain of `nodes`, which are tried in the order given.
    pub(super) fn from_nodes(nodes: Vec<N>) -> (flow: Self)
        ensures
            flow.nodes() == nodes@,
    {
        OneOfSequentialFlow { nodes }
    }

    /// Takes the flow apart and hands out its nodes, in order.
    pub fn into_nodes(self) -> (nodes: Vec<N>)
        ensures
            nodes@ == self.nodes(),
    {
        self.nodes
    }

    /// Describes the flow: `base` tells what the flow itself is, and
    /// `node_descriptions` holds the descriptions of its nodes, in order.
    pub fn describe(&self, base: DescriptionBase, node_descriptions: Vec<Description>) -> (described:
        Description)
        ensures
            describes_flow(
                described,
                base,
                node_descriptions,
                one_of_wiring(self.nodes().len() as int),
            ),
    {
        let edges = one_of_edges(self.nodes.len());
        describe_flow(base, node_descriptions, edges)
    }

    /// The nodes of the fallback chain, in the order in which they are tried.
    pub closed spec fn nodes(&self) -> Seq<N> {
        self.nodes@
    }
}

impl<T: Clone, O, E, C: Fork + Update, N: Node<T, NodeOutput<O>, E, C> + Clone> Node<
    T,
    NodeOutput<O>,
    E,
    C,
> for OneOfSequentialFlow<N> {
    open spec fn yields(
        &self,
        input: T,
        before: C,
        result: Result<NodeOutput<O>, E>,
        after: C,
    ) -> bool {
        attempts_yield(self.nodes(), input, before, result, after)
    }

    fn run(&mut self, input: T, context: &mut C) -> (result: Result<NodeOutput<O>, E>)
        ensures
            *final(self) == *old(self),
    {
        self.nodes.run(input, context)
    }
}

} // verus!

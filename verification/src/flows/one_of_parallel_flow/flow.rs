use super::builder::Builder;
use super::chain_run::run::{race_yields, ChainRunOneOfParallel};
use crate::context::{Fork, Update};
use crate::node::{Node, NodeOutput};
use crate::describe::{Description, DescriptionBase};
use crate::flows::{describe_flow, describes_flow, one_of_edges, one_of_wiring};
use vstd::prelude::*;

verus! {

/// A flow that lets its nodes race, each on its own fork of the context,
/// and settles for the first that produces a value or fails.
#[derive(Clone)]
pub struct OneOfParallelFlow<N> {
    nodes: Vec<N>,
}

impl<N> OneOfParallelFlow<N> {
    /// Starts the assembly of a race.
    pub fn builder() -> (builder: Builder<N>)
        ensures
            builder.nodes() == Seq::<N>::empty(),
    {
        Builder::new()
    }

    /// Makes a race of `nodes`; their order is the order in which the
    /// scheduler looks at them.
    pub(super) fn from_nodes(nodes: Vec<N>) -> (flow: Self)
        ensures
            flow.nodes() == nodes@,
    {
        OneOfParallelFlow { nodes }
    }

    /// Takes the flow apart and hands out its nodes, in order.
    pub fn into_nodes(self) -> (nodes: Vec<N>)
        ensures
            nodes@ == self.nodes(),
    {
        self.nodes
    }

    /// Describes the flow: `base` tells what the flow itself is, and
    /// `node_descriptions` holds the descriptions of its nodes, in order.
    pub fn describe(&self, base: DescriptionBase, node_descriptions: Vec<Description>) -> (described:
        Description)
        ensures
            describes_flow(
                described,
                base,
                node_descriptions,
                one_of_wiring(self.nodes().len() as int),
            ),
    {
        let edges = one_of_edges(self.nodes.len());
        describe_flow(base, node_descriptions, edges)
    }

    /// The nodes of the race, in the order in which the scheduler looks at
    /// them.
    pub closed spec fn nodes(&self) -> Seq<N> {
        self.nodes@
    }
}

impl<T: Clone, O, E, C: Fork + Update, N: Node<T, NodeOutput<O>, E, C> + Clone> Node<
    T,
    NodeOutput<O>,
    E,
    C,
> for OneOfParallelFlow<N> {
    open spec fn yields(
        &self,
        input: T,
        before: C,
        result: Result<NodeOutput<O>, E>,
        after: C,
    ) -> bool {
        race_yields(self.nodes(), input, before, result, after)
    }

    fn run(&mut self, input: T, context: &mut C) -> (result: Result<NodeOutput<O>, E>)
        ensures
            *final(self) == *old(self),
    {
        ChainRunOneOfParallel::run(&self.nodes, input, context)
    }
}

} // verus!

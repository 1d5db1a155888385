use super::flow::OneOfSequentialFlow;
use vstd::prelude::*;

verus! {

/// Collects the nodes of a fallback chain in the order in which they will be tried.
pub struct OneOfSequentialFlowBuilder<N> {
    nodes: Vec<N>,
}

impl<N> Default for OneOfSequentialFlowBuilder<N> {
    /// A builder that holds no node yet.
    fn default() -> (builder: Self)
        ensures
            builder.nodes() == Seq::<N>::empty(),
    {
        OneOfSequentialFlowBuilder::new()
    }
}

impl<N> OneOfSequentialFlowBuilder<N> {
    /// The nodes added so far, in order.
    pub closed spec fn nodes(&self) -> Seq<N> {
        self.nodes@
    }

    /// Makes a builder that holds no node yet.
    pub fn new() -> (builder: Self)
        ensures
            builder.nodes() == Seq::<N>::empty(),
    {
        OneOfSequentialFlowBuilder { nodes: Vec::new() }
    }

    /// Appends `node` to the fallback chain.
    pub fn add_node(self, node: N) -> (builder: Self)
        ensures
            builder.nodes() == self.nodes().push(node),
    {
        let mut nodes = self.nodes;
        nodes.push(node);
        OneOfSequentialFlowBuilder { nodes }
    }

    /// Finishes the assembly.
    pub fn build(self) -> (flow: OneOfSequentialFlow<N>)
        ensures
            flow.nodes() == self.nodes(),
    {
        OneOfSequentialFlow::from_nodes(self.nodes)
    }
}

} // verus!

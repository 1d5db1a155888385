use super::flow::SequentialFlow;
use vstd::prelude::*;

verus! {

/// Collects the nodes of a pipeline in the order in which they will run.
pub struct Builder<N> {
    nodes: Vec<N>,
}

impl<N> Default for Builder<N> {
    /// A builder that holds no node yet.
    fn default() -> (builder: Self)
        ensures
            builder.nodes() == Seq::<N>::empty(),
    {
        Builder::new()
    }
}

impl<N> Builder<N> {
    /// The nodes added so far, in order.
    pub closed spec fn nodes(&self) -> Seq<N> {
        self.nodes@
    }

    /// Makes a builder that holds no node yet.
    pub fn new() -> (builder: Self)
        ensures
            builder.nodes() == Seq::<N>::empty(),
    {
        Builder { nodes: Vec::new() }
    }

    /// Appends `node` to the pipeline.
    pub fn add_node(self, node: N) -> (builder: Self)
        ensures
            builder.nodes() == self.nodes().push(node),
    {
        let mut nodes = self.nodes;
        nodes.push(node);
        Builder { nodes }
    }

    /// Finishes the assembly.
    pub fn build(self) -> (flow: SequentialFlow<N>)
        ensures
            flow.nodes() == self.nodes(),
    {
        SequentialFlow::from_nodes(self.nodes)
    }
}

} // verus!

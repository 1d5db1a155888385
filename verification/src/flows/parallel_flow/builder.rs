use super::flow::ParallelFlow;
use vstd::prelude::*;

verus! {

/// Collects the nodes of a fan-out in branch order.
pub struct Builder<N> {
    nodes: Vec<N>,
}

impl<N> Default for Builder<N> {
    /// A builder that holds no node yet.
    fn default() -> (builder: Self)
        ensures
            builder.nodes() == Seq::<N>::empty(),
    {
        Builder::new()
    }
}

impl<N> Builder<N> {
    /// The nodes added so far, in order.
    pub closed spec fn nodes(&self) -> Seq<N> {
        self.nodes@
    }

    /// Makes a builder that holds no node yet.
    pub fn new() -> (builder: Self)
        ensures
            builder.nodes() == Seq::<N>::empty(),
    {
        Builder { nodes: Vec::new() }
    }

    /// Appends `node` as the next branch of the fan-out.
    pub fn add_node(self, node: N) -> (builder: Self)
        ensures
            builder.nodes() == self.nodes().push(node),
    {
        let mut nodes = self.nodes;
        nodes.push(node);
        Builder { nodes }
    }

    /// Finishes the assembly with the joiner that will make the flow's
    /// output of the branches' outputs, which are of type `O`.
    pub fn build<J, O>(self, joiner: J) -> (flow: ParallelFlow<N, J, O>)
        ensures
            flow.nodes() == self.nodes(),
            flow.joiner() == joiner,
    {
        ParallelFlow::from_parts(self.nodes, joiner)
    }
}

} // verus!

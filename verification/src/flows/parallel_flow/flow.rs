use super::builder::Builder;
use super::chain_run::run::{fan_out_yields, ChainRunParallel};
use super::Joiner;
use crate::context::{Fork, Join};
use crate::node::{Node, NodeOutput};
use crate::describe::{Description, DescriptionBase, Type};
use crate::flows::{describe_flow, describes_flow, parallel_edges, parallel_wiring};
use core::marker::PhantomData;
use vstd::prelude::*;

verus! {

/// A flow that runs all its nodes, each on its own fork of the context,
/// and hands their outputs, which are of type `O`, to a joiner.
pub struct ParallelFlow<N, J = (), O = ()> {
    nodes: Vec<N>,
    joiner: J,
    _branch_output: PhantomData<O>,
}

impl<N: Clone, J: Clone, O> Clone for ParallelFlow<N, J, O> {
    /// Copies the nodes and the joiner.
    fn clone(&self) -> (copy: Self) {
        ParallelFlow {
            nodes: self.nodes.clone(),
            joiner: self.joiner.clone(),
            _branch_output: PhantomData,
        }
    }
}

impl<N> ParallelFlow<N> {
    /// Starts the assembly of a fan-out.
    pub fn builder() -> (builder: Builder<N>)
        ensures
            builder.nodes() == Seq::<N>::empty(),
    {
        Builder::new()
    }
}

impl<N, J, O> ParallelFlow<N, J, O> {
    /// Makes a fan-out over `nodes` whose outputs go to `joiner`.
    pub(super) fn from_parts(nodes: Vec<N>, joiner: J) -> (flow: Self)
        ensures
            flow.nodes() == nodes@,
            flow.joiner() == joiner,
    {
        ParallelFlow { nodes, joiner, _branch_output: PhantomData }
    }

    /// Takes the flow apart and hands out its nodes, in branch order, and
    /// its joiner.
    pub fn into_parts(self) -> (parts: (Vec<N>, J))
        ensures
            parts.0@ == self.nodes(),
            parts.1 == self.joiner(),
    {
        (self.nodes, self.joiner)
    }

    /// Describes the flow: `base` tells what the flow itself is, and
    /// `node_descriptions` holds the descriptions of its nodes, in order.
    /// The joiner is described after the nodes, as a part by the name of
    /// `Joiner`.
    pub fn describe(&self, base: DescriptionBase, node_descriptions: Vec<Description>) -> (described:
        Description)
        ensures
            describes_parallel_flow(
                described,
                base,
                node_descriptions,
                self.nodes().len() as int,
            ),
    {
        describe_parallel_flow(base, node_descriptions, self.nodes.len())
    }

    /// The nodes of the fan-out, in branch order.
    pub closed spec fn nodes(&self) -> Seq<N> {
        self.nodes@
    }

    /// The joiner that makes the flow's output.
    pub closed spec fn joiner(&self) -> J {
        self.joiner
    }
}

/// Whether `described` is the description of a fan-out over `count` nodes
/// with the given base: it holds the given descriptions of the nodes and,
/// after them, the joiner as a part by the name of `Joiner`.
pub open spec fn describes_parallel_flow(
    described: Description,
    base: DescriptionBase,
    node_descriptions: Vec<Description>,
    count: int,
) -> bool {
    &&& described is Flow
    &&& described->Flow_nodes@.len() == node_descriptions@.len() + 1
    &&& described->Flow_nodes@.drop_last() == node_descriptions@
    &&& described->Flow_nodes@.last().is_part("Joiner"@, Seq::empty(), Seq::empty())
    &&& describes_flow(described, base, described->Flow_nodes, parallel_wiring(count))
}

/// Describes a fan-out over `count` nodes: `base` tells what the flow
/// itself is, and `node_descriptions` holds the descriptions of its nodes,
/// in order.
pub fn describe_parallel_flow(
    base: DescriptionBase,
    node_descriptions: Vec<Description>,
    count: usize,
) -> (described: Description)
    ensures
        describes_parallel_flow(described, base, node_descriptions, count as int),
{
    let mut nodes = node_descriptions;
    nodes.push(Description::new_part("Joiner", Type::unnamed(), Type::unnamed()));
    assert(nodes@.drop_last() =~= node_descriptions@);
    let edges = parallel_edges(count);
    describe_flow(base, nodes, edges)
}

/// Hands the outputs of the branches to the joiner.
pub fn call_joiner<J: Joiner<I, O, E, C>, I, O, E, C>(joiner: &J, input: I, context: &mut C) -> (result:
    Result<NodeOutput<O>, E>)
    ensures
        joiner.joins(input, *old(context), result, *final(context)),
{
    joiner.join(input, context)
}

/// Whether running a fan-out over `nodes` with `joiner` on `input` in the
/// context `before` may end with `result` and leave the context as `after`.
///
/// Where a branch failed, the result is the error that the fan-out reports,
/// the joiner is not called, and the context is untouched. Otherwise the
/// joiner is handed the outputs of all branches, soft failures included,
/// and works on the context that has absorbed the forks of all branches;
/// what the joiner comes back with is the result.
pub open spec fn parallel_yields<
    T: Clone,
    O,
    R,
    E,
    C: Fork + Join,
    N: Node<T, NodeOutput<O>, E, C> + Clone,
    J: Joiner<Vec<NodeOutput<O>>, R, E, C>,
>(nodes: Seq<N>, joiner: J, input: T, before: C, result: Result<NodeOutput<R>, E>, after: C) -> bool {
    ||| exists|error: E| #[trigger]
        fan_out_yields(nodes, input, before, Err::<Vec<NodeOutput<O>>, E>(error), after) && result
            == Err::<NodeOutput<R>, E>(error)
    ||| exists|outputs: Vec<NodeOutput<O>>, joined: C| #[trigger]
        fan_out_yields(nodes, input, before, Ok::<Vec<NodeOutput<O>>, E>(outputs), joined)
            && joiner.joins(outputs, joined, result, after)
}

impl<
    T: Clone,
    O,
    R,
    E,
    C: Fork + Join,
    N: Node<T, NodeOutput<O>, E, C> + Clone,
    J: Joiner<Vec<NodeOutput<O>>, R, E, C>,
> Node<T, NodeOutput<R>, E, C> for ParallelFlow<N, J, O> {
    open spec fn yields(
        &self,
        input: T,
        before: C,
        result: Result<NodeOutput<R>, E>,
        after: C,
    ) -> bool {
        parallel_yields(self.nodes(), self.joiner(), input, before, result, after)
    }

    fn run(&mut self, input: T, context: &mut C) -> (result: Result<NodeOutput<R>, E>)
        ensures
            *final(self) == *old(self),
    {
        match ChainRunParallel::run(&self.nodes, input, context) {
            Ok(outputs) => call_joiner(&self.joiner, outputs, context),
            Err(error) => Err(error),
        }
    }
}

} // verus!

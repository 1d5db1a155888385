use crate::flows::{node_yields, Ran};
use crate::node::{Node, NodeOutput};
use vstd::prelude::*;

verus! {

/// What the pipeline does once a node has come back.
pub enum SequentialStep<T, E> {
    /// Feed this value to the next node.
    Continue(T),
    /// Stop here: this is the outcome of the whole pipeline.
    Finish(Result<NodeOutput<T>, E>),
}

/// Decides how the pipeline goes on after one of its nodes came back with
/// `outcome`. `is_last` tells whether that node was the last of the pipeline.
pub fn sequential_step<T, E>(outcome: Result<NodeOutput<T>, E>, is_last: bool) -> (step:
    SequentialStep<T, E>)
    ensures
        step == (match outcome {
            Ok(NodeOutput::Success(value)) => if is_last {
                SequentialStep::Finish(Ok(NodeOutput::Success(value)))
            } else {
                SequentialStep::Continue(value)
            },
            Ok(NodeOutput::SoftFail) => SequentialStep::Finish(Ok(NodeOutput::SoftFail)),
            Err(error) => SequentialStep::Finish(Err(error)),
        }),
{
    match outcome {
        Ok(NodeOutput::Success(value)) => if is_last {
            SequentialStep::Finish(Ok(NodeOutput::Success(value)))
        } else {
            SequentialStep::Continue(value)
        },
        Ok(NodeOutput::SoftFail) => SequentialStep::Finish(Ok(NodeOutput::SoftFail)),
        Err(error) => SequentialStep::Finish(Err(error)),
    }
}

/// The input that the node at `position` is fed in a run recorded as
/// `trace`: the flow's input for the first node, and for every other node
/// the value that the node before it produced.
pub open spec fn chain_input<T, E, C>(
    input: T,
    trace: Seq<Ran<NodeOutput<T>, E, C>>,
    position: int,
) -> T {
    if position <= 0 {
        input
    } else {
        match trace[position - 1].outcome {
            Ok(NodeOutput::Success(value)) => value,
            _ => input,
        }
    }
}

/// The context in which the node at `position` starts in a run recorded as
/// `trace`: the flow's context for the first node, and for every other node
/// the context as the node before it left it.
pub open spec fn chain_context<T, E, C>(
    before: C,
    trace: Seq<Ran<NodeOutput<T>, E, C>>,
    position: int,
) -> C {
    if position <= 0 {
        before
    } else {
        trace[position - 1].context
    }
}

/// Whether `trace` records a complete run of the pipeline `nodes` on `input`
/// in the context `before`, one entry for each node that ran, in order.
///
/// The nodes run in order from the first. Each is fed what the one before it
/// produced and works on the context as that one left it. Every node but the
/// last to run produced a value, and the run is over either when the last
/// node of the pipeline has run or when a node soft-failed or failed.
pub open spec fn chain_runs<T, E, C, N: Node<T, NodeOutput<T>, E, C> + Clone>(
    nodes: Seq<N>,
    input: T,
    before: C,
    trace: Seq<Ran<NodeOutput<T>, E, C>>,
) -> bool {
    &&& trace.len() <= nodes.len()
    &&& forall|i: int|
        0 <= i < trace.len() ==> node_yields(
            nodes[i],
            chain_input(input, trace, i),
            chain_context(before, trace, i),
            (#[trigger] trace[i]).outcome,
            trace[i].context,
        )
    &&& forall|i: int|
        0 <= i < trace.len() - 1 ==> (#[trigger] trace[i]).outcome is Ok && trace[i].outcome->Ok_0
            is Success
    &&& trace.len() < nodes.len() ==> trace.len() > 0 && !(trace.last().outcome is Ok
        && trace.last().outcome->Ok_0 is Success)
}

/// The result of a run of the pipeline recorded as `trace`: what the last
/// node to run came back with, or the input itself where no node ran.
pub open spec fn chain_result<T, E, C>(input: T, trace: Seq<Ran<NodeOutput<T>, E, C>>) -> Result<
    NodeOutput<T>,
    E,
> {
    if trace.len() == 0 {
        Ok(NodeOutput::Success(input))
    } else {
        trace.last().outcome
    }
}

/// Whether running the pipeline `nodes` on `input` in the context `before`
/// may end with `result` and leave the context as `after`.
pub open spec fn chain_yields<T, E, C, N: Node<T, NodeOutput<T>, E, C> + Clone>(
    nodes: Seq<N>,
    input: T,
    before: C,
    result: Result<NodeOutput<T>, E>,
    after: C,
) -> bool {
    exists|trace: Seq<Ran<NodeOutput<T>, E, C>>| #[trigger]
        chain_runs(nodes, input, before, trace) && result == chain_result(input, trace) && after
            == chain_context(before, trace, trace.len() as int)
}

/// A pipeline as a runnable chain of nodes.
pub trait ChainRunSequential<Input, Output, Context> {
    /// Whether running the chain on `input` in the context `before` may come
    /// back with `output` and leave the context as `after`.
    spec fn chain_run_yields(
        &self,
        input: Input,
        before: Context,
        output: Output,
        after: Context,
    ) -> bool;

    /// Runs the chain.
    fn run(&self, input: Input, context: &mut Context) -> (output: Output)
        ensures
            self.chain_run_yields(input, *old(context), output, *final(context)),
    ;
}

impl<T, E, C, N: Node<T, NodeOutput<T>, E, C> + Clone> ChainRunSequential<
    T,
    Result<NodeOutput<T>, E>,
    C,
> for Vec<N> {
    open spec fn chain_run_yields(
        &self,
        input: T,
        before: C,
        output: Result<NodeOutput<T>, E>,
        after: C,
    ) -> bool {
        chain_yields(self@, input, before, output, after)
    }

    fn run(&self, input: T, context: &mut C) -> (output: Result<NodeOutput<T>, E>) {
        let count = self.len();
        let mut value = input;
        let mut index: usize = 0;
        let ghost mut trace: Seq<Ran<NodeOutput<T>, E, C>> = Seq::empty();
        while index < count
            invariant
                count == self@.len(),
                index <= count,
                trace.len() == index,
                value == chain_input(input, trace, index as int),
                *context == chain_context(*old(context), trace, index as int),
                forall|i: int|
                    0 <= i < trace.len() ==> node_yields(
                        self@[i],
                        chain_input(input, trace, i),
                        chain_context(*old(context), trace, i),
                        (#[trigger] trace[i]).outcome,
                        trace[i].context,
                    ),
                forall|i: int|
                    0 <= i < trace.len() ==> (#[trigger] trace[i]).outcome is Ok
                        && trace[i].outcome->Ok_0 is Success,
            decreases count - index,
        {
            let ghost earlier = trace;
            let mut node = self[index].clone();
            let ghost copy = node;
            let outcome = node.run(value, context);
            proof {
                assert(cloned(self@[index as int], copy));
                trace = earlier.push(Ran { outcome, context: *context });
            }
            match sequential_step(outcome, index + 1 == count) {
                SequentialStep::Continue(next) => {
                    value = next;
                },
                SequentialStep::Finish(result) => {
                    proof {
                        assert(chain_runs(self@, input, *old(context), trace));
                    }
                    return result;
                },
            }
            index += 1;
        }
        proof {
            assert(chain_runs(self@, input, *old(context), trace));
        }
        Ok(NodeOutput::Success(value))
    }
}

/// In every run of a pipeline, a node that soft-fails is the last node to
/// run, and the soft failure is the result of the pipeline.
pub proof fn lemma_chain_stops_at_soft_fail<T, E, C, N: Node<T, NodeOutput<T>, E, C> + Clone>(
    nodes: Seq<N>,
    input: T,
    before: C,
    trace: Seq<Ran<NodeOutput<T>, E, C>>,
    position: int,
)
    requires
        chain_runs(nodes, input, before, trace),
        0 <= position < trace.len(),
        trace[position].outcome == Ok::<NodeOutput<T>, E>(NodeOutput::SoftFail),
    ensures
        trace.len() == position + 1,
        chain_result(input, trace) == Ok::<NodeOutput<T>, E>(NodeOutput::SoftFail),
{
}

/// In every run of a pipeline, a node that fails is the last node to run,
/// and its error is the result of the pipeline.
pub proof fn lemma_chain_stops_at_error<T, E, C, N: Node<T, NodeOutput<T>, E, C> + Clone>(
    nodes: Seq<N>,
    input: T,
    before: C,
    trace: Seq<Ran<NodeOutput<T>, E, C>>,
    position: int,
)
    requires
        chain_runs(nodes, input, before, trace),
        0 <= position < trace.len(),
        trace[position].outcome is Err,
    ensures
        trace.len() == position + 1,
        chain_result(input, trace) == trace[position].outcome,
{
}

/// A pipeline ends with a value only when every one of its nodes ran and
/// produced a value.
pub proof fn lemma_chain_value_needs_every_node<T, E, C, N: Node<T, NodeOutput<T>, E, C> + Clone>(
    nodes: Seq<N>,
    input: T,
    before: C,
    trace: Seq<Ran<NodeOutput<T>, E, C>>,
)
    requires
        chain_runs(nodes, input, before, trace),
        chain_result(input, trace) is Ok,
        chain_result(input, trace)->Ok_0 is Success,
    ensures
        trace.len() == nodes.len(),
        forall|i: int|
            0 <= i < trace.len() ==> (#[trigger] trace[i]).outcome is Ok && trace[i].outcome->Ok_0
                is Success,
{
}

} // verus!

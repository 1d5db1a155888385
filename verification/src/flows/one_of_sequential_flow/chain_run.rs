use crate::context::{Fork, Update};
use crate::flows::{node_yields, Attempt};
use crate::node::{Node, NodeOutput};
use vstd::prelude::*;

verus! {

/// What the fallback chain does once an attempt has come back.
pub enum OneOfStep<O, E> {
    /// The attempt had nothing to offer: drop its fork and try the next node.
    TryNext,
    /// The attempt produced this value: absorb its fork and stop.
    Absorb(O),
    /// The attempt failed with this error: drop its fork and stop.
    Abort(E),
}

/// Decides how the fallback chain goes on after an attempt came back with
/// `outcome`.
pub fn one_of_step<O, E>(outcome: Result<NodeOutput<O>, E>) -> (step: OneOfStep<O, E>)
    ensures
        step == (match outcome {
            Ok(NodeOutput::Success(value)) => OneOfStep::Absorb(value),
            Ok(NodeOutput::SoftFail) => OneOfStep::TryNext,
            Err(error) => OneOfStep::Abort(error),
        }),
{
    match outcome {
        Ok(NodeOutput::Success(value)) => OneOfStep::Absorb(value),
        Ok(NodeOutput::SoftFail) => OneOfStep::TryNext,
        Err(error) => OneOfStep::Abort(error),
    }
}

/// Whether `attempt` records `node` being tried on a copy of `input` and on
/// a fork of the context `before`.
pub open spec fn attempt_yields<T: Clone, O, E, C: Fork, N: Node<T, NodeOutput<O>, E, C> + Clone>(
    node: N,
    input: T,
    before: C,
    attempt: Attempt<O, E, C>,
) -> bool {
    &&& before.forks_into(attempt.forked)
    &&& exists|fed: T| #[trigger]
        cloned(input, fed) && node_yields(
            node,
            fed,
            attempt.forked,
            attempt.outcome,
            attempt.context,
        )
}

/// Whether `trace` records a complete run of the fallback chain `nodes` on
/// `input` in the context `before`, one entry for each node that was tried,
/// in order.
///
/// The nodes are tried in order from the first, each on its own fork of the
/// context as it was when the flow started. Every attempt but the last
/// soft-failed, and the run is over either when the last node has been tried
/// or when an attempt produced a value or failed.
pub open spec fn attempts_run<T: Clone, O, E, C: Fork, N: Node<T, NodeOutput<O>, E, C> + Clone>(
    nodes: Seq<N>,
    input: T,
    before: C,
    trace: Seq<Attempt<O, E, C>>,
) -> bool {
    &&& trace.len() <= nodes.len()
    &&& forall|i: int|
        0 <= i < trace.len() ==> attempt_yields(nodes[i], input, before, #[trigger] trace[i])
    &&& forall|i: int|
        0 <= i < trace.len() - 1 ==> (#[trigger] trace[i]).outcome == Ok::<NodeOutput<O>, E>(
            NodeOutput::SoftFail,
        )
    &&& trace.len() < nodes.len() ==> trace.len() > 0 && trace.last().outcome != Ok::<
        NodeOutput<O>,
        E,
    >(NodeOutput::SoftFail)
}

/// The result of a run of the fallback chain recorded as `trace`: what the
/// last attempt came back with, or a soft failure where no node was tried.
pub open spec fn attempts_result<O, E, C>(trace: Seq<Attempt<O, E, C>>) -> Result<
    NodeOutput<O>,
    E,
> {
    if trace.len() == 0 {
        Ok(NodeOutput::SoftFail)
    } else {
        trace.last().outcome
    }
}

/// Whether `after` is the flow's context once the run recorded as `trace` is
/// over: the context has absorbed the fork of the attempt that produced a
/// value, if there is one, and is untouched otherwise.
pub open spec fn attempts_context<O, E, C: Update>(
    before: C,
    trace: Seq<Attempt<O, E, C>>,
    after: C,
) -> bool {
    if trace.len() > 0 && trace.last().outcome is Ok && trace.last().outcome->Ok_0 is Success {
        before.updates_into(trace.last().context, after)
    } else {
        after == before
    }
}

/// Whether running the fallback chain `nodes` on `input` in the context
/// `before` may end with `result` and leave the context as `after`.
pub open spec fn attempts_yield<
    T: Clone,
    O,
    E,
    C: Fork + Update,
    N: Node<T, NodeOutput<O>, E, C> + Clone,
>(nodes: Seq<N>, input: T, before: C, result: Result<NodeOutput<O>, E>, after: C) -> bool {
    exists|trace: Seq<Attempt<O, E, C>>| #[trigger]
        attempts_run(nodes, input, before, trace) && result == attempts_result(trace)
            && attempts_context(before, trace, after)
}

/// A fallback chain as a runnable chain of nodes.
pub trait ChainRunOneOfSequential<Input, Output, Context> {
    /// Whether running the chain on `input` in the context `before` may come
    /// back with `output` and leave the context as `after`.
    spec fn chain_run_yields(
        &self,
        input: Input,
        before: Context,
        output: Output,
        after: Context,
    ) -> bool;

    /// Runs the chain.
    fn run(&self, input: Input, context: &mut Context) -> (output: Output)
        ensures
            self.chain_run_yields(input, *old(context), output, *final(context)),
    ;
}

impl<
    T: Clone,
    O,
    E,
    C: Fork + Update,
    N: Node<T, NodeOutput<O>, E, C> + Clone,
> ChainRunOneOfSequential<T, Result<NodeOutput<O>, E>, C> for Vec<N> {
    open spec fn chain_run_yields(
        &self,
        input: T,
        before: C,
        output: Result<NodeOutput<O>, E>,
        after: C,
    ) -> bool {
        attempts_yield(self@, input, before, output, after)
    }

    fn run(&self, input: T, context: &mut C) -> (output: Result<NodeOutput<O>, E>) {
        let count = self.len();
        let mut index: usize = 0;
        let ghost mut trace: Seq<Attempt<O, E, C>> = Seq::empty();
        while index < count
            invariant
                count == self@.len(),
                index <= count,
                trace.len() == index,
                *context == *old(context),
                forall|i: int|
                    0 <= i < trace.len() ==> attempt_yields(
                        self@[i],
                        input,
                        *old(context),
                        #[trigger] trace[i],
                    ),
                forall|i: int|
                    0 <= i < trace.len() ==> (#[trigger] trace[i]).outcome == Ok::<
                        NodeOutput<O>,
                        E,
                    >(NodeOutput::SoftFail),
            decreases count - index,
        {
            let ghost earlier = trace;
            let mut forked = context.fork();
            let ghost started = forked;
            let fed = input.clone();
            let mut node = self[index].clone();
            let ghost copy = node;
            let outcome = node.run(fed, &mut forked);
            proof {
                assert(cloned(self@[index as int], copy));
                assert(cloned(input, fed));
                let attempt = Attempt { forked: started, outcome, context: forked };
                trace = earlier.push(attempt);
            }
            match one_of_step(outcome) {
                OneOfStep::TryNext => {},
                OneOfStep::Absorb(value) => {
                    context.update_from(forked);
                    proof {
                        assert(attempts_run(self@, input, *old(context), trace));
                    }
                    return Ok(NodeOutput::Success(value));
                },
                OneOfStep::Abort(error) => {
                    proof {
                        assert(attempts_run(self@, input, *old(context), trace));
                    }
                    return Err(error);
                },
            }
            index += 1;
        }
        proof {
            assert(attempts_run(self@, input, *old(context), trace));
        }
        Ok(NodeOutput::SoftFail)
    }
}

/// In every run of a fallback chain, the flow's context absorbs at most one
/// fork, that of the attempt that produced the flow's value. Where the flow
/// soft-fails or fails, its context is exactly what it was before: nothing
/// that a losing attempt did to its fork can be seen afterwards.
pub proof fn lemma_only_the_winner_is_absorbed<
    T: Clone,
    O,
    E,
    C: Fork + Update,
    N: Node<T, NodeOutput<O>, E, C> + Clone,
>(nodes: Seq<N>, input: T, before: C, trace: Seq<Attempt<O, E, C>>, after: C)
    requires
        attempts_run(nodes, input, before, trace),
        attempts_context(before, trace, after),
    ensures
        match attempts_result(trace) {
            Ok(NodeOutput::Success(value)) => {
                &&& trace.len() > 0
                &&& trace.last().outcome == Ok::<NodeOutput<O>, E>(NodeOutput::Success(value))
                &&& before.updates_into(trace.last().context, after)
                &&& forall|i: int|
                    0 <= i < trace.len() - 1 ==> (#[trigger] trace[i]).outcome == Ok::<
                        NodeOutput<O>,
                        E,
                    >(NodeOutput::SoftFail)
            },
            _ => after == before,
        },
{
}

/// A fallback chain soft-fails only when every one of its nodes was tried
/// and soft-failed.
pub proof fn lemma_soft_fail_needs_every_attempt<
    T: Clone,
    O,
    E,
    C: Fork + Update,
    N: Node<T, NodeOutput<O>, E, C> + Clone,
>(nodes: Seq<N>, input: T, before: C, trace: Seq<Attempt<O, E, C>>)
    requires
        attempts_run(nodes, input, before, trace),
        attempts_result(trace) == Ok::<NodeOutput<O>, E>(NodeOutput::SoftFail),
    ensures
        trace.len() == nodes.len(),
        forall|i: int|
            0 <= i < trace.len() ==> (#[trigger] trace[i]).outcome == Ok::<NodeOutput<O>, E>(
                NodeOutput::SoftFail,
            ),
{
}

} // verus!

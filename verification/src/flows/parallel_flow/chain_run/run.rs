use super::poll::{
    branch_contexts, branch_outputs, first_error, lemma_lowest_error_is_reported, JoinScheduler,
};
use crate::context::{Fork, Join};
use crate::flows::one_of_parallel_flow::{
    branch_spawned, branch_yields, Branch, BranchOutput, ChainSpawn,
};
use crate::flows::{node_yields, Attempt};
use crate::node::{Node, NodeOutput};
use vstd::prelude::*;

verus! {

/// What a branch that ran as recorded in `ran` hands to the scheduler: the
/// node's output together with the fork it worked on, or the node's error.
pub open spec fn branch_result<O, E, C>(ran: Attempt<O, E, C>) -> BranchOutput<O, E, C> {
    match ran.outcome {
        Ok(output) => Ok((output, ran.context)),
        Err(error) => Err(error),
    }
}

/// What the branches of a fan-out recorded as `trace` hand to the
/// scheduler, in branch order.
pub open spec fn fan_out_results<O, E, C>(trace: Seq<Attempt<O, E, C>>) -> Seq<
    BranchOutput<O, E, C>,
> {
    Seq::new(trace.len(), |i: int| branch_result(trace[i]))
}

/// Whether `trace` records a fan-out over the branches of `nodes`: every
/// branch ran to its end, exactly once, whatever became of the others.
/// `base` is the fork of the flow's context that the branches were fanned
/// out on.
pub open spec fn fan_out_runs<T: Clone, O, E, C: Fork, N: Node<T, NodeOutput<O>, E, C> + Clone>(
    nodes: Seq<N>,
    input: T,
    base: C,
    trace: Seq<Attempt<O, E, C>>,
) -> bool {
    &&& trace.len() == nodes.len()
    &&& forall|i: int|
        0 <= i < trace.len() ==> branch_yields(nodes[i], input, base, i, #[trigger] trace[i])
}

/// Whether fanning out over the branches of `nodes` on `input` in the
/// context `before` may end with `output` and leave the context as `after`.
///
/// Where a branch failed, the output is the error of the failed branch with
/// the lowest index, and the context is untouched. Otherwise the output
/// holds the outputs of all branches in branch order, and the context has
/// absorbed the forks of all branches, in branch order.
pub open spec fn fan_out_yields<
    T: Clone,
    O,
    E,
    C: Fork + Join,
    N: Node<T, NodeOutput<O>, E, C> + Clone,
>(nodes: Seq<N>, input: T, before: C, output: Result<Vec<NodeOutput<O>>, E>, after: C) -> bool {
    exists|base: C, trace: Seq<Attempt<O, E, C>>|
        before.forks_into(base) && #[trigger] fan_out_runs(nodes, input, base, trace) && (
        match first_error(fan_out_results(trace), 0) {
            Some(failed) => output == Err::<Vec<NodeOutput<O>>, E>(
                fan_out_results(trace)[failed]->Err_0,
            ) && after == before,
            None => {
                &&& output is Ok
                &&& output->Ok_0@ == branch_outputs(fan_out_results(trace))
                &&& before.joins_into(branch_contexts(fan_out_results(trace)), after)
            },
        })
}

/// A fan-out as a runnable chain of nodes.
pub trait ChainRunParallel<Input, Output, Context> {
    /// Whether running the chain on `input` in the context `before` may come
    /// back with `output` and leave the context as `after`.
    spec fn chain_run_yields(
        &self,
        input: Input,
        before: Context,
        output: Output,
        after: Context,
    ) -> bool;

    /// Runs the chain.
    fn run(&self, input: Input, context: &mut Context) -> (output: Output)
        ensures
            self.chain_run_yields(input, *old(context), output, *final(context)),
    ;
}

impl<
    T: Clone,
    O,
    E,
    C: Fork + Join,
    N: Node<T, NodeOutput<O>, E, C> + Clone,
> ChainRunParallel<T, Result<Vec<NodeOutput<O>>, E>, C> for Vec<N> {
    open spec fn chain_run_yields(
        &self,
        input: T,
        before: C,
        output: Result<Vec<NodeOutput<O>>, E>,
        after: C,
    ) -> bool {
        fan_out_yields(self@, input, before, output, after)
    }

    /// Fans out with every branch running to its end as soon as the
    /// scheduler asks for it to be advanced.
    fn run(&self, input: T, context: &mut C) -> (output: Result<Vec<NodeOutput<O>>, E>) {
        let base = context.fork();
        let ghost fanned = base;
        let mut branches = self.spawn(input, base);
        let ghost spawned = branches@;
        let count = branches.len();
        let mut scheduler: JoinScheduler<O, E, C> = JoinScheduler::new(count);
        let ghost mut trace: Seq<Attempt<O, E, C>> = Seq::empty();
        let mut index: usize = 0;
        while index < count
            invariant
                self.spawned(input, fanned, spawned),
                branches@.len() == spawned.len(),
                count == spawned.len(),
                index <= count,
                scheduler.slots().len() == count,
                trace.len() == index,
                forall|i: int| index <= i < count ==> branches@[i] == spawned[i],
                forall|i: int| index <= i < count ==> scheduler.slots()[i] is None,
                forall|i: int|
                    0 <= i < index ==> scheduler.slots()[i] == Some(branch_result(trace[i])),
                forall|i: int|
                    0 <= i < trace.len() ==> branch_yields(
                        self@[i],
                        input,
                        fanned,
                        i,
                        #[trigger] trace[i],
                    ),
            decreases count - index,
        {
            let ghost earlier = trace;
            if scheduler.needs_poll(index) {
                let mut taken: Option<Branch<N, T, C>> = None;
                core::mem::swap(&mut branches[index], &mut taken);
                assert(taken == spawned[index as int]);
                if let Some(branch) = taken {
                    let Branch { node, input: fed, context: forked } = branch;
                    let mut node = node;
                    let mut forked = forked;
                    let ghost started = forked;
                    let outcome = node.run(fed, &mut forked);
                    proof {
                        let ran = Attempt { forked: started, outcome, context: forked };
                        trace = earlier.push(ran);
                    }
                    let finished = match outcome {
                        Ok(output) => Ok((output, forked)),
                        Err(error) => Err(error),
                    };
                    scheduler.record(index, Some(finished));
                }
            }
            index += 1;
        }
        proof {
            assert(fan_out_runs(self@, input, fanned, trace));
            assert(scheduler.results() =~= fan_out_results(trace));
        }
        match scheduler.finish() {
            Ok((outputs, contexts)) => {
                context.join(contexts);
                Ok(outputs)
            },
            Err(error) => Err(error),
        }
    }
}

/// In every fan-out, each branch has run, and where branches failed, the
/// error that is reported is that of the failed branch with the lowest
/// index, whatever the branches after it came to.
pub proof fn lemma_fan_out_reports_lowest_error<
    T: Clone,
    O,
    E,
    C: Fork,
    N: Node<T, NodeOutput<O>, E, C> + Clone,
>(nodes: Seq<N>, input: T, base: C, trace: Seq<Attempt<O, E, C>>, failed: int)
    requires
        fan_out_runs(nodes, input, base, trace),
        0 <= failed < trace.len(),
        trace[failed].outcome is Err,
        forall|i: int| 0 <= i < failed ==> (#[trigger] trace[i]).outcome is Ok,
    ensures
        trace.len() == nodes.len(),
        first_error(fan_out_results(trace), 0) == Some(failed),
        fan_out_results(trace)[failed]->Err_0 == trace[failed].outcome->Err_0,
{
    let results = fan_out_results(trace);
    lemma_lowest_error_is_reported(results, 0, failed);
}

} // verus!

use super::poll::{classify, RaceMove, RaceScheduler};
use super::spawn::{branch_spawned, Branch, ChainSpawn};
use crate::context::{Fork, Update};
use crate::flows::one_of_sequential_flow::{attempts_context, attempts_result};
use crate::flows::{node_yields, Attempt};
use crate::node::{Node, NodeOutput};
use vstd::prelude::*;

verus! {

/// Whether `ran` records the branch at `position` of a race having run: it
/// started on the context `base` itself if it is the first branch and on a
/// fork of `base` otherwise, and a copy of `node` was fed a copy of `input`.
pub open spec fn branch_yields<T: Clone, O, E, C: Fork, N: Node<T, NodeOutput<O>, E, C> + Clone>(
    node: N,
    input: T,
    base: C,
    position: int,
    ran: Attempt<O, E, C>,
) -> bool {
    &&& if position == 0 {
        ran.forked == base
    } else {
        base.forks_into(ran.forked)
    }
    &&& exists|fed: T| #[trigger]
        cloned(input, fed) && node_yields(node, fed, ran.forked, ran.outcome, ran.context)
}

/// Whether `trace` records a race between the branches of `nodes` in which
/// every branch, once advanced, runs to its end. `base` is the fork of the
/// flow's context that the branches were fanned out on.
///
/// Branches are advanced by rising index. Every branch but the last to run
/// soft-failed; the race is over when a branch produced a value or failed,
/// and the branches after it never ran, or when the last branch has run.
pub open spec fn race_runs<T: Clone, O, E, C: Fork, N: Node<T, NodeOutput<O>, E, C> + Clone>(
    nodes: Seq<N>,
    input: T,
    base: C,
    trace: Seq<Attempt<O, E, C>>,
) -> bool {
    &&& trace.len() <= nodes.len()
    &&& forall|i: int|
        0 <= i < trace.len() ==> branch_yields(nodes[i], input, base, i, #[trigger] trace[i])
    &&& forall|i: int|
        0 <= i < trace.len() - 1 ==> (#[trigger] trace[i]).outcome == Ok::<NodeOutput<O>, E>(
            NodeOutput::SoftFail,
        )
    &&& trace.len() < nodes.len() ==> trace.len() > 0 && trace.last().outcome != Ok::<
        NodeOutput<O>,
        E,
    >(NodeOutput::SoftFail)
}

/// Whether racing the branches of `nodes` on `input` in the context `before`
/// may end with `result` and leave the context as `after`: the result is
/// what the last branch to run came back with, and the context has absorbed
/// the fork of the branch that produced a value, if there is one, and is
/// untouched otherwise.
pub open spec fn race_yields<
    T: Clone,
    O,
    E,
    C: Fork + Update,
    N: Node<T, NodeOutput<O>, E, C> + Clone,
>(nodes: Seq<N>, input: T, before: C, result: Result<NodeOutput<O>, E>, after: C) -> bool {
    exists|base: C, trace: Seq<Attempt<O, E, C>>|
        before.forks_into(base) && #[trigger] race_runs(nodes, input, base, trace) && result
            == attempts_result(trace) && attempts_context(before, trace, after)
}

/// A race as a runnable chain of nodes.
pub trait ChainRunOneOfParallel<Input, Output, Context> {
    /// Whether running the chain on `input` in the context `before` may come
    /// back with `output` and leave the context as `after`.
    spec fn chain_run_yields(
        &self,
        input: Input,
        before: Context,
        output: Output,
        after: Context,
    ) -> bool;

    /// Runs the chain.
    fn run(&self, input: Input, context: &mut Context) -> (output: Output)
        ensures
            self.chain_run_yields(input, *old(context), output, *final(context)),
    ;
}

impl<
    T: Clone,
    O,
    E,
    C: Fork + Update,
    N: Node<T, NodeOutput<O>, E, C> + Clone,
> ChainRunOneOfParallel<T, Result<NodeOutput<O>, E>, C> for Vec<N> {
    open spec fn chain_run_yields(
        &self,
        input: T,
        before: C,
        output: Result<NodeOutput<O>, E>,
        after: C,
    ) -> bool {
        race_yields(self@, input, before, output, after)
    }

    /// Races the branches with every branch running to its end as soon as
    /// the scheduler asks for it to be advanced.
    fn run(&self, input: T, context: &mut C) -> (output: Result<NodeOutput<O>, E>) {
        let base = context.fork();
        let ghost fanned = base;
        let mut branches = self.spawn(input, base);
        let ghost spawned = branches@;
        let mut scheduler = RaceScheduler::new(branches.len());
        let ghost mut trace: Seq<Attempt<O, E, C>> = Seq::empty();
        loop
            invariant
                old(context).forks_into(fanned),
                *context == *old(context),
                self.spawned(input, fanned, spawned),
                branches@.len() == spawned.len(),
                scheduler.wf(),
                scheduler.gone().len() == spawned.len(),
                !scheduler.pending(),
                scheduler.cursor() == trace.len(),
                forall|i: int| 0 <= i < scheduler.cursor() ==> scheduler.gone()[i],
                forall|i: int|
                    scheduler.cursor() <= i < spawned.len() ==> !scheduler.gone()[i]
                        && branches@[i] == spawned[i],
                forall|i: int|
                    0 <= i < trace.len() ==> branch_yields(
                        self@[i],
                        input,
                        fanned,
                        i,
                        #[trigger] trace[i],
                    ),
                forall|i: int|
                    0 <= i < trace.len() ==> (#[trigger] trace[i]).outcome == Ok::<
                        NodeOutput<O>,
                        E,
                    >(NodeOutput::SoftFail),
            decreases spawned.len() - scheduler.cursor(),
        {
            let ghost earlier = trace;
            match scheduler.next_move() {
                RaceMove::Poll(index) => {
                    let mut taken: Option<Branch<N, T, C>> = None;
                    core::mem::swap(&mut branches[index], &mut taken);
                    let polled = match taken {
                        Some(branch) => {
                            let Branch { node, input: fed, context: forked } = branch;
                            let mut node = node;
                            let mut forked = forked;
                            let ghost started = forked;
                            let outcome = node.run(fed, &mut forked);
                            proof {
                                let ran = Attempt { forked: started, outcome, context: forked };
                                trace = earlier.push(ran);
                            }
                            Some(
                                match outcome {
                                    Ok(output) => Ok((output, forked)),
                                    Err(error) => Err(error),
                                },
                            )
                        },
                        None => None,
                    };
                    match scheduler.report(index, classify(polled)) {
                        Some(Ok((NodeOutput::Success(value), winner))) => {
                            context.update_from(winner);
                            proof {
                                assert(race_runs(self@, input, fanned, trace));
                            }
                            return Ok(NodeOutput::Success(value));
                        },
                        Some(Ok((NodeOutput::SoftFail, _))) => {
                            // a soft failure never settles a race
                            return Ok(NodeOutput::SoftFail);
                        },
                        Some(Err(error)) => {
                            proof {
                                assert(race_runs(self@, input, fanned, trace));
                            }
                            return Err(error);
                        },
                        None => {},
                    }
                },
                RaceMove::Pending => {
                    // a branch that is advanced here runs to its end, so no
                    // pass ends with a branch still running
                    return Ok(NodeOutput::SoftFail);
                },
                RaceMove::SoftFail => {
                    proof {
                        assert(race_runs(self@, input, fanned, trace));
                    }
                    return Ok(NodeOutput::SoftFail);
                },
            }
        }
    }
}

} // verus!

use crate::context::Fork;
use vstd::prelude::*;

verus! {

/// A branch that is ready to run: its own copy of a node, its own copy of
/// the input, and the context that it will work on.
pub struct Branch<N, T, C> {
    /// The copy of the node that the branch runs.
    pub node: N,
    /// The copy of the input that the node is fed.
    pub input: T,
    /// The context that the node works on.
    pub context: C,
}

/// Whether `branch` is what fanning out makes of the node at `position`:
/// the branch holds a copy of the node and a copy of the input; the first
/// branch works on the context `base` itself, every other branch on a fork
/// of it.
pub open spec fn branch_spawned<N: Clone, T: Clone, C: Fork>(
    node: N,
    input: T,
    base: C,
    position: int,
    branch: Branch<N, T, C>,
) -> bool {
    &&& cloned(node, branch.node)
    &&& cloned(input, branch.input)
    &&& if position == 0 {
        branch.context == base
    } else {
        base.forks_into(branch.context)
    }
}

/// A chain of nodes that can be fanned out into branches.
pub trait ChainSpawn<Input, Context, N> {
    /// Whether `branches` is what fanning the chain out for `input` on the
    /// context `base` may give.
    spec fn spawned(
        &self,
        input: Input,
        base: Context,
        branches: Seq<Option<Branch<N, Input, Context>>>,
    ) -> bool;

    /// Makes one branch for each node of the chain, in the order of the
    /// nodes. No branch has started to run.
    fn spawn(&self, input: Input, context: Context) -> (branches: Vec<
        Option<Branch<N, Input, Context>>,
    >)
        ensures
            self.spawned(input, context, branches@),
    ;
}

impl<N: Clone, T: Clone, C: Fork> ChainSpawn<T, C, N> for Vec<N> {
    open spec fn spawned(&self, input: T, base: C, branches: Seq<Option<Branch<N, T, C>>>) -> bool {
        &&& branches.len() == self@.len()
        &&& forall|i: int|
            0 <= i < branches.len() ==> (#[trigger] branches[i]) is Some && branch_spawned(
                self@[i],
                input,
                base,
                i,
                branches[i]->0,
            )
    }

    fn spawn(&self, input: T, context: C) -> (branches: Vec<Option<Branch<N, T, C>>>) {
        let count = self.len();
        let mut branches: Vec<Option<Branch<N, T, C>>> = Vec::new();
        if count == 0 {
            return branches;
        }
        let mut index: usize = 1;
        while index < count
            invariant
                count == self@.len(),
                1 <= index <= count,
                branches@.len() == index - 1,
                forall|i: int|
                    0 <= i < branches@.len() ==> (#[trigger] branches@[i]) is Some
                        && branch_spawned(self@[i + 1], input, context, i + 1, branches@[i]->0),
            decreases count - index,
        {
            let branch = Branch {
                node: self[index].clone(),
                input: input.clone(),
                context: context.fork(),
            };
            branches.push(Some(branch));
            index += 1;
        }
        let first = Branch { node: self[0].clone(), input, context };
        branches.insert(0, Some(first));
        branches
    }
}

} // verus!

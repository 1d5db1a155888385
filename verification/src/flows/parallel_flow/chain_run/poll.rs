use crate::flows::one_of_parallel_flow::BranchOutput;
use crate::node::NodeOutput;
use vstd::prelude::*;

verus! {

/// The index of the first branch at or after `from` that ended in an error,
/// if there is one.
pub open spec fn first_error<O, E, C>(results: Seq<BranchOutput<O, E, C>>, from: int) -> Option<int>
    decreases results.len() - from,
{
    if from < 0 || from >= results.len() {
        None
    } else if results[from] is Err {
        Some(from)
    } else {
        first_error(results, from + 1)
    }
}

/// The outputs of branches that all ended without an error, in branch order.
pub open spec fn branch_outputs<O, E, C>(results: Seq<BranchOutput<O, E, C>>) -> Seq<NodeOutput<O>> {
    Seq::new(results.len(), |i: int| results[i]->Ok_0.0)
}

/// The contexts of branches that all ended without an error, in branch
/// order.
pub open spec fn branch_contexts<O, E, C>(results: Seq<BranchOutput<O, E, C>>) -> Seq<C> {
    Seq::new(results.len(), |i: int| results[i]->Ok_0.1)
}

/// What a scheduling pass makes of the branches: a branch that has already
/// finished keeps the value it finished with and is not polled again; every
/// other branch is polled, and what it answers is kept.
pub open spec fn join_pass<R>(slots: Seq<Option<R>>, answers: Seq<Option<R>>) -> Seq<Option<R>> {
    Seq::new(
        slots.len(),
        |i: int|
            if slots[i] is Some {
                slots[i]
            } else {
                answers[i]
            },
    )
}

/// Whether every branch has finished.
pub open spec fn all_finished<R>(slots: Seq<Option<R>>) -> bool {
    forall|i: int| 0 <= i < slots.len() ==> (#[trigger] slots[i]) is Some
}

/// The scheduler of a fan-out in which every branch runs to its end: it
/// keeps what each finished branch came back with, says which branches
/// still have to be advanced, and gives the verdict once all are done.
pub struct JoinScheduler<O, E, C> {
    slots: Vec<Option<BranchOutput<O, E, C>>>,
}

impl<O, E, C> JoinScheduler<O, E, C> {
    /// For each branch, what it finished with, if it has finished.
    pub closed spec fn slots(&self) -> Seq<Option<BranchOutput<O, E, C>>> {
        self.slots@
    }

    /// What the branches finished with, for a scheduler whose branches have
    /// all finished.
    pub open spec fn results(&self) -> Seq<BranchOutput<O, E, C>> {
        Seq::new(self.slots().len(), |i: int| self.slots()[i]->0)
    }

    /// Starts a fan-out of `count` branches, none of them finished.
    pub fn new(count: usize) -> (scheduler: Self)
        ensures
            scheduler.slots() == Seq::new(count as nat, |i: int| None::<BranchOutput<O, E, C>>),
    {
        let mut slots: Vec<Option<BranchOutput<O, E, C>>> = Vec::new();
        let mut i: usize = 0;
        while i < count
            invariant
                i <= count,
                slots@ == Seq::new(i as nat, |j: int| None::<BranchOutput<O, E, C>>),
            decreases count - i,
        {
            slots.push(None);
            i += 1;
        }
        JoinScheduler { slots }
    }

    /// The number of branches.
    pub fn len(&self) -> (count: usize)
        ensures
            count == self.slots().len(),
    {
        self.slots.len()
    }

    /// Whether the branch `index` still has to be advanced. A branch that
    /// has finished must not be advanced again.
    pub fn needs_poll(&self, index: usize) -> (needed: bool)
        requires
            index < self.slots().len(),
        ensures
            needed == (self.slots()[index as int] is None),
    {
        self.slots[index].is_none()
    }

    /// Takes note of what advancing the unfinished branch `index` gave:
    /// its result if it has finished now, nothing if it is still running.
    pub fn record(&mut self, index: usize, polled: Option<BranchOutput<O, E, C>>)
        requires
            index < old(self).slots().len(),
            old(self).slots()[index as int] is None,
        ensures
            final(self).slots() == old(self).slots().update(index as int, polled),
    {
        self.slots[index] = polled;
    }

    /// Whether every branch has finished, so that the verdict can be given.
    pub fn is_ready(&self) -> (ready: bool)
        ensures
            ready == all_finished(self.slots()),
    {
        let mut index: usize = 0;
        while index < self.slots.len()
            invariant
                index <= self.slots.len(),
                forall|i: int| 0 <= i < index ==> (#[trigger] self.slots@[i]) is Some,
            decreases self.slots.len() - index,
        {
            if self.slots[index].is_none() {
                return false;
            }
            index += 1;
        }
        true
    }

    /// Runs one whole scheduling pass, given in `answers` what each branch
    /// gives if it is advanced, and says whether every branch has finished.
    /// The answers of branches that had finished before are ignored.
    pub fn poll_pass(&mut self, answers: Vec<Option<BranchOutput<O, E, C>>>) -> (ready: bool)
        requires
            answers@.len() == old(self).slots().len(),
        ensures
            final(self).slots() == join_pass(old(self).slots(), answers@),
            ready == all_finished(final(self).slots()),
    {
        let mut rest = answers;
        let count = self.slots.len();
        let mut index: usize = 0;
        while index < count
            invariant
                count == self.slots@.len(),
                count == old(self).slots@.len(),
                index <= count,
                rest@.len() == count,
                answers@.len() == count,
                forall|i: int| index <= i < count ==> rest@[i] == answers@[i],
                forall|i: int| index <= i < count ==> self.slots@[i] == old(self).slots@[i],
                forall|i: int|
                    0 <= i < index ==> self.slots@[i] == join_pass(old(self).slots@, answers@)[i],
            decreases count - index,
        {
            if self.needs_poll(index) {
                let mut polled: Option<BranchOutput<O, E, C>> = None;
                core::mem::swap(&mut rest[index], &mut polled);
                self.record(index, polled);
            }
            index += 1;
        }
        self.is_ready()
    }

    /// Gives the verdict of a fan-out whose branches have all finished: the
    /// error of the lowest-indexed branch that failed, if any branch did,
    /// and otherwise the outputs and the contexts of all branches, in
    /// branch order.
    pub fn finish(self) -> (verdict: Result<(Vec<NodeOutput<O>>, Vec<C>), E>)
        requires
            all_finished(self.slots()),
        ensures
            match first_error(self.results(), 0) {
                Some(failed) => verdict == Err::<(Vec<NodeOutput<O>>, Vec<C>), E>(
                    self.results()[failed]->Err_0,
                ),
                None => {
                    &&& verdict is Ok
                    &&& verdict->Ok_0.0@ == branch_outputs(self.results())
                    &&& verdict->Ok_0.1@ == branch_contexts(self.results())
                },
            },
    {
        let ghost results = self.results();
        let mut slots = self.slots;
        let count = slots.len();
        let mut outputs: Vec<NodeOutput<O>> = Vec::new();
        let mut contexts: Vec<C> = Vec::new();
        let mut index: usize = 0;
        while index < count
            invariant
                count == slots@.len(),
                count == results.len(),
                results == self.results(),
                index <= count,
                forall|i: int| index <= i < count ==> slots@[i] == Some(results[i]),
                first_error(results, index as int) == first_error(results, 0),
                outputs@.len() == index,
                contexts@.len() == index,
                forall|i: int| 0 <= i < index ==> (#[trigger] results[i]) is Ok,
                forall|i: int| 0 <= i < index ==> outputs@[i] == results[i]->Ok_0.0,
                forall|i: int| 0 <= i < index ==> contexts@[i] == results[i]->Ok_0.1,
            decreases count - index,
        {
            let mut taken: Option<BranchOutput<O, E, C>> = None;
            core::mem::swap(&mut slots[index], &mut taken);
            match taken {
                Some(Ok((output, context))) => {
                    outputs.push(output);
                    contexts.push(context);
                },
                Some(Err(error)) => {
                    return Err(error);
                },
                None => {},
            }
            index += 1;
        }
        Ok((outputs, contexts))
    }
}

/// Where branches have failed, the verdict names the failed branch with the
/// lowest index: every branch before it ended without an error.
pub proof fn lemma_lowest_error_is_reported<O, E, C>(
    results: Seq<BranchOutput<O, E, C>>,
    from: int,
    failed: int,
)
    requires
        0 <= from <= failed < results.len(),
        results[failed] is Err,
        forall|i: int| from <= i < failed ==> (#[trigger] results[i]) is Ok,
    ensures
        first_error(results, from) == Some(failed),
    decreases failed - from,
{
    if from < failed {
        lemma_lowest_error_is_reported(results, from + 1, failed);
    }
}

/// The verdict is an error exactly if some branch failed.
pub proof fn lemma_no_error_means_all_ended_well<O, E, C>(
    results: Seq<BranchOutput<O, E, C>>,
    from: int,
)
    requires
        0 <= from <= results.len(),
    ensures
        match first_error(results, from) {
            Some(failed) => from <= failed < results.len() && results[failed] is Err && forall|
                i: int,
            | from <= i < failed ==> (#[trigger] results[i]) is Ok,
            None => forall|i: int| from <= i < results.len() ==> (#[trigger] results[i]) is Ok,
        },
    decreases results.len() - from,
{
    if from < results.len() && results[from] is Ok {
        lemma_no_error_means_all_ended_well(results, from + 1);
    }
}

/// Once a branch has finished, no later pass changes what it finished with,
/// whatever the other branches do: each branch finishes exactly once.
pub proof fn lemma_finished_branch_is_kept<R>(
    slots: Seq<Option<R>>,
    answers: Seq<Option<R>>,
    index: int,
)
    requires
        0 <= index < slots.len(),
        slots[index] is Some,
    ensures
        join_pass(slots, answers)[index] == slots[index],
{
}

/// The fan-out is over only when every branch has finished: a pass ends
/// with all branches finished exactly if each branch had finished before or
/// finished in this pass.
pub proof fn lemma_pass_is_ready_when_all_finished<R>(slots: Seq<Option<R>>, answers: Seq<Option<R>>)
    requires
        answers.len() == slots.len(),
    ensures
        all_finished(join_pass(slots, answers)) <==> forall|i: int|
            0 <= i < slots.len() ==> (#[trigger] slots[i]) is Some || answers[i] is Some,
{
    let after = join_pass(slots, answers);
    if all_finished(after) {
        assert forall|i: int| 0 <= i < slots.len() implies (#[trigger] slots[i]) is Some
            || answers[i] is Some by {
            assert(after[i] is Some);
        }
    }
}

} // verus!

use crate::future_utils::SoftFailPoll;
use crate::node::NodeOutput;
use vstd::prelude::*;

verus! {

/// What one branch of a race hands back when it finishes: the node's
/// output together with the fork it worked on, or the node's error.
pub type BranchOutput<O, E, C> = Result<(NodeOutput<O>, C), E>;

/// Sorts what polling one branch gave into the three answers of a race:
/// a branch that is not done is pending, one that produced a value or failed
/// is ready with just that, and one that soft-failed is out of the race.
pub fn classify<O, E, C>(polled: Option<BranchOutput<O, E, C>>) -> (answer: SoftFailPoll<
    BranchOutput<O, E, C>,
>)
    ensures
        answer == (match polled {
            None => SoftFailPoll::Pending,
            Some(Ok((NodeOutput::SoftFail, _))) => SoftFailPoll::SoftFail,
            Some(output) => SoftFailPoll::Ready(output),
        }),
{
    match polled {
        None => SoftFailPoll::Pending,
        Some(Ok((NodeOutput::SoftFail, _))) => SoftFailPoll::SoftFail,
        Some(output) => SoftFailPoll::Ready(output),
    }
}

/// What the scheduler of a race wants done next.
#[derive(Debug, PartialEq, Eq)]
pub enum RaceMove {
    /// Advance the branch with this index and report what it answered.
    Poll(usize),
    /// This pass is over and nothing is settled: wait for the next
    /// scheduling opportunity and start another pass.
    Pending,
    /// Every branch has been seen to soft-fail: the race soft-fails.
    SoftFail,
}

/// The index of the first branch at or after `from` that is still in the
/// race, or the number of branches if there is none.
pub open spec fn next_live(gone: Seq<bool>, from: int) -> int
    decreases gone.len() - from,
{
    if from < 0 || from >= gone.len() {
        gone.len() as int
    } else if !gone[from] {
        from
    } else {
        next_live(gone, from + 1)
    }
}

/// What one scheduling pass over a race comes to. `gone` tells for each
/// branch whether it is already out of the race, and `answers` what each
/// branch answers if it is polled in this pass. Branches are looked at by
/// rising index starting at `from`; `pending` tells whether a branch looked
/// at earlier in the pass was still running.
///
/// The first branch in the race that is ready settles the pass at once, and
/// no branch after it is looked at. A branch that soft-fails leaves the
/// race. When all branches have been looked at, the pass is pending if one
/// of them is still running, and a soft failure if none is left in the race.
pub open spec fn race_pass<R>(
    gone: Seq<bool>,
    answers: Seq<SoftFailPoll<R>>,
    from: int,
    pending: bool,
) -> (Seq<bool>, SoftFailPoll<R>)
    decreases gone.len() - from,
{
    if from < 0 || from >= gone.len() {
        (
            gone,
            if pending {
                SoftFailPoll::Pending
            } else {
                SoftFailPoll::SoftFail
            },
        )
    } else if gone[from] {
        race_pass(gone, answers, from + 1, pending)
    } else {
        match answers[from] {
            SoftFailPoll::Ready(value) => (gone, SoftFailPoll::Ready(value)),
            SoftFailPoll::Pending => race_pass(gone, answers, from + 1, true),
            SoftFailPoll::SoftFail => race_pass(gone.update(from, true), answers, from + 1, pending),
        }
    }
}

/// Whether one of the first `count` branches is still in the race.
pub open spec fn some_live_before(gone: Seq<bool>, count: int) -> bool {
    exists|i: int| 0 <= i < count && !#[trigger] gone[i]
}

/// Taking a branch out of the race does not change whether a branch before
/// it is still in the race.
proof fn lemma_live_before_update(gone: Seq<bool>, index: int)
    requires
        0 <= index < gone.len(),
    ensures
        some_live_before(gone.update(index, true), index) <==> some_live_before(gone, index),
{
    let marked = gone.update(index, true);
    if some_live_before(gone, index) {
        let i = choose|i: int| 0 <= i < index && !#[trigger] gone[i];
        assert(0 <= i < index && !marked[i]);
    }
}

/// The scheduler of a race between branches: it decides which branch is
/// advanced next and when the race is settled, and remembers which branches
/// have soft-failed so that none of them is driven again.
pub struct RaceScheduler {
    gone: Vec<bool>,
    cursor: usize,
    pending: bool,
}

impl RaceScheduler {
    /// For each branch, whether it has been seen to soft-fail.
    pub closed spec fn gone(&self) -> Seq<bool> {
        self.gone@
    }

    /// How many branches the current pass has dealt with.
    pub closed spec fn cursor(&self) -> int {
        self.cursor as int
    }

    /// Whether a branch that the current pass has dealt with is still
    /// running.
    pub closed spec fn pending(&self) -> bool {
        self.pending
    }

    /// The scheduler is in order: the pass has not run past the last branch,
    /// and it took note of a running branch exactly if one of the branches
    /// it has dealt with is still in the race.
    pub open spec fn wf(&self) -> bool {
        &&& 0 <= self.cursor() <= self.gone().len()
        &&& self.pending() <==> some_live_before(self.gone(), self.cursor())
    }

    /// Starts a race between `count` branches, all of them running.
    pub fn new(count: usize) -> (scheduler: Self)
        ensures
            scheduler.wf(),
            scheduler.gone() == Seq::new(count as nat, |i: int| false),
            scheduler.cursor() == 0,
            !scheduler.pending(),
    {
        let mut gone: Vec<bool> = Vec::new();
        let mut i: usize = 0;
        while i < count
            invariant
                i <= count,
                gone@ == Seq::new(i as nat, |j: int| false),
            decreases count - i,
        {
            gone.push(false);
            i += 1;
        }
        RaceScheduler { gone, cursor: 0, pending: false }
    }

    /// The branch whose answer the scheduler waits for, if it waits for
    /// one: the branch at which the current pass stands, unless that branch
    /// is out of the race or the pass is past the last branch.
    pub fn awaits(&self) -> (branch: Option<usize>)
        requires
            self.wf(),
        ensures
            branch == if self.cursor() < self.gone().len() && !self.gone()[self.cursor()] {
                Some(self.cursor() as usize)
            } else {
                None
            },
    {
        if self.cursor < self.gone.len() && !self.gone[self.cursor] {
            Some(self.cursor)
        } else {
            None
        }
    }

    /// Says what is to be done next in the current pass. At the end of a
    /// pass that settles nothing, the scheduler is reset for the next pass.
    pub fn next_move(&mut self) -> (next: RaceMove)
        requires
            old(self).wf(),
        ensures
            final(self).wf(),
            final(self).gone() == old(self).gone(),
            match next {
                RaceMove::Poll(index) => {
                    &&& index == next_live(old(self).gone(), old(self).cursor())
                    &&& index < old(self).gone().len()
                    &&& !old(self).gone()[index as int]
                    &&& final(self).cursor() == index
                    &&& final(self).pending() == old(self).pending()
                },
                RaceMove::Pending => {
                    &&& next_live(old(self).gone(), old(self).cursor()) == old(self).gone().len()
                    &&& old(self).pending()
                    &&& final(self).cursor() == 0
                    &&& !final(self).pending()
                },
                RaceMove::SoftFail => {
                    &&& next_live(old(self).gone(), old(self).cursor()) == old(self).gone().len()
                    &&& !old(self).pending()
                    &&& forall|i: int| 0 <= i < old(self).gone().len() ==> old(self).gone()[i]
                    &&& final(self).cursor() == old(self).gone().len()
                    &&& !final(self).pending()
                },
            },
    {
        while self.cursor < self.gone.len() && self.gone[self.cursor]
            invariant
                self.wf(),
                self.gone@ == old(self).gone@,
                self.pending == old(self).pending,
                old(self).cursor <= self.cursor,
                next_live(self.gone@, self.cursor as int) == next_live(
                    old(self).gone@,
                    old(self).cursor as int,
                ),
                forall|i: int| old(self).cursor <= i < self.cursor ==> self.gone@[i],
            decreases self.gone.len() - self.cursor,
        {
            self.cursor += 1;
        }
        if self.cursor < self.gone.len() {
            RaceMove::Poll(self.cursor)
        } else if self.pending {
            self.cursor = 0;
            self.pending = false;
            RaceMove::Pending
        } else {
            RaceMove::SoftFail
        }
    }

    /// Takes note of what the branch `index`, which `next_move` asked for,
    /// answered. A ready branch settles the race, and its value is handed
    /// back; otherwise the pass moves on to the branches after it.
    pub fn report<R>(&mut self, index: usize, answer: SoftFailPoll<R>) -> (settled: Option<R>)
        requires
            old(self).wf(),
            index == old(self).cursor(),
            index < old(self).gone().len(),
            !old(self).gone()[index as int],
        ensures
            final(self).wf(),
            match answer {
                SoftFailPoll::Ready(value) => {
                    &&& settled == Some(value)
                    &&& final(self).gone() == old(self).gone()
                    &&& final(self).cursor() == old(self).cursor()
                    &&& final(self).pending() == old(self).pending()
                },
                SoftFailPoll::Pending => {
                    &&& settled is None
                    &&& final(self).gone() == old(self).gone()
                    &&& final(self).cursor() == index + 1
                    &&& final(self).pending()
                },
                SoftFailPoll::SoftFail => {
                    &&& settled is None
                    &&& final(self).gone() == old(self).gone().update(index as int, true)
                    &&& final(self).cursor() == index + 1
                    &&& final(self).pending() == old(self).pending()
                },
            },
    {
        assert(index < self.gone.len());
        match answer {
            SoftFailPoll::Ready(value) => Some(value),
            SoftFailPoll::Pending => {
                self.pending = true;
                self.cursor = index + 1;
                None
            },
            SoftFailPoll::SoftFail => {
                self.gone[index] = true;
                self.cursor = index + 1;
                proof {
                    lemma_live_before_update(old(self).gone@, index as int);
                }
                None
            },
        }
    }
}

/// A pass does not look at branches that are out of the race.
proof fn lemma_pass_skips_gone<R>(
    gone: Seq<bool>,
    answers: Seq<SoftFailPoll<R>>,
    from: int,
    pending: bool,
)
    requires
        0 <= from <= gone.len(),
    ensures
        race_pass(gone, answers, from, pending) == race_pass(
            gone,
            answers,
            next_live(gone, from),
            pending,
        ),
        from <= next_live(gone, from) <= gone.len(),
    decreases gone.len() - from,
{
    if from < gone.len() && gone[from] {
        lemma_pass_skips_gone(gone, answers, from + 1, pending);
    }
}

impl RaceScheduler {
    /// Runs one whole pass over the race, given in `answers` what each
    /// branch answers if it is polled. The answers of branches that the
    /// pass does not get to look at are ignored.
    pub fn poll_pass<R>(&mut self, answers: Vec<SoftFailPoll<R>>) -> (verdict: SoftFailPoll<R>)
        requires
            old(self).wf(),
            old(self).cursor() == 0,
            !old(self).pending(),
            answers@.len() == old(self).gone().len(),
        ensures
            final(self).wf(),
            final(self).gone() == race_pass(old(self).gone(), answers@, 0, false).0,
            verdict == race_pass(old(self).gone(), answers@, 0, false).1,
            verdict is Pending ==> final(self).cursor() == 0 && !final(self).pending(),
    {
        let mut rest = answers;
        let ghost given = answers@;
        let ghost goal = race_pass(old(self).gone@, given, 0, false);
        loop
            invariant
                self.wf(),
                given == answers@,
                goal == race_pass(old(self).gone@, given, 0, false),
                rest@.len() == given.len(),
                given.len() == self.gone@.len(),
                forall|j: int| self.cursor <= j < given.len() ==> rest@[j] == given[j],
                race_pass(self.gone@, given, self.cursor as int, self.pending) == goal,
            decreases self.gone@.len() - self.cursor,
        {
            proof {
                lemma_pass_skips_gone(self.gone@, given, self.cursor as int, self.pending);
            }
            match self.next_move() {
                RaceMove::Poll(index) => {
                    let mut answer = SoftFailPoll::Pending;
                    core::mem::swap(&mut rest[index], &mut answer);
                    if let Some(value) = self.report(index, answer) {
                        return SoftFailPoll::Ready(value);
                    }
                },
                RaceMove::Pending => {
                    return SoftFailPoll::Pending;
                },
                RaceMove::SoftFail => {
                    return SoftFailPoll::SoftFail;
                },
            }
        }
    }
}

/// In a pass over a race, a branch that is ready settles the race with its
/// value, whatever its index, provided that no branch before it that is
/// still in the race is ready too. Branches that soft-fail or are still
/// running do not stand in its way.
pub proof fn lemma_ready_branch_settles_the_race<R>(
    gone: Seq<bool>,
    answers: Seq<SoftFailPoll<R>>,
    from: int,
    pending: bool,
    winner: int,
    value: R,
)
    requires
        answers.len() == gone.len(),
        0 <= from <= winner < gone.len(),
        !gone[winner],
        answers[winner] == SoftFailPoll::Ready(value),
        forall|i: int| from <= i < winner && !gone[i] ==> !(#[trigger] answers[i] is Ready),
    ensures
        race_pass(gone, answers, from, pending).1 == SoftFailPoll::Ready(value),
    decreases winner - from,
{
    if from < winner {
        if gone[from] {
            lemma_ready_branch_settles_the_race(gone, answers, from + 1, pending, winner, value);
        } else {
            match answers[from] {
                SoftFailPoll::Pending => {
                    lemma_ready_branch_settles_the_race(
                        gone,
                        answers,
                        from + 1,
                        true,
                        winner,
                        value,
                    );
                },
                _ => {
                    let marked = gone.update(from, true);
                    lemma_ready_branch_settles_the_race(
                        marked,
                        answers,
                        from + 1,
                        pending,
                        winner,
                        value,
                    );
                },
            }
        }
    }
}

/// A pass over a race comes to a soft failure only when every branch has
/// been seen to soft-fail: each branch was out of the race before the pass
/// or answered with a soft failure in it, no branch is still running, and
/// after the pass no branch is left in the race.
pub proof fn lemma_race_soft_fails_only_when_all_did<R>(
    gone: Seq<bool>,
    answers: Seq<SoftFailPoll<R>>,
    from: int,
    pending: bool,
)
    requires
        answers.len() == gone.len(),
        0 <= from <= gone.len(),
        race_pass(gone, answers, from, pending).1 is SoftFail,
    ensures
        !pending,
        forall|i: int| from <= i < gone.len() ==> gone[i] || #[trigger] answers[i] is SoftFail,
        forall|i: int|
            from <= i < gone.len() ==> #[trigger] race_pass(gone, answers, from, pending).0[i],
        race_pass(gone, answers, from, pending).0.len() == gone.len(),
    decreases gone.len() - from,
{
    if from < gone.len() {
        if gone[from] {
            lemma_race_soft_fails_only_when_all_did(gone, answers, from + 1, pending);
            lemma_pass_keeps_earlier(gone, answers, from + 1, pending, from);
        } else {
            match answers[from] {
                SoftFailPoll::Ready(_) => {},
                SoftFailPoll::Pending => {
                    lemma_race_soft_fails_only_when_all_did(gone, answers, from + 1, true);
                },
                SoftFailPoll::SoftFail => {
                    let marked = gone.update(from, true);
                    lemma_race_soft_fails_only_when_all_did(marked, answers, from + 1, pending);
                    lemma_pass_keeps_earlier(marked, answers, from + 1, pending, from);
                },
            }
        }
    }
}

/// A pass leaves the marks of the branches before its starting point alone.
proof fn lemma_pass_keeps_earlier<R>(
    gone: Seq<bool>,
    answers: Seq<SoftFailPoll<R>>,
    from: int,
    pending: bool,
    index: int,
)
    requires
        0 <= index < from <= gone.len(),
    ensures
        race_pass(gone, answers, from, pending).0.len() == gone.len(),
        race_pass(gone, answers, from, pending).0[index] == gone[index],
    decreases gone.len() - from,
{
    if from < gone.len() {
        if gone[from] {
            lemma_pass_keeps_earlier(gone, answers, from + 1, pending, index);
        } else {
            match answers[from] {
                SoftFailPoll::Ready(_) => {},
                SoftFailPoll::Pending => {
                    lemma_pass_keeps_earlier(gone, answers, from + 1, true, index);
                },
                SoftFailPoll::SoftFail => {
                    lemma_pass_keeps_earlier(
                        gone.update(from, true),
                        answers,
                        from + 1,
                        pending,
                        index,
                    );
                },
            }
        }
    }
}

} // verus!

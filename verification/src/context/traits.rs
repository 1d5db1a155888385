use vstd::prelude::*;

verus! {

/// A context that can hand an independent copy of itself to a branch.
pub trait Fork: Sized {
    /// Whether `child` is what forking `self` may hand out. A context that
    /// says nothing about its forks may hand out anything.
    open spec fn forks_into(self, child: Self) -> bool {
        true
    }

    /// Makes the copy that a concurrent or alternate branch will work on.
    fn fork(&self) -> (child: Self)
        ensures
            self.forks_into(child),
    ;
}

/// A context that can absorb the one fork that survived a sequence of
/// alternate attempts.
pub trait Update: Sized {
    /// Whether `after` is `self` once it has absorbed `other`. A context
    /// that says nothing about absorbing may end up as anything.
    open spec fn updates_into(self, other: Self, after: Self) -> bool {
        true
    }

    /// Absorbs the state that the surviving fork `other` accumulated.
    fn update_from(&mut self, other: Self)
        ensures
            old(self).updates_into(other, *final(self)),
    ;
}

/// A context that can absorb all the forks of a parallel fan-out at once.
pub trait Join: Sized {
    /// Whether `after` is `self` once it has absorbed `others`, which are
    /// given in branch order. A context that says nothing about absorbing
    /// may end up as anything.
    open spec fn joins_into(self, others: Seq<Self>, after: Self) -> bool {
        true
    }

    /// Absorbs the state that the sibling forks `others` accumulated.
    fn join(&mut self, others: Vec<Self>)
        ensures
            old(self).joins_into(others@, *final(self)),
    ;
}

} // verus!

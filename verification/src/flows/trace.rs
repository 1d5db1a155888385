use crate::node::{Node, NodeOutput};
use vstd::prelude::*;

verus! {

/// The record of one node having run: what it came back with, and the
/// context as it left it.
pub struct Ran<O, E, C> {
    /// What the node came back with.
    pub outcome: Result<O, E>,
    /// The context that the node worked on, as the node left it.
    pub context: C,
}

/// The record of one node having run on a fork of its own: the fork it was
/// given, what the node came back with, and the fork as the node left it.
pub struct Attempt<O, E, C> {
    /// The fork that the node started on.
    pub forked: C,
    /// What the node came back with.
    pub outcome: Result<NodeOutput<O>, E>,
    /// The fork as the node left it.
    pub context: C,
}

/// Whether a fresh copy of `node`, run on `input` in the context `before`,
/// may come back with `result` and leave the context as `after`. Flows never
/// run the nodes they hold, only copies of them.
pub open spec fn node_yields<T, O, E, C, N: Node<T, O, E, C> + Clone>(
    node: N,
    input: T,
    before: C,
    result: Result<O, E>,
    after: C,
) -> bool {
    exists|copy: N| #[trigger] cloned(node, copy) && copy.yields(input, before, result, after)
}

} // verus!

//! Composable units of work, called nodes, and the flows that run them:
//! pipelines, fallback chains, races and fan-outs.
//!
//! A node takes an input and the context of the run and comes back with a
//! value, with a soft failure, or with an error. A flow is a node that runs
//! other nodes. Flows that let nodes work side by side give each of them a
//! fork of the context and absorb the forks that count when the nodes are
//! done; [`context`] says what that asks of a context, and holds the keyed
//! stores that a context can be built from.
//!
//! What a flow does is stated in terms of what its nodes do: every node
//! says in [`node::Node::yields`] what a run of it may come to, and every
//! flow says in the same terms what a run of the flow may come to.

use vstd::prelude::*;

pub mod context;
pub mod describe;
pub mod flows;
pub mod future_utils;
pub mod internal;
pub mod node;

verus! {

} // verus!

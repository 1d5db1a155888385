//! Flows: nodes that run other nodes.

mod chain_describe;
mod trace;

pub mod detached;
pub mod fn_flow;
pub mod one_of_parallel_flow;
pub mod one_of_sequential_flow;
pub mod parallel_flow;
pub mod sequential_flow;

pub use chain_describe::{
    between_nodes, describe_flow, describes_flow, into_node, one_of_edges, one_of_wiring,
    out_of_node, parallel_edges, parallel_wiring, sequential_edges, sequential_wiring,
};
pub use detached::Detached;
pub use fn_flow::FnFlow;
pub use one_of_parallel_flow::OneOfParallelFlow;
pub use one_of_sequential_flow::OneOfSequentialFlow;
pub use parallel_flow::ParallelFlow;
pub use sequential_flow::SequentialFlow;
pub use trace::{node_yields, Attempt, Ran};

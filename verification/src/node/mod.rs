//! Nodes, the units of work that flows are made of, and what they produce.

mod base;
mod output;

pub use base::Node;
pub use output::NodeOutput;

//! Adapters that fit nodes of other types into a flow.

pub mod internal_node2;

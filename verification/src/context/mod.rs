//! What a flow asks of the context it runs its nodes in, and the stores
//! that a context can be built from.

pub mod storage;
mod traits;

pub use traits::{Fork, Join, Update};

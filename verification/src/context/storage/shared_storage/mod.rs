//! Keyed storage shared by all branches: there is one table of slots, and
//! every branch works on the same one.

mod design;
mod implementation;

pub use design::SharedStorage;
pub use implementation::SharedStorageImpl;

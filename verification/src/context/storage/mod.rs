//! Keyed state stores that a context may carry.

pub mod local_storage;
pub mod shared_storage;

pub use local_storage::LocalStorage;
pub use shared_storage::SharedStorage;

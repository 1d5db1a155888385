//! Branch-local keyed storage: every branch of a flow owns its own copy,
//! and copies are reconciled when the branches come back together.

mod design;
mod implementation;

pub use design::{LocalStorage, Merge, MergeResult};
pub use implementation::{
    contributions, decided, held_values, joined_entry, lemma_contested_insert_goes_by_policy,
    lemma_everything_contributed, lemma_nothing_contributed, lemma_removed_by_all_is_removed,
    lemma_single_insert_goes_in, lemma_untouched_key_is_kept, merged_entry, touched,
    LocalStorageImpl,
};

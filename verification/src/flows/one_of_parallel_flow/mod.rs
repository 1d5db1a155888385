//! The race: every node runs on its own fork of the context, and the first
//! to produce a value or to fail settles the flow.

mod builder;
mod chain_run;
mod flow;

pub use builder::Builder;
pub use chain_run::poll::{
    classify, lemma_race_soft_fails_only_when_all_did, lemma_ready_branch_settles_the_race,
    next_live, race_pass, some_live_before, BranchOutput, RaceMove, RaceScheduler,
};
pub use chain_run::run::{branch_yields, race_runs, race_yields, ChainRunOneOfParallel};
pub use chain_run::spawn::{branch_spawned, Branch, ChainSpawn};
pub use flow::OneOfParallelFlow;

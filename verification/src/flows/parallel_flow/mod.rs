//! The fan-out: every node runs on its own fork of the context, all of
//! them to the end, and a joiner makes the flow's output of their outputs.

mod builder;
mod chain_run;
mod flow;
mod joiner;

pub use builder::Builder;
pub use chain_run::poll::{
    all_finished, branch_contexts, branch_outputs, first_error, join_pass,
    lemma_finished_branch_is_kept, lemma_lowest_error_is_reported,
    lemma_no_error_means_all_ended_well, lemma_pass_is_ready_when_all_finished, JoinScheduler,
};
pub use chain_run::run::{
    branch_result, fan_out_results, fan_out_runs, fan_out_yields,
    lemma_fan_out_reports_lowest_error, ChainRunParallel,
};
pub use flow::{
    call_joiner, describe_parallel_flow, describes_parallel_flow, parallel_yields, ParallelFlow,
};
pub use joiner::Joiner;

pub use crate::flows::one_of_parallel_flow::{branch_spawned, Branch, ChainSpawn};

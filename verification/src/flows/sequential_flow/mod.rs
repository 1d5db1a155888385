//! The pipeline: nodes run one after the other on one shared context, each
//! fed with what the one before it produced.

mod builder;
mod chain_run;
mod flow;

pub use builder::Builder;
pub use chain_run::{
    chain_context, chain_input, chain_result, chain_runs, chain_yields,
    lemma_chain_stops_at_error, lemma_chain_stops_at_soft_fail,
    lemma_chain_value_needs_every_node, sequential_step, ChainRunSequential, SequentialStep,
};
pub use flow::SequentialFlow;

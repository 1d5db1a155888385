//! The fallback chain: nodes are tried one after the other, each on a fork
//! of the context, until one of them produces a value.

mod builder;
mod chain_run;
mod flow;

pub use builder::OneOfSequentialFlowBuilder;
pub use chain_run::{
    attempt_yields, attempts_context, attempts_result, attempts_run, attempts_yield,
    lemma_only_the_winner_is_absorbed, lemma_soft_fail_needs_every_attempt, one_of_step,
    ChainRunOneOfSequential, OneOfStep,
};
pub use flow::OneOfSequentialFlow;

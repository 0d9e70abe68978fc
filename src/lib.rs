//! Monte Carlo estimation of the run value of a single plate appearance,
//! for every base-out state of a half-inning.
//!
//! Run values are exact integers in ten-thousandths of a run, the precision
//! of the run expectancy table.

mod aggregate;
mod error;
mod expectancy;
mod laws;
mod player;
mod sampler;
mod simulation;
mod situation;

pub use aggregate::{seq_sum, seq_sum_sq, Aggregate, VALUE_BOUND};
pub use error::SimError;
pub use expectancy::{er_value, expected_runs, RUN};
pub use laws::{
    lemma_ground_out_keeps_bases, lemma_home_runs_only, lemma_strikeouts_only,
    lemma_third_out_ends_inning, lemma_weights_are_plate_appearances,
};
pub use player::{ground_outs, stat_weights, valid_stats, Player};
pub use sampler::{index_weights, total_weight, OutcomeDistribution};
pub use simulation::{
    build_distribution, estimate, hit_of_index, is_estimate, merge_tables, one_batting,
    outcome_at, possible_value, run_all, situation_at,
};
pub use situation::{
    after_play, empty_situation, inning_ends, next_situation, occupied, outs_made, run_value,
    runs_scored, BaseSituation, HitResult,
};

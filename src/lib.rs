//! A controllable fault-injection engine: call sites marked as fallible ask a
//! configuration whether to simulate a failure, by probability, by period,
//! behind a predicate or an allow-list, with counters and callbacks.

mod config;
mod decimal;
mod error;
mod hash;
mod laws;
mod mixing;
mod point;
mod state;

pub use config::{
    check_and_trigger, ConfigModel, FailureCallback, FailureConfig, FailureHooks, FailurePredicate,
    FailureStats, CHAOS_MONKEY_THRESHOLD,
};
pub use decimal::{
    digit_value, digits_value, is_digit, parse_u64, spec_parse_u64, unsigned_digits,
};
pub use error::{FallibleError, SIMULATED_FAILURE};
pub use hash::{fx_hash32, fx_hash64};
pub use laws::{
    failures_in, lemma_periodic_verdicts, lemma_replay_checks, lemma_replay_counts,
    lemma_scope_exit_empties_slot, lemma_seeded_runs_agree, lemma_stats_after_calls,
    lemma_thread_slots_isolated, replay, verdict_at,
};
pub use mixing::{
    avalanche, draw, draw_key, mix_digests, runtime_entropy, spec_avalanche, spec_draw,
    spec_fold, spec_mix_digests, spec_perturbation, spec_runtime_entropy, AVALANCHE_FIRST,
    AVALANCHE_SECOND, SEED_MULTIPLIER,
};
pub use point::{FailurePoint, FailurePointId};
pub use state::{
    active_hooks, clear_failure_config, clear_thread_failure_config, configure_failures,
    configure_thread_failures, get_failure_stats, record_active, should_simulate_failure,
    with_config, with_thread_config, ConfigSlot, FailureConfigGuard, FailureRegistry,
    RegistryModel,
};

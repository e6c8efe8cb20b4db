use std::sync::atomic::{AtomicU64, Ordering};
use std::sync::Arc;

use fallibles_core::{
    active_hooks, clear_failure_config, clear_thread_failure_config, configure_failures,
    configure_thread_failures, get_failure_stats, record_active, should_simulate_failure, with_config,
    with_thread_config, ConfigSlot, FailureConfig, FailurePoint, FailurePointId, FailureRegistry,
};

fn point() -> FailurePoint {
    FailurePoint { id: FailurePointId(42), function: "op", file: "slots.rs", line: 3, column: 9 }
}

#[test]
fn empty_registry_never_fails() {
    let mut registry = FailureRegistry::new();
    for t in 0..5u64 {
        assert!(!should_simulate_failure(&mut registry, t, point(), 0));
        assert!(get_failure_stats(&registry, t).is_none());
    }
}

#[test]
fn global_config_applies_to_every_thread() {
    let mut registry = FailureRegistry::new();
    configure_failures(&mut registry, FailureConfig::circuit_breaker(1));
    assert!(should_simulate_failure(&mut registry, 1, point(), 0));
    assert!(should_simulate_failure(&mut registry, 2, point(), 0));
    let stats = get_failure_stats(&registry, 3).unwrap();
    assert_eq!(stats.total_checks, 2);
    assert_eq!(stats.total_failures, 2);
}

#[test]
fn thread_config_overrides_global() {
    let mut registry = FailureRegistry::new();
    configure_failures(&mut registry, FailureConfig::circuit_breaker(1));
    configure_thread_failures(&mut registry, 7, FailureConfig::new());
    assert!(!should_simulate_failure(&mut registry, 7, point(), 0));
    assert!(should_simulate_failure(&mut registry, 8, point(), 0));
    assert_eq!(get_failure_stats(&registry, 7).unwrap().total_checks, 0);
    assert_eq!(get_failure_stats(&registry, 8).unwrap().total_checks, 1);
}

#[test]
fn thread_config_does_not_leak_to_other_threads() {
    let mut registry = FailureRegistry::new();
    configure_thread_failures(&mut registry, 1, FailureConfig::circuit_breaker(1));
    for _ in 0..5 {
        assert!(!should_simulate_failure(&mut registry, 2, point(), 0));
    }
    assert!(get_failure_stats(&registry, 2).is_none());
    assert!(should_simulate_failure(&mut registry, 1, point(), 0));
}

#[test]
fn thread_without_own_config_uses_global() {
    let mut registry = FailureRegistry::new();
    configure_failures(&mut registry, FailureConfig::circuit_breaker(2));
    configure_thread_failures(&mut registry, 1, FailureConfig::circuit_breaker(1));
    assert!(should_simulate_failure(&mut registry, 2, point(), 0));
    assert!(!should_simulate_failure(&mut registry, 2, point(), 0));
    assert!(should_simulate_failure(&mut registry, 1, point(), 0));
    assert!(should_simulate_failure(&mut registry, 1, point(), 0));
}

#[test]
fn clearing_thread_config_falls_back_to_global() {
    let mut registry = FailureRegistry::new();
    configure_failures(&mut registry, FailureConfig::circuit_breaker(1));
    configure_thread_failures(&mut registry, 1, FailureConfig::new());
    assert!(!should_simulate_failure(&mut registry, 1, point(), 0));
    clear_thread_failure_config(&mut registry, 1);
    assert!(should_simulate_failure(&mut registry, 1, point(), 0));
}

#[test]
fn clearing_global_config_stops_failures() {
    let mut registry = FailureRegistry::new();
    configure_failures(&mut registry, FailureConfig::circuit_breaker(1));
    clear_failure_config(&mut registry);
    assert!(!should_simulate_failure(&mut registry, 1, point(), 0));
    assert!(get_failure_stats(&registry, 1).is_none());
    clear_failure_config(&mut registry);
    assert!(get_failure_stats(&registry, 1).is_none());
}

#[test]
fn installing_replaces_previous_config() {
    let mut registry = FailureRegistry::new();
    configure_failures(&mut registry, FailureConfig::circuit_breaker(1));
    assert!(should_simulate_failure(&mut registry, 1, point(), 0));
    configure_failures(&mut registry, FailureConfig::new());
    assert!(!should_simulate_failure(&mut registry, 1, point(), 0));
    assert_eq!(get_failure_stats(&registry, 1).unwrap().total_checks, 0);
}

#[test]
fn scoped_global_config_is_cleared_on_release() {
    let mut registry = FailureRegistry::new();
    let guard = with_config(&mut registry, FailureConfig::circuit_breaker(1));
    assert_eq!(guard.slot(), ConfigSlot::Global);
    assert!(should_simulate_failure(&mut registry, 1, point(), 0));
    guard.release(&mut registry);
    assert!(!should_simulate_failure(&mut registry, 1, point(), 0));
    assert!(get_failure_stats(&registry, 1).is_none());
}

#[test]
fn scoped_thread_config_is_cleared_on_release() {
    let mut registry = FailureRegistry::new();
    let guard = with_thread_config(&mut registry, 4, FailureConfig::circuit_breaker(1));
    assert_eq!(guard.slot(), ConfigSlot::Thread(4));
    assert!(should_simulate_failure(&mut registry, 4, point(), 0));
    guard.release(&mut registry);
    assert!(!should_simulate_failure(&mut registry, 4, point(), 0));
}

#[test]
fn release_after_manual_clear_is_harmless() {
    let mut registry = FailureRegistry::new();
    let guard = with_config(&mut registry, FailureConfig::circuit_breaker(1));
    clear_failure_config(&mut registry);
    guard.release(&mut registry);
    assert!(!should_simulate_failure(&mut registry, 1, point(), 0));
}

#[test]
fn thread_release_keeps_global() {
    let mut registry = FailureRegistry::new();
    configure_failures(&mut registry, FailureConfig::circuit_breaker(1));
    let guard = with_thread_config(&mut registry, 4, FailureConfig::new());
    assert!(!should_simulate_failure(&mut registry, 4, point(), 0));
    guard.release(&mut registry);
    assert!(should_simulate_failure(&mut registry, 4, point(), 0));
}

#[test]
fn two_phase_evaluation_matches_direct() {
    let mut registry = FailureRegistry::new();
    configure_failures(&mut registry, FailureConfig::circuit_breaker(2));
    let hooks = active_hooks(&registry, 1).unwrap();
    assert!(hooks.allows());
    assert!(record_active(&mut registry, 1, FailurePointId(42), true, 0));
    assert!(!record_active(&mut registry, 1, FailurePointId(42), true, 0));
    assert_eq!(get_failure_stats(&registry, 1).unwrap().total_checks, 2);
    assert_eq!(get_failure_stats(&registry, 1).unwrap().total_failures, 1);
}

#[test]
fn refused_predicate_records_nothing() {
    let mut registry = FailureRegistry::new();
    configure_thread_failures(&mut registry, 3, FailureConfig::circuit_breaker(1).when(|| false));
    let hooks = active_hooks(&registry, 3).unwrap();
    assert!(!hooks.allows());
    assert!(!record_active(&mut registry, 3, FailurePointId(42), false, 0));
    assert_eq!(get_failure_stats(&registry, 3).unwrap().total_checks, 0);
}

#[test]
fn no_hooks_without_config() {
    let mut registry = FailureRegistry::new();
    assert!(active_hooks(&registry, 1).is_none());
    assert!(!record_active(&mut registry, 1, FailurePointId(42), true, 0));
}

#[test]
fn shared_hooks_can_reenter_the_registry() {
    let seen = Arc::new(AtomicU64::new(0));
    let s = seen.clone();
    let mut registry = FailureRegistry::new();
    configure_failures(
        &mut registry,
        FailureConfig::circuit_breaker(1).on_failure(move |_fp| {
            s.fetch_add(1, Ordering::SeqCst);
        }),
    );
    let hooks = active_hooks(&registry, 1).unwrap();
    let failed = record_active(&mut registry, 1, FailurePointId(42), hooks.allows(), 0);
    assert!(failed);
    // the registry is free while the hook runs
    clear_failure_config(&mut registry);
    hooks.notify_failure(point());
    assert_eq!(seen.load(Ordering::SeqCst), 1);
}

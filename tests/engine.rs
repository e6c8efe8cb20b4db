use std::sync::atomic::{AtomicU64, Ordering};
use std::sync::Arc;

use fallibles_core::{
    check_and_trigger, FailureConfig, FailurePoint, FailurePointId, CHAOS_MONKEY_THRESHOLD,
};

fn point(id: u32) -> FailurePoint {
    FailurePoint { id: FailurePointId(id), function: "op", file: "engine.rs", line: 1, column: 1 }
}

fn named(name: &'static str) -> FailurePoint {
    FailurePoint { id: FailurePointId::of_name(name), function: name, file: "engine.rs", line: 2, column: 5 }
}

fn verdicts(config: &mut FailureConfig, fp: FailurePoint, entropies: &[u64]) -> Vec<bool> {
    entropies.iter().map(|e| check_and_trigger(config, fp, *e)).collect()
}

/// Probability threshold for 0.3: `(0.3 * u32::MAX as f64) as u32`.
const THIRTY_PERCENT: u32 = 1288490188;

#[test]
fn new_config_never_fails() {
    let mut config = FailureConfig::new();
    for e in 0..50u64 {
        assert!(!check_and_trigger(&mut config, point(1), e));
    }
    let stats = config.stats();
    assert_eq!(stats.total_checks, 0);
    assert_eq!(stats.total_failures, 0);
}

#[test]
fn trigger_every_three_fails_at_multiples() {
    let mut config = FailureConfig::new().trigger_every(3);
    let got = verdicts(&mut config, point(4), &[0; 9]);
    assert_eq!(got, vec![true, false, false, true, false, false, true, false, false]);
    let stats = config.stats();
    assert_eq!(stats.total_checks, 9);
    assert_eq!(stats.total_failures, 3);
}

#[test]
fn circuit_breaker_is_periodic() {
    let mut config = FailureConfig::circuit_breaker(5);
    let got = verdicts(&mut config, point(2), &[7; 11]);
    let expected: Vec<bool> = (0..11).map(|i| i % 5 == 0).collect();
    assert_eq!(got, expected);
}

#[test]
fn trigger_every_zero_is_disabled() {
    let mut config = FailureConfig::new().trigger_every(0);
    assert!(verdicts(&mut config, point(2), &[1, 2, 3]).iter().all(|v| !v));
    assert_eq!(config.stats().total_checks, 0);
}

#[test]
fn periodic_mode_takes_precedence_over_probability() {
    let mut config = FailureConfig::enable_all().trigger_every(2);
    let got = verdicts(&mut config, point(3), &[0, 1, 2, 3, 4, 5]);
    assert_eq!(got, vec![true, false, true, false, true, false]);
}

#[test]
fn seeded_runs_are_reproducible() {
    let fp = named("read_config");
    let mut first = FailureConfig::new().with_threshold(THIRTY_PERCENT).with_seed(12345);
    let mut second = FailureConfig::new().with_threshold(THIRTY_PERCENT).with_seed(12345);
    let e1: Vec<u64> = (0..20).map(|i| i * 17 + 3).collect();
    let e2: Vec<u64> = (0..20).map(|i| i * 1_000_003 + 99).collect();
    let a = verdicts(&mut first, fp, &e1);
    let b = verdicts(&mut second, fp, &e2);
    assert_eq!(a, b);
    let expected = vec![
        false, false, false, true, false, true, false, false, false, false, true, true, true,
        false, false, false, false, false, false, true,
    ];
    assert_eq!(a, expected);
}

#[test]
fn unseeded_runs_follow_entropy() {
    let fp = named("read_config");
    let mut first = FailureConfig::new().with_threshold(1u32 << 31);
    let mut second = FailureConfig::new().with_threshold(1u32 << 31);
    let e1: Vec<u64> = (0..64).map(|c| 1000 + c).collect();
    let e2: Vec<u64> = (0..64).map(|c| 7777 + 3 * c).collect();
    let a = verdicts(&mut first, fp, &e1);
    let b = verdicts(&mut second, fp, &e2);
    assert_ne!(a, b);
}

#[test]
fn predicate_false_blocks_every_mode() {
    let mut always = FailureConfig::enable_all().when(|| false);
    let mut periodic = FailureConfig::new().trigger_every(1).when(|| false);
    for e in 0..30u64 {
        assert!(!check_and_trigger(&mut always, point(8), e));
        assert!(!check_and_trigger(&mut periodic, point(8), e));
    }
    assert_eq!(always.stats().total_checks, 0);
    assert_eq!(periodic.stats().total_checks, 0);
    assert_eq!(periodic.stats().total_failures, 0);
}

#[test]
fn predicate_true_lets_failures_through() {
    let mut config = FailureConfig::new().trigger_every(1).when(|| true);
    assert!(check_and_trigger(&mut config, point(8), 0));
    assert_eq!(config.stats().total_failures, 1);
}

#[test]
fn stats_count_checks_and_failures() {
    let mut config = FailureConfig::new().with_threshold(1u32 << 31).with_seed(99);
    let got = verdicts(&mut config, point(11), &[0; 100]);
    let fails = got.iter().filter(|v| **v).count() as u64;
    let stats = config.stats();
    assert_eq!(stats.total_checks, 100);
    assert_eq!(stats.total_failures, fails);
    assert!(stats.total_failures <= stats.total_checks);
    assert_eq!(fails, 37);
}

#[test]
fn allow_list_limits_points() {
    let mut config = FailureConfig::new().trigger_every(1).enable_point(FailurePointId(5));
    assert!(!check_and_trigger(&mut config, point(6), 0));
    assert_eq!(config.stats().total_checks, 0);
    assert!(check_and_trigger(&mut config, point(5), 0));
    assert!(check_and_trigger(&mut config, point(5), 0));
    assert_eq!(config.stats().total_checks, 2);
}

#[test]
fn allow_list_with_several_points() {
    let mut config = FailureConfig::circuit_breaker(1)
        .enable_point(FailurePointId(1))
        .enable_point(FailurePointId(3));
    assert!(check_and_trigger(&mut config, point(1), 0));
    assert!(!check_and_trigger(&mut config, point(2), 0));
    assert!(check_and_trigger(&mut config, point(3), 0));
}

#[test]
fn callbacks_fire_on_check_and_failure() {
    let checks = Arc::new(AtomicU64::new(0));
    let failures = Arc::new(AtomicU64::new(0));
    let c = checks.clone();
    let f = failures.clone();
    let mut config = FailureConfig::new()
        .trigger_every(2)
        .on_check(move |_fp| {
            c.fetch_add(1, Ordering::SeqCst);
        })
        .on_failure(move |fp| {
            assert_eq!(fp.id, FailurePointId(9));
            f.fetch_add(1, Ordering::SeqCst);
        });
    verdicts(&mut config, point(9), &[0; 5]);
    assert_eq!(checks.load(Ordering::SeqCst), 5);
    assert_eq!(failures.load(Ordering::SeqCst), 3);
}

#[test]
fn check_hook_fires_even_when_gated() {
    let checks = Arc::new(AtomicU64::new(0));
    let c = checks.clone();
    let mut config = FailureConfig::enable_all().when(|| false).on_check(move |_fp| {
        c.fetch_add(1, Ordering::SeqCst);
    });
    verdicts(&mut config, point(9), &[0; 4]);
    assert_eq!(checks.load(Ordering::SeqCst), 4);
}

#[test]
fn later_hook_replaces_earlier() {
    let first = Arc::new(AtomicU64::new(0));
    let second = Arc::new(AtomicU64::new(0));
    let a = first.clone();
    let b = second.clone();
    let mut config = FailureConfig::circuit_breaker(1)
        .on_failure(move |_fp| {
            a.fetch_add(1, Ordering::SeqCst);
        })
        .on_failure(move |_fp| {
            b.fetch_add(1, Ordering::SeqCst);
        });
    verdicts(&mut config, point(1), &[0; 3]);
    assert_eq!(first.load(Ordering::SeqCst), 0);
    assert_eq!(second.load(Ordering::SeqCst), 3);
}

#[test]
fn enable_all_fails_seeded_calls() {
    let mut config = FailureConfig::enable_all().with_seed(1);
    assert!(verdicts(&mut config, point(1), &[0; 20]).iter().all(|v| *v));
}

#[test]
fn chaos_monkey_threshold_is_one_tenth() {
    assert_eq!(CHAOS_MONKEY_THRESHOLD, (0.1f64 * u32::MAX as f64).round() as u32);
    let mut config = FailureConfig::chaos_monkey().with_seed(7);
    let got = verdicts(&mut config, point(1), &[0; 1000]);
    let fails = got.iter().filter(|v| **v).count();
    assert_eq!(fails, 102);
    assert_eq!(config.stats().total_failures, 102);
    assert_eq!(config.stats().total_checks, 1000);
}

#[test]
fn point_id_depends_on_name_alone() {
    assert_eq!(FailurePointId::of_name("read_config"), FailurePointId(2209250952));
    assert_eq!(FailurePointId::of_name("fetch_data"), FailurePointId(2213759865));
    assert_eq!(FailurePointId::of_name("read_config"), FailurePointId::of_name("read_config"));
}

#[test]
fn default_config_never_fails() {
    let mut config = FailureConfig::default();
    assert!(!check_and_trigger(&mut config, point(1), 0));
    assert_eq!(config.stats().total_checks, 0);
}

#[test]
fn largest_threshold_fails_even_on_the_largest_draw() {
    // this entropy makes the unseeded draw of point 1, ordinal 0, exactly u32::MAX
    let entropy = 17899246647943742902u64;
    assert_eq!(fallibles_core::draw(1, 0, 0, entropy), u32::MAX);
    let mut config = FailureConfig::enable_all();
    assert!(check_and_trigger(&mut config, point(1), entropy));
    let mut below = FailureConfig::new().with_threshold(u32::MAX - 1);
    assert!(!check_and_trigger(&mut below, point(1), entropy));
}

#[test]
fn enable_all_fails_unseeded_calls() {
    let mut config = FailureConfig::enable_all();
    let entropies: Vec<u64> = (0..50).map(|i| i * 7919).collect();
    assert!(verdicts(&mut config, point(3), &entropies).iter().all(|v| *v));
    assert_eq!(config.stats().total_failures, 50);
}

#[test]
fn seed_text_sets_seed_when_decimal() {
    let fp = point(12);
    let mut from_text = FailureConfig::new().with_threshold(1u32 << 31).with_seed_text(Some("12345"));
    let mut direct = FailureConfig::new().with_threshold(1u32 << 31).with_seed(12345);
    let a = verdicts(&mut from_text, fp, &[1, 2, 3, 4, 5, 6, 7, 8]);
    let b = verdicts(&mut direct, fp, &[9, 9, 9, 9, 9, 9, 9, 9]);
    assert_eq!(a, b);
}

#[test]
fn seed_text_keeps_seed_otherwise() {
    let fp = point(12);
    let mut kept = FailureConfig::new()
        .with_threshold(1u32 << 31)
        .with_seed(77)
        .with_seed_text(Some("12x"))
        .with_seed_text(None)
        .with_seed_text(Some("18446744073709551616"));
    let mut direct = FailureConfig::new().with_threshold(1u32 << 31).with_seed(77);
    let a = verdicts(&mut kept, fp, &[1, 2, 3, 4, 5, 6, 7, 8]);
    let b = verdicts(&mut direct, fp, &[5, 5, 5, 5, 5, 5, 5, 5]);
    assert_eq!(a, b);
}

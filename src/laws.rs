use vstd::prelude::*;

use crate::config::ConfigModel;
use crate::state::{ConfigSlot, RegistryModel};

verus! {

/// The model after evaluating, past the predicate, the calls in order; each call
/// is a point id and the entropy it was evaluated with.
pub open spec fn replay(m: ConfigModel, calls: Seq<(u32, u64)>) -> ConfigModel
    decreases calls.len(),
{
    if calls.len() == 0 {
        m
    } else {
        replay(m, calls.drop_last()).next(calls.last().0, calls.last().1)
    }
}

/// The verdict of call `i` when the calls are evaluated in order.
pub open spec fn verdict_at(m: ConfigModel, calls: Seq<(u32, u64)>, i: int) -> bool {
    replay(m, calls.take(i)).verdict(calls[i].0, calls[i].1)
}

/// How many of the calls fail when evaluated in order.
pub open spec fn failures_in(m: ConfigModel, calls: Seq<(u32, u64)>) -> nat
    decreases calls.len(),
{
    if calls.len() == 0 {
        0
    } else {
        failures_in(m, calls.drop_last()) + if replay(m, calls.drop_last()).verdict(
            calls.last().0,
            calls.last().1,
        ) {
            1nat
        } else {
            0nat
        }
    }
}

/// With an open allow-list and an active mode every call draws one ordinal:
/// replaying keeps the policy and advances the ordinal counter by the number
/// of calls.
pub proof fn lemma_replay_checks(m: ConfigModel, calls: Seq<(u32, u64)>)
    requires
        m.points.len() == 0,
        m.period > 0 || m.threshold > 0,
        m.checks as int + calls.len() <= u64::MAX,
    ensures
        replay(m, calls).same_policy(m),
        replay(m, calls).checks == m.checks + calls.len(),
    decreases calls.len(),
{
    if calls.len() > 0 {
        lemma_replay_checks(m, calls.drop_last());
    }
}

/// As `lemma_replay_checks`, and the failure counter grows by the number of
/// failing calls, never passing the ordinal counter.
pub proof fn lemma_replay_counts(m: ConfigModel, calls: Seq<(u32, u64)>)
    requires
        m.points.len() == 0,
        m.period > 0 || m.threshold > 0,
        m.checks as int + calls.len() <= u64::MAX,
        m.failures <= m.checks,
    ensures
        replay(m, calls).same_policy(m),
        replay(m, calls).checks == m.checks + calls.len(),
        replay(m, calls).failures == m.failures + failures_in(m, calls),
        replay(m, calls).failures <= replay(m, calls).checks,
    decreases calls.len(),
{
    if calls.len() > 0 {
        lemma_replay_counts(m, calls.drop_last());
    }
}

/// Periodic mode: from a fresh counter, with no allow-list, call `i` fails
/// exactly when `i` is a multiple of the period, whatever the probability.
pub proof fn lemma_periodic_verdicts(m: ConfigModel, calls: Seq<(u32, u64)>, i: int)
    requires
        m.period > 0,
        m.points.len() == 0,
        m.checks == 0,
        calls.len() <= u64::MAX,
        0 <= i < calls.len(),
    ensures
        verdict_at(m, calls, i) == (i % m.period as int == 0),
{
    lemma_replay_checks(m, calls.take(i));
}

/// Replaying keeps the policy.
proof fn lemma_replay_keeps_policy(m: ConfigModel, calls: Seq<(u32, u64)>)
    ensures
        replay(m, calls).same_policy(m),
    decreases calls.len(),
{
    if calls.len() > 0 {
        lemma_replay_keeps_policy(m, calls.drop_last());
    }
}

/// With a seed, one evaluation does not depend on the entropy.
proof fn lemma_seeded_step(m: ConfigModel, id: u32, e1: u64, e2: u64)
    requires
        m.seed != 0,
    ensures
        m.verdict(id, e1) == m.verdict(id, e2),
        m.next(id, e1) == m.next(id, e2),
{
}

/// Two seeded replays over the same point ids end in the same model.
proof fn lemma_seeded_replays_agree(m: ConfigModel, calls1: Seq<(u32, u64)>, calls2: Seq<(u32, u64)>)
    requires
        m.seed != 0,
        calls1.len() == calls2.len(),
        forall|i: int| 0 <= i < calls1.len() ==> #[trigger] calls1[i].0 == calls2[i].0,
    ensures
        replay(m, calls1) == replay(m, calls2),
    decreases calls1.len(),
{
    if calls1.len() > 0 {
        let p1 = calls1.drop_last();
        let p2 = calls2.drop_last();
        assert forall|i: int| 0 <= i < p1.len() implies #[trigger] p1[i].0 == p2[i].0 by {
            assert(calls1[i].0 == calls2[i].0);
        }
        lemma_seeded_replays_agree(m, p1, p2);
        lemma_replay_keeps_policy(m, p1);
        assert(calls1[calls1.len() - 1].0 == calls2[calls1.len() - 1].0);
        lemma_seeded_step(replay(m, p1), calls1.last().0, calls1.last().1, calls2.last().1);
    }
}

/// Seeded runs are reproducible: two runs that present the same point ids in
/// the same order get the same verdicts and end with the same counters,
/// whatever entropy each call was evaluated with.
pub proof fn lemma_seeded_runs_agree(m: ConfigModel, calls1: Seq<(u32, u64)>, calls2: Seq<(u32, u64)>)
    requires
        m.seed != 0,
        calls1.len() == calls2.len(),
        forall|i: int| 0 <= i < calls1.len() ==> #[trigger] calls1[i].0 == calls2[i].0,
    ensures
        replay(m, calls1) == replay(m, calls2),
        forall|i: int| 0 <= i < calls1.len() ==> verdict_at(m, calls1, i) == verdict_at(m, calls2, i),
{
    lemma_seeded_replays_agree(m, calls1, calls2);
    assert forall|i: int| 0 <= i < calls1.len() implies verdict_at(m, calls1, i) == verdict_at(
        m,
        calls2,
        i,
    ) by {
        let q1 = calls1.take(i);
        let q2 = calls2.take(i);
        assert forall|j: int| 0 <= j < q1.len() implies #[trigger] q1[j].0 == q2[j].0 by {
            assert(calls1[j].0 == calls2[j].0);
        }
        lemma_seeded_replays_agree(m, q1, q2);
        lemma_replay_keeps_policy(m, q1);
        assert(calls1[i].0 == calls2[i].0);
        lemma_seeded_step(replay(m, q1), calls1[i].0, calls1[i].1, calls2[i].1);
    }
}

/// The counters after `k` calls with a mode active and no allow-list: `k`
/// checks, as many failures as failing calls, never more failures than
/// checks.
pub proof fn lemma_stats_after_calls(m: ConfigModel, calls: Seq<(u32, u64)>)
    requires
        m.period > 0 || m.threshold > 0,
        m.points.len() == 0,
        m.checks == 0,
        m.failures == 0,
        calls.len() <= u64::MAX,
    ensures
        replay(m, calls).checks == calls.len(),
        replay(m, calls).failures == failures_in(m, calls),
        replay(m, calls).failures <= replay(m, calls).checks,
{
    lemma_replay_counts(m, calls);
}

/// Installing or clearing the slot of one thread leaves the configuration
/// that applies on any other thread as it was.
pub proof fn lemma_thread_slots_isolated(m: RegistryModel, t: u64, u: u64, c: ConfigModel)
    requires
        t != u,
    ensures
        m.install(ConfigSlot::Thread(t), c).active(u) == m.active(u),
        m.clear(ConfigSlot::Thread(t)).active(u) == m.active(u),
{
}

/// Leaving a scope that installed a configuration empties the slot it was
/// installed in; where nothing else applied on a thread before, nothing
/// applies there afterwards, so its checks do not fail.
pub proof fn lemma_scope_exit_empties_slot(m: RegistryModel, s: ConfigSlot, c: ConfigModel, t: u64)
    ensures
        m.install(s, c).clear(s).slot(s) is None,
        m.active(t) is None ==> m.install(s, c).clear(s).active(t) is None,
{
}

} // verus!

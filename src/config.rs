use vstd::prelude::*;

use std::sync::Arc;

use vstd::wrapping::u64_specs::wrapping_add;

use vstd::string::StringSliceAdditionalSpecFns;

use crate::decimal::{parse_u64, spec_parse_u64};
use crate::mixing::{draw, spec_draw};
use crate::point::{FailurePoint, FailurePointId};

verus! {

/// Probability threshold of the chaos-monkey preset: one tenth of `u32::MAX`,
/// rounded to nearest.
pub const CHAOS_MONKEY_THRESHOLD: u32 = 429496730;

/// A predicate evaluated before every decision: while it answers `false` no
/// failure is simulated.
pub trait FailurePredicate: Send + Sync {
    /// The predicate may be called.
    spec fn callable(&self) -> bool;

    /// The predicate can answer `true` at all.
    spec fn can_allow(&self) -> bool;

    /// The predicate can answer `false` at all.
    spec fn can_deny(&self) -> bool;

    fn allows(&self) -> (r: bool)
        requires
            self.callable(),
        ensures
            r ==> self.can_allow(),
            !r ==> self.can_deny(),
    ;
}

impl<F: Fn() -> bool + Send + Sync> FailurePredicate for F {
    open spec fn callable(&self) -> bool {
        self.requires(())
    }

    open spec fn can_allow(&self) -> bool {
        self.ensures((), true)
    }

    open spec fn can_deny(&self) -> bool {
        self.ensures((), false)
    }

    fn allows(&self) -> (r: bool) {
        (self)()
    }
}

/// An observability hook, told of a failure point.
pub trait FailureCallback: Send + Sync {
    /// The hook may be called with `fp`.
    spec fn callable(&self, fp: FailurePoint) -> bool;

    fn notify(&self, fp: FailurePoint)
        requires
            self.callable(fp),
    ;
}

impl<F: Fn(FailurePoint) + Send + Sync> FailureCallback for F {
    open spec fn callable(&self, fp: FailurePoint) -> bool {
        self.requires((fp,))
    }

    fn notify(&self, fp: FailurePoint) {
        (self)(fp)
    }
}

/// Snapshot of a configuration's counters.
pub struct FailureStats {
    /// Number of evaluations that drew an ordinal.
    pub total_checks: u64,
    /// Number of evaluations that produced a failure.
    pub total_failures: u64,
}

/// The plain data of a configuration: its policy and its two counters.
pub struct ConfigModel {
    /// Allow-list of point ids; empty means every point is eligible.
    pub points: Seq<u32>,
    /// Probability threshold, as a fraction of 2^32.
    pub threshold: u32,
    /// Period of deterministic failures; 0 disables it.
    pub period: u64,
    /// Explicit seed; 0 means unseeded.
    pub seed: u64,
    /// Ordinal counter: evaluations that drew an ordinal so far.
    pub checks: u64,
    /// Failures produced so far.
    pub failures: u64,
}

impl ConfigModel {
    /// A configuration that never fails, with zero counters.
    pub open spec fn initial() -> ConfigModel {
        ConfigModel { points: Seq::empty(), threshold: 0, period: 0, seed: 0, checks: 0, failures: 0 }
    }

    /// Point `id` passes the allow-list.
    pub open spec fn eligible(self, id: u32) -> bool {
        self.points.len() == 0 || self.points.contains(id)
    }

    /// An evaluation at `id` past the predicate draws an ordinal.
    pub open spec fn draws(self, id: u32) -> bool {
        self.eligible(id) && (self.period > 0 || self.threshold > 0)
    }

    /// The verdict of an evaluation at `id` past the predicate: periodic mode
    /// first, then probability (the largest threshold always fails), else no
    /// failure.
    pub open spec fn verdict(self, id: u32, entropy: u64) -> bool {
        if !self.eligible(id) {
            false
        } else if self.period > 0 {
            self.checks % self.period == 0
        } else if self.threshold > 0 {
            self.threshold == u32::MAX || spec_draw(id, self.checks, self.seed, entropy)
                < self.threshold
        } else {
            false
        }
    }

    /// The model after an evaluation at `id` past the predicate has drawn its
    /// ordinal, before a failure is counted.
    pub open spec fn drawn(self, id: u32) -> ConfigModel {
        if self.draws(id) {
            ConfigModel { checks: wrapping_add(self.checks, 1), ..self }
        } else {
            self
        }
    }

    /// The model after an evaluation at `id` past the predicate.
    pub open spec fn next(self, id: u32, entropy: u64) -> ConfigModel {
        if self.draws(id) {
            ConfigModel {
                checks: wrapping_add(self.checks, 1),
                failures: if self.verdict(id, entropy) {
                    wrapping_add(self.failures, 1)
                } else {
                    self.failures
                },
                ..self
            }
        } else {
            self
        }
    }

    /// The same policy, whatever the counters.
    pub open spec fn same_policy(self, other: ConfigModel) -> bool {
        &&& self.points == other.points
        &&& self.threshold == other.threshold
        &&& self.period == other.period
        &&& self.seed == other.seed
    }
}

/// Policy deciding when instrumented calls fail, with its counters and hooks.
pub struct FailureConfig {
    enabled_points: Vec<FailurePointId>,
    probability: u32,
    counter: u64,
    trigger_every: u64,
    on_check: Option<Arc<Box<dyn FailureCallback>>>,
    on_failure: Option<Arc<Box<dyn FailureCallback>>>,
    failures_triggered: u64,
    seed: u64,
    predicate: Option<Arc<Box<dyn FailurePredicate>>>,
}

impl View for FailureConfig {
    type V = ConfigModel;

    closed spec fn view(&self) -> ConfigModel {
        ConfigModel {
            points: self.enabled_points@.map_values(|p: FailurePointId| p.0),
            threshold: self.probability,
            period: self.trigger_every,
            seed: self.seed,
            checks: self.counter,
            failures: self.failures_triggered,
        }
    }
}

impl FailureConfig {
    /// The predicate and both hooks may be called.
    pub closed spec fn wf(&self) -> bool {
        &&& (self.predicate matches Some(p) ==> p.callable())
        &&& (self.on_check matches Some(h) ==> forall|fp: FailurePoint| h.callable(fp))
        &&& (self.on_failure matches Some(h) ==> forall|fp: FailurePoint| h.callable(fp))
    }

    /// No predicate is set.
    pub closed spec fn ungated(&self) -> bool {
        self.predicate is None
    }

    /// A predicate is set that never answers `true`.
    pub closed spec fn gate_shut(&self) -> bool {
        self.predicate matches Some(p) && !p.can_allow()
    }

    /// A predicate is set that can answer `false`.
    pub closed spec fn may_deny(&self) -> bool {
        self.predicate matches Some(p) && p.can_deny()
    }

    /// Neither hook is set.
    pub closed spec fn no_hooks(&self) -> bool {
        self.on_check is None && self.on_failure is None
    }

    /// A check hook is set.
    pub closed spec fn has_check_hook(&self) -> bool {
        self.on_check is Some
    }

    /// A failure hook is set.
    pub closed spec fn has_failure_hook(&self) -> bool {
        self.on_failure is Some
    }

    /// Same predicate.
    pub closed spec fn same_predicate(&self, other: &FailureConfig) -> bool {
        self.predicate == other.predicate
    }

    /// Same check hook.
    pub closed spec fn same_check_hook(&self, other: &FailureConfig) -> bool {
        self.on_check == other.on_check
    }

    /// Same failure hook.
    pub closed spec fn same_failure_hook(&self, other: &FailureConfig) -> bool {
        self.on_failure == other.on_failure
    }

    /// Same predicate and hooks.
    pub open spec fn same_hooks(&self, other: &FailureConfig) -> bool {
        &&& self.same_predicate(other)
        &&& self.same_check_hook(other)
        &&& self.same_failure_hook(other)
    }

    /// A configuration with no failures enabled.
    pub fn new() -> (r: FailureConfig)
        ensures
            r@ == ConfigModel::initial(),
            r.wf(),
            r.ungated(),
            r.no_hooks(),
    {
        let r = FailureConfig {
            enabled_points: Vec::new(),
            probability: 0,
            counter: 0,
            trigger_every: 0,
            on_check: None,
            on_failure: None,
            failures_triggered: 0,
            seed: 0,
            predicate: None,
        };
        assert(r@.points =~= Seq::<u32>::empty());
        r
    }

    /// The chaos-monkey preset: fail with probability one tenth.
    pub fn chaos_monkey() -> (r: FailureConfig)
        ensures
            r@ == (ConfigModel { threshold: CHAOS_MONKEY_THRESHOLD, ..ConfigModel::initial() }),
            r.wf(),
            r.ungated(),
            r.no_hooks(),
    {
        FailureConfig::new().with_threshold(CHAOS_MONKEY_THRESHOLD)
    }

    /// The circuit-breaker preset: fail every `failure_threshold`-th call.
    pub fn circuit_breaker(failure_threshold: u64) -> (r: FailureConfig)
        ensures
            r@ == (ConfigModel { period: failure_threshold, ..ConfigModel::initial() }),
            r.wf(),
            r.ungated(),
            r.no_hooks(),
    {
        FailureConfig::new().trigger_every(failure_threshold)
    }

    /// Every point eligible, failing on every evaluation.
    pub fn enable_all() -> (r: FailureConfig)
        ensures
            r@ == (ConfigModel { threshold: u32::MAX, ..ConfigModel::initial() }),
            r.wf(),
            r.ungated(),
            r.no_hooks(),
    {
        let r = FailureConfig {
            enabled_points: Vec::new(),
            probability: u32::MAX,
            counter: 0,
            trigger_every: 0,
            on_check: None,
            on_failure: None,
            failures_triggered: 0,
            seed: 0,
            predicate: None,
        };
        assert(r@.points =~= Seq::<u32>::empty());
        r
    }

    /// Adds `id` to the allow-list: from then on only listed points fail.
    pub fn enable_point(self, id: FailurePointId) -> (r: FailureConfig)
        ensures
            r@ == (ConfigModel { points: self@.points.push(id.0), ..self@ }),
            r.same_hooks(&self),
            r.wf() == self.wf(),
            r.ungated() == self.ungated(),
            r.gate_shut() == self.gate_shut(),
            r.may_deny() == self.may_deny(),
    {
        let mut this = self;
        this.enabled_points.push(id);
        assert(this@.points =~= self@.points.push(id.0));
        this
    }

    /// Sets the probability threshold: an evaluation fails when its 32-bit
    /// draw is below `threshold`.
    pub fn with_threshold(self, threshold: u32) -> (r: FailureConfig)
        ensures
            r@ == (ConfigModel { threshold, ..self@ }),
            r.same_hooks(&self),
            r.wf() == self.wf(),
            r.ungated() == self.ungated(),
            r.gate_shut() == self.gate_shut(),
            r.may_deny() == self.may_deny(),
    {
        let mut this = self;
        this.probability = threshold;
        this
    }

    /// Fails calls 0, n, 2n, ... deterministically; 0 disables it.
    pub fn trigger_every(self, n: u64) -> (r: FailureConfig)
        ensures
            r@ == (ConfigModel { period: n, ..self@ }),
            r.same_hooks(&self),
            r.wf() == self.wf(),
            r.ungated() == self.ungated(),
            r.gate_shut() == self.gate_shut(),
            r.may_deny() == self.may_deny(),
    {
        let mut this = self;
        this.trigger_every = n;
        this
    }

    /// Sets the seed that makes draws reproducible; 0 means unseeded.
    pub fn with_seed(self, seed: u64) -> (r: FailureConfig)
        ensures
            r@ == (ConfigModel { seed, ..self@ }),
            r.same_hooks(&self),
            r.wf() == self.wf(),
            r.ungated() == self.ungated(),
            r.gate_shut() == self.gate_shut(),
            r.may_deny() == self.may_deny(),
    {
        let mut this = self;
        this.seed = seed;
        this
    }

    /// Takes the seed from `text` when it writes an unsigned 64-bit integer
    /// in decimal; keeps the current seed when it does not or is absent.
    pub fn with_seed_text(self, text: Option<&str>) -> (r: FailureConfig)
        ensures
            r@ == (ConfigModel {
                seed: match text {
                    Some(t) => match spec_parse_u64(t.spec_bytes()) {
                        Some(n) => n,
                        None => self@.seed,
                    },
                    None => self@.seed,
                },
                ..self@
            }),
            r.same_hooks(&self),
            r.wf() == self.wf(),
            r.ungated() == self.ungated(),
            r.gate_shut() == self.gate_shut(),
            r.may_deny() == self.may_deny(),
    {
        match text {
            Some(t) => match parse_u64(t) {
                Some(seed) => self.with_seed(seed),
                None => self,
            },
            None => self,
        }
    }

    /// Sets the predicate that must answer `true` for a failure to occur.
    pub fn when<F>(self, predicate: F) -> (r: FailureConfig)
        where
            F: Fn() -> bool + Send + Sync + 'static,
        requires
            predicate.requires(()),
        ensures
            r@ == self@,
            self.wf() ==> r.wf(),
            !r.ungated(),
            r.gate_shut() == !predicate.ensures((), true),
            r.may_deny() == predicate.ensures((), false),
            r.same_check_hook(&self),
            r.same_failure_hook(&self),
    {
        let gate: Box<dyn FailurePredicate> = Box::new(predicate);
        let gate = Arc::new(gate);
        let mut this = self;
        this.predicate = Some(gate);
        this
    }

    /// Sets the hook told of every evaluation.
    pub fn on_check<F>(self, callback: F) -> (r: FailureConfig)
        where
            F: Fn(FailurePoint) + Send + Sync + 'static,
        requires
            forall|fp: FailurePoint| callback.requires((fp,)),
        ensures
            r@ == self@,
            self.wf() ==> r.wf(),
            r.ungated() == self.ungated(),
            r.gate_shut() == self.gate_shut(),
            r.may_deny() == self.may_deny(),
            r.has_check_hook(),
            r.same_predicate(&self),
            r.same_failure_hook(&self),
    {
        let hook: Box<dyn FailureCallback> = Box::new(callback);
        let hook = Arc::new(hook);
        let mut this = self;
        this.on_check = Some(hook);
        this
    }

    /// Sets the hook told of every simulated failure.
    pub fn on_failure<F>(self, callback: F) -> (r: FailureConfig)
        where
            F: Fn(FailurePoint) + Send + Sync + 'static,
        requires
            forall|fp: FailurePoint| callback.requires((fp,)),
        ensures
            r@ == self@,
            self.wf() ==> r.wf(),
            r.ungated() == self.ungated(),
            r.gate_shut() == self.gate_shut(),
            r.may_deny() == self.may_deny(),
            r.has_failure_hook(),
            r.same_predicate(&self),
            r.same_check_hook(&self),
    {
        let hook: Box<dyn FailureCallback> = Box::new(callback);
        let hook = Arc::new(hook);
        let mut this = self;
        this.on_failure = Some(hook);
        this
    }

    /// The counters at the time of the call.
    pub fn stats(&self) -> (r: FailureStats)
        ensures
            r.total_checks == self@.checks,
            r.total_failures == self@.failures,
    {
        FailureStats { total_checks: self.counter, total_failures: self.failures_triggered }
    }

    /// Point `id` passes the allow-list.
    fn is_eligible(&self, id: FailurePointId) -> (r: bool)
        ensures
            r == self@.eligible(id.0),
    {
        let n = self.enabled_points.len();
        if n == 0 {
            return true;
        }
        let mut i: usize = 0;
        while i < n
            invariant
                n == self.enabled_points.len(),
                0 <= i <= n,
                forall|j: int| 0 <= j < i ==> self.enabled_points@[j].0 != id.0,
            decreases n - i,
        {
            if self.enabled_points[i].0 == id.0 {
                assert(self@.points[i as int] == id.0);
                return true;
            }
            i = i + 1;
        }
        assert(!self@.points.contains(id.0)) by {
            if self@.points.contains(id.0) {
                let k = choose|k: int| 0 <= k < self@.points.len() && self@.points[k] == id.0;
                assert(self.enabled_points@[k].0 == id.0);
            }
        }
        false
    }

    /// Evaluation past the predicate: the allow-list, then periodic mode, then
    /// probability. Draws an ordinal in the two modes.
    fn decide(&mut self, id: FailurePointId, entropy: u64) -> (r: bool)
        ensures
            r == old(self)@.verdict(id.0, entropy),
            final(self)@ == old(self)@.drawn(id.0),
            final(self).same_hooks(old(self)),
    {
        if !self.is_eligible(id) {
            return false;
        }
        if self.trigger_every > 0 {
            let count = self.counter;
            self.counter = count.wrapping_add(1);
            return count % self.trigger_every == 0;
        }
        if self.probability > 0 {
            let count = self.counter;
            self.counter = count.wrapping_add(1);
            return self.probability == u32::MAX || draw(id.0, count, self.seed, entropy)
                < self.probability;
        }
        false
    }

    /// The predicate first, then the decision. `entropy` perturbs unseeded
    /// draws.
    fn should_trigger(&mut self, id: FailurePointId, entropy: u64) -> (r: bool)
        requires
            old(self).wf(),
        ensures
            final(self).same_hooks(old(self)),
            old(self).ungated() ==> r == old(self)@.verdict(id.0, entropy) && final(self)@
                == old(self)@.drawn(id.0),
            old(self).gate_shut() ==> !r && final(self)@ == old(self)@,
            (!r && final(self)@ == old(self)@ && old(self).may_deny()) || (r == old(self)@.verdict(id.0, entropy) 
                && final(self)@ == old(self)@.drawn(id.0)),
    {
        if let Some(predicate) = &self.predicate {
            if !predicate.allows() {
                return false;
            }
        }
        self.decide(id, entropy)
    }
}

/// The predicate and hooks of a configuration, shared with it, so that they
/// can be called while the configuration itself is not borrowed.
pub struct FailureHooks {
    predicate: Option<Arc<Box<dyn FailurePredicate>>>,
    on_check: Option<Arc<Box<dyn FailureCallback>>>,
    on_failure: Option<Arc<Box<dyn FailureCallback>>>,
}

/// Relies on std's `Arc::clone`: a new handle to the same value.
#[verifier::external_body]
fn share<T>(a: &Arc<T>) -> (r: Arc<T>)
    ensures
        r == *a,
{
    Arc::clone(a)
}

impl FailureHooks {
    /// The predicate and both hooks may be called.
    pub closed spec fn wf(&self) -> bool {
        &&& (self.predicate matches Some(p) ==> p.callable())
        &&& (self.on_check matches Some(h) ==> forall|fp: FailurePoint| h.callable(fp))
        &&& (self.on_failure matches Some(h) ==> forall|fp: FailurePoint| h.callable(fp))
    }

    /// No predicate is set.
    pub closed spec fn ungated(&self) -> bool {
        self.predicate is None
    }

    /// A predicate is set that never answers `true`.
    pub closed spec fn gate_shut(&self) -> bool {
        self.predicate matches Some(p) && !p.can_allow()
    }

    /// A predicate is set that can answer `false`.
    pub closed spec fn may_deny(&self) -> bool {
        self.predicate matches Some(p) && p.can_deny()
    }

    /// Tells the check hook, if any, of `fp`.
    pub fn notify_check(&self, fp: FailurePoint)
        requires
            self.wf(),
    {
        if let Some(hook) = &self.on_check {
            hook.notify(fp);
        }
    }

    /// Asks the predicate; `true` when there is none.
    pub fn allows(&self) -> (r: bool)
        requires
            self.wf(),
        ensures
            self.ungated() ==> r,
            self.gate_shut() ==> !r,
            !r ==> self.may_deny(),
    {
        match &self.predicate {
            Some(predicate) => predicate.allows(),
            None => true,
        }
    }

    /// Tells the failure hook, if any, of `fp`.
    pub fn notify_failure(&self, fp: FailurePoint)
        requires
            self.wf(),
    {
        if let Some(hook) = &self.on_failure {
            hook.notify(fp);
        }
    }
}

impl FailureConfig {
    /// Shares this configuration's predicate and hooks.
    pub fn hooks(&self) -> (r: FailureHooks)
        requires
            self.wf(),
        ensures
            r.wf(),
            r.ungated() == self.ungated(),
            r.gate_shut() == self.gate_shut(),
            r.may_deny() == self.may_deny(),
    {
        let predicate = match &self.predicate {
            Some(p) => Some(share(p)),
            None => None,
        };
        let on_check = match &self.on_check {
            Some(h) => Some(share(h)),
            None => None,
        };
        let on_failure = match &self.on_failure {
            Some(h) => Some(share(h)),
            None => None,
        };
        FailureHooks { predicate, on_check, on_failure }
    }

    /// Evaluation once the predicate has answered `allowed`: no failure and
    /// nothing counted when it refused; otherwise the decision, with the
    /// ordinal and a failure counted.
    pub fn record(&mut self, id: FailurePointId, allowed: bool, entropy: u64) -> (r: bool)
        requires
            old(self).wf(),
        ensures
            final(self).wf(),
            final(self).same_hooks(old(self)),
            final(self).ungated() == old(self).ungated(),
            final(self).gate_shut() == old(self).gate_shut(),
            final(self).may_deny() == old(self).may_deny(),
            !allowed ==> !r && final(self)@ == old(self)@,
            allowed ==> r == old(self)@.verdict(id.0, entropy) && final(self)@ == old(self)@.next(
                id.0,
                entropy,
            ),
    {
        if !allowed {
            return false;
        }
        let failed = self.decide(id, entropy);
        if failed {
            self.failures_triggered = self.failures_triggered.wrapping_add(1);
        }
        failed
    }
}

impl Default for FailureConfig {
    /// Same as `FailureConfig::new`.
    fn default() -> (r: FailureConfig)
        ensures
            r@ == ConfigModel::initial(),
            r.wf(),
            r.ungated(),
            r.no_hooks(),
    {
        FailureConfig::new()
    }
}

/// Evaluates `config` at the point `fp`: tells the check hook, asks the
/// predicate, decides, counts a failure and tells the failure hook.
/// `entropy` perturbs draws when the configuration has no seed.
pub fn check_and_trigger(config: &mut FailureConfig, fp: FailurePoint, entropy: u64) -> (r: bool)
    requires
        old(config).wf(),
    ensures
        final(config).wf(),
        final(config).same_hooks(old(config)),
        final(config).ungated() == old(config).ungated(),
        final(config).gate_shut() == old(config).gate_shut(),
        final(config).may_deny() == old(config).may_deny(),
        old(config).ungated() ==> r == old(config)@.verdict(fp.id.0, entropy) && final(config)@
            == old(config)@.next(fp.id.0, entropy),
        old(config).gate_shut() ==> !r && final(config)@ == old(config)@,
        (!r && final(config)@ == old(config)@ && old(config).may_deny()) || (r == old(config)@.verdict(fp.id.0, entropy)
            && final(config)@ == old(config)@.next(fp.id.0, entropy)),
{
    if let Some(hook) = &config.on_check {
        hook.notify(fp);
    }
    let should_fail = config.should_trigger(fp.id, entropy);
    if should_fail {
        config.failures_triggered = config.failures_triggered.wrapping_add(1);
        if let Some(hook) = &config.on_failure {
            hook.notify(fp);
        }
    }
    should_fail
}

} // verus!

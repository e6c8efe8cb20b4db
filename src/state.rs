use vstd::prelude::*;

use std::collections::HashMap;

use crate::config::{check_and_trigger, ConfigModel, FailureConfig, FailureHooks, FailureStats};
use crate::point::{FailurePoint, FailurePointId};

verus! {

broadcast use vstd::std_specs::hash::group_hash_axioms;

/// One of the places a configuration can be installed: the process-wide slot
/// or the slot of one thread, named by its key.
#[derive(Copy, Clone, Debug, PartialEq, Eq, Structural)]
pub enum ConfigSlot {
    Global,
    Thread(u64),
}

/// The plain data of a registry: the global slot and the occupied thread
/// slots, by thread key.
pub struct RegistryModel {
    pub global: Option<ConfigModel>,
    pub threads: Map<u64, ConfigModel>,
}

impl RegistryModel {
    /// A registry with every slot empty.
    pub open spec fn empty() -> RegistryModel {
        RegistryModel { global: None, threads: Map::empty() }
    }

    /// The occupant of `slot`.
    pub open spec fn slot(self, slot: ConfigSlot) -> Option<ConfigModel> {
        match slot {
            ConfigSlot::Global => self.global,
            ConfigSlot::Thread(t) => if self.threads.contains_key(t) {
                Some(self.threads[t])
            } else {
                None
            },
        }
    }

    /// The configuration that applies on thread `thread`: its own slot first,
    /// else the global slot.
    pub open spec fn active(self, thread: u64) -> Option<ConfigModel> {
        if self.threads.contains_key(thread) {
            Some(self.threads[thread])
        } else {
            self.global
        }
    }

    /// `config` installed in `slot`, superseding its occupant.
    pub open spec fn install(self, slot: ConfigSlot, config: ConfigModel) -> RegistryModel {
        match slot {
            ConfigSlot::Global => RegistryModel { global: Some(config), ..self },
            ConfigSlot::Thread(t) => RegistryModel { threads: self.threads.insert(t, config), ..self },
        }
    }

    /// `slot` emptied.
    pub open spec fn clear(self, slot: ConfigSlot) -> RegistryModel {
        match slot {
            ConfigSlot::Global => RegistryModel { global: None, ..self },
            ConfigSlot::Thread(t) => RegistryModel { threads: self.threads.remove(t), ..self },
        }
    }

    /// The configuration active on `thread` replaced by `config`, in the slot
    /// it was found in.
    pub open spec fn update_active(self, thread: u64, config: ConfigModel) -> RegistryModel {
        if self.threads.contains_key(thread) {
            self.install(ConfigSlot::Thread(thread), config)
        } else {
            self.install(ConfigSlot::Global, config)
        }
    }
}

/// The slots: one process-wide, one per thread. Each slot owns the
/// configuration installed in it until it is replaced or cleared.
pub struct FailureRegistry {
    global: Option<FailureConfig>,
    threads: HashMap<u64, FailureConfig>,
}

/// Returned by a scoped install: releasing it clears the slot it was made for.
pub struct FailureConfigGuard {
    slot: ConfigSlot,
}

impl View for FailureRegistry {
    type V = RegistryModel;

    closed spec fn view(&self) -> RegistryModel {
        RegistryModel {
            global: match self.global {
                Some(c) => Some(c@),
                None => None,
            },
            threads: self.threads@.map_values(|c: FailureConfig| c@),
        }
    }
}

impl FailureRegistry {
    /// Every installed configuration is well formed.
    pub closed spec fn wf(&self) -> bool {
        &&& (self.global matches Some(c) ==> c.wf())
        &&& forall|t: u64| self.threads@.contains_key(t) ==> (#[trigger] self.threads@[t]).wf()
    }

    /// A registry with every slot empty.
    pub fn new() -> (r: FailureRegistry)
        ensures
            r@ == RegistryModel::empty(),
            r.wf(),
    {
        let r = FailureRegistry { global: None, threads: HashMap::new() };
        assert(r@.threads =~= Map::<u64, ConfigModel>::empty());
        r
    }
}

impl FailureConfigGuard {
    /// The slot this guard clears.
    pub closed spec fn spec_slot(&self) -> ConfigSlot {
        self.slot
    }

    /// The slot this guard clears.
    pub fn slot(&self) -> (r: ConfigSlot)
        ensures
            r == self.spec_slot(),
    {
        self.slot
    }
}

impl FailureRegistry {
    /// The configuration installed in `slot`, if any.
    pub closed spec fn slot_config(&self, slot: ConfigSlot) -> Option<FailureConfig> {
        match slot {
            ConfigSlot::Global => self.global,
            ConfigSlot::Thread(t) => if self.threads@.contains_key(t) {
                Some(self.threads@[t])
            } else {
                None
            },
        }
    }

    /// `slot` holds a configuration with no predicate.
    pub closed spec fn slot_ungated(&self, slot: ConfigSlot) -> bool {
        self.slot_config(slot) matches Some(c) && c.ungated()
    }

    /// `slot` holds a configuration whose predicate never answers `true`.
    pub closed spec fn slot_gate_shut(&self, slot: ConfigSlot) -> bool {
        self.slot_config(slot) matches Some(c) && c.gate_shut()
    }

    /// `slot` holds a configuration whose predicate can answer `false`.
    pub closed spec fn slot_may_deny(&self, slot: ConfigSlot) -> bool {
        self.slot_config(slot) matches Some(c) && c.may_deny()
    }

    /// The configuration active on `thread` has no predicate.
    pub open spec fn ungated_on(&self, thread: u64) -> bool {
        if self@.threads.contains_key(thread) {
            self.slot_ungated(ConfigSlot::Thread(thread))
        } else {
            self.slot_ungated(ConfigSlot::Global)
        }
    }

    /// The configuration active on `thread` has a predicate that never
    /// answers `true`.
    pub open spec fn gate_shut_on(&self, thread: u64) -> bool {
        if self@.threads.contains_key(thread) {
            self.slot_gate_shut(ConfigSlot::Thread(thread))
        } else {
            self.slot_gate_shut(ConfigSlot::Global)
        }
    }

    /// The configuration active on `thread` has a predicate that can answer
    /// `false`.
    pub open spec fn may_deny_on(&self, thread: u64) -> bool {
        if self@.threads.contains_key(thread) {
            self.slot_may_deny(ConfigSlot::Thread(thread))
        } else {
            self.slot_may_deny(ConfigSlot::Global)
        }
    }

    /// Slots other than `slot` hold configurations gated as in `other`.
    pub open spec fn gates_kept_except(&self, other: &FailureRegistry, slot: ConfigSlot) -> bool {
        &&& forall|s: ConfigSlot| s != slot ==> #[trigger] self.slot_ungated(s) == other.slot_ungated(s)
        &&& forall|s: ConfigSlot| s != slot ==> #[trigger] self.slot_gate_shut(s) == other.slot_gate_shut(s)
        &&& forall|s: ConfigSlot| s != slot ==> #[trigger] self.slot_may_deny(s) == other.slot_may_deny(s)
    }
}

/// Installs `config` in the global slot, releasing what was there.
pub fn configure_failures(registry: &mut FailureRegistry, config: FailureConfig)
    requires
        old(registry).wf(),
        config.wf(),
    ensures
        final(registry).wf(),
        final(registry)@ == old(registry)@.install(ConfigSlot::Global, config@),
        final(registry).gates_kept_except(old(registry), ConfigSlot::Global),
        final(registry).slot_ungated(ConfigSlot::Global) == config.ungated(),
        final(registry).slot_gate_shut(ConfigSlot::Global) == config.gate_shut(),
        final(registry).slot_may_deny(ConfigSlot::Global) == config.may_deny(),
{
    registry.global = Some(config);
}

/// Empties the global slot, releasing what was there.
pub fn clear_failure_config(registry: &mut FailureRegistry)
    requires
        old(registry).wf(),
    ensures
        final(registry).wf(),
        final(registry)@ == old(registry)@.clear(ConfigSlot::Global),
        final(registry).gates_kept_except(old(registry), ConfigSlot::Global),
{
    registry.global = None;
}

/// Installs `config` in the slot of thread `thread`, releasing what was
/// there. Other threads are not affected.
pub fn configure_thread_failures(registry: &mut FailureRegistry, thread: u64, config: FailureConfig)
    requires
        old(registry).wf(),
        config.wf(),
    ensures
        final(registry).wf(),
        final(registry)@ == old(registry)@.install(ConfigSlot::Thread(thread), config@),
        final(registry).gates_kept_except(old(registry), ConfigSlot::Thread(thread)),
        final(registry).slot_ungated(ConfigSlot::Thread(thread)) == config.ungated(),
        final(registry).slot_gate_shut(ConfigSlot::Thread(thread)) == config.gate_shut(),
        final(registry).slot_may_deny(ConfigSlot::Thread(thread)) == config.may_deny(),
{
    let ghost m = config@;
    registry.threads.insert(thread, config);
    assert(registry@.threads =~= old(registry)@.threads.insert(thread, m));
}

/// Empties the slot of thread `thread`, releasing what was there.
pub fn clear_thread_failure_config(registry: &mut FailureRegistry, thread: u64)
    requires
        old(registry).wf(),
    ensures
        final(registry).wf(),
        final(registry)@ == old(registry)@.clear(ConfigSlot::Thread(thread)),
        final(registry).gates_kept_except(old(registry), ConfigSlot::Thread(thread)),
{
    registry.threads.remove(&thread);
    assert(registry@.threads =~= old(registry)@.threads.remove(thread));
}

/// Installs `config` in the global slot; the guard clears that slot.
pub fn with_config(registry: &mut FailureRegistry, config: FailureConfig) -> (r: FailureConfigGuard)
    requires
        old(registry).wf(),
        config.wf(),
    ensures
        final(registry).wf(),
        final(registry)@ == old(registry)@.install(ConfigSlot::Global, config@),
        r.spec_slot() == ConfigSlot::Global,
        final(registry).gates_kept_except(old(registry), ConfigSlot::Global),
        final(registry).slot_ungated(ConfigSlot::Global) == config.ungated(),
        final(registry).slot_gate_shut(ConfigSlot::Global) == config.gate_shut(),
        final(registry).slot_may_deny(ConfigSlot::Global) == config.may_deny(),
{
    configure_failures(registry, config);
    FailureConfigGuard { slot: ConfigSlot::Global }
}

/// Installs `config` in the slot of thread `thread`; the guard clears that
/// slot.
pub fn with_thread_config(registry: &mut FailureRegistry, thread: u64, config: FailureConfig) -> (r:
    FailureConfigGuard)
    requires
        old(registry).wf(),
        config.wf(),
    ensures
        final(registry).wf(),
        final(registry)@ == old(registry)@.install(ConfigSlot::Thread(thread), config@),
        r.spec_slot() == ConfigSlot::Thread(thread),
        final(registry).gates_kept_except(old(registry), ConfigSlot::Thread(thread)),
        final(registry).slot_ungated(ConfigSlot::Thread(thread)) == config.ungated(),
        final(registry).slot_gate_shut(ConfigSlot::Thread(thread)) == config.gate_shut(),
        final(registry).slot_may_deny(ConfigSlot::Thread(thread)) == config.may_deny(),
{
    configure_thread_failures(registry, thread, config);
    FailureConfigGuard { slot: ConfigSlot::Thread(thread) }
}

impl FailureConfigGuard {
    /// Clears the slot this guard was made for, whatever it holds now.
    pub fn release(self, registry: &mut FailureRegistry)
        requires
            old(registry).wf(),
        ensures
            final(registry).wf(),
            final(registry)@ == old(registry)@.clear(self.spec_slot()),
            final(registry).gates_kept_except(old(registry), self.spec_slot()),
    {
        match self.slot {
            ConfigSlot::Global => clear_failure_config(registry),
            ConfigSlot::Thread(t) => clear_thread_failure_config(registry, t),
        }
    }
}

/// Whether the call at `fp` on thread `thread` fails: the thread's own
/// configuration decides, else the global one; with neither, it never fails.
/// `entropy` perturbs unseeded draws.
pub fn should_simulate_failure(
    registry: &mut FailureRegistry,
    thread: u64,
    fp: FailurePoint,
    entropy: u64,
) -> (r: bool)
    requires
        old(registry).wf(),
    ensures
        final(registry).wf(),
        match old(registry)@.active(thread) {
            None => !r && final(registry)@ == old(registry)@,
            Some(c) => (!r && final(registry)@ == old(registry)@ && old(registry).may_deny_on(thread))
                || (r == c.verdict(fp.id.0, entropy)
                && final(registry)@ == old(registry)@.update_active(thread, c.next(fp.id.0, entropy))),
        },
        old(registry).ungated_on(thread) ==> r == old(registry)@.active(thread).unwrap().verdict(
            fp.id.0,
            entropy,
        ) && final(registry)@ == old(registry)@.update_active(
            thread,
            old(registry)@.active(thread).unwrap().next(fp.id.0, entropy),
        ),
        old(registry).gate_shut_on(thread) ==> !r && final(registry)@ == old(registry)@,
        forall|s: ConfigSlot| #[trigger] final(registry).slot_ungated(s) == old(registry).slot_ungated(s),
        forall|s: ConfigSlot| #[trigger] final(registry).slot_gate_shut(s) == old(registry).slot_gate_shut(s),
        forall|s: ConfigSlot| #[trigger] final(registry).slot_may_deny(s) == old(registry).slot_may_deny(s),
{
    let local = registry.threads.remove(&thread);
    match local {
        Some(config) => {
            assert(old(registry).threads@.contains_key(thread));
            assert(config == old(registry).threads@[thread]);
            assert(old(registry).slot_config(ConfigSlot::Thread(thread)) == Some(config));
            let mut config = config;
            let r = check_and_trigger(&mut config, fp, entropy);
            let ghost m = config@;
            registry.threads.insert(thread, config);
            assert(registry@.threads =~= old(registry)@.threads.insert(thread, m));
            assert(old(registry)@.threads[thread] == old(registry)@.active(thread).unwrap());
            proof {
                if m == old(registry)@.threads[thread] {
                    assert(old(registry)@.threads.insert(thread, m) =~= old(registry)@.threads);
                }
            }
            r
        },
        None => {
            assert(registry@.threads =~= old(registry)@.threads);
            assert(!old(registry).threads@.contains_key(thread));
            
            let global = registry.global.take();
            match global {
                Some(config) => {
                    let mut config = config;
                    let r = check_and_trigger(&mut config, fp, entropy);
                    registry.global = Some(config);
                    r
                },
                None => false,
            }
        },
    }
}

/// The predicate and hooks of the configuration active on `thread`, shared,
/// or `None` when no configuration applies there.
pub fn active_hooks(registry: &FailureRegistry, thread: u64) -> (r: Option<FailureHooks>)
    requires
        registry.wf(),
    ensures
        r is None <==> registry@.active(thread) is None,
        r matches Some(h) ==> {
            &&& h.wf()
            &&& h.ungated() == registry.ungated_on(thread)
            &&& h.gate_shut() == registry.gate_shut_on(thread)
            &&& h.may_deny() == registry.may_deny_on(thread)
        },
{
    match registry.threads.get(&thread) {
        Some(config) => Some(config.hooks()),
        None => match &registry.global {
            Some(config) => Some(config.hooks()),
            None => None,
        },
    }
}

/// Evaluates the configuration active on `thread` at point `id` once its
/// predicate has answered `allowed`; with no configuration it never fails.
pub fn record_active(
    registry: &mut FailureRegistry,
    thread: u64,
    id: FailurePointId,
    allowed: bool,
    entropy: u64,
) -> (r: bool)
    requires
        old(registry).wf(),
    ensures
        final(registry).wf(),
        match old(registry)@.active(thread) {
            None => !r && final(registry)@ == old(registry)@,
            Some(c) => if allowed {
                r == c.verdict(id.0, entropy) && final(registry)@ == old(registry)@.update_active(
                    thread,
                    c.next(id.0, entropy),
                )
            } else {
                !r && final(registry)@ == old(registry)@
            },
        },
        forall|s: ConfigSlot| #[trigger] final(registry).slot_ungated(s) == old(registry).slot_ungated(s),
        forall|s: ConfigSlot| #[trigger] final(registry).slot_gate_shut(s) == old(registry).slot_gate_shut(s),
        forall|s: ConfigSlot| #[trigger] final(registry).slot_may_deny(s) == old(registry).slot_may_deny(s),
{
    let local = registry.threads.remove(&thread);
    match local {
        Some(config) => {
            assert(old(registry).threads@.contains_key(thread));
            assert(config == old(registry).threads@[thread]);
            let mut config = config;
            let r = config.record(id, allowed, entropy);
            let ghost m = config@;
            registry.threads.insert(thread, config);
            assert(registry@.threads =~= old(registry)@.threads.insert(thread, m));
            assert(old(registry)@.threads[thread] == old(registry)@.active(thread).unwrap());
            proof {
                if m == old(registry)@.threads[thread] {
                    assert(old(registry)@.threads.insert(thread, m) =~= old(registry)@.threads);
                }
            }
            r
        },
        None => {
            assert(registry@.threads =~= old(registry)@.threads);
            let global = registry.global.take();
            match global {
                Some(config) => {
                    let mut config = config;
                    let r = config.record(id, allowed, entropy);
                    registry.global = Some(config);
                    r
                },
                None => false,
            }
        },
    }
}

/// The counters of the configuration active on `thread`, or `None` when no
/// configuration applies there.
pub fn get_failure_stats(registry: &FailureRegistry, thread: u64) -> (r: Option<FailureStats>)
    ensures
        match registry@.active(thread) {
            None => r is None,
            Some(c) => r matches Some(s) && s.total_checks == c.checks && s.total_failures
                == c.failures,
        },
{
    match registry.threads.get(&thread) {
        Some(config) => Some(config.stats()),
        None => match &registry.global {
            Some(config) => Some(config.stats()),
            None => None,
        },
    }
}

} // verus!

//! The Coordinator: owner of the Registry of Poller handles, of the
//! ApiService and Publisher handles, and of the restart policy.
//!
//! Handles are identified here by the order in which they were handed out: a
//! fresh spawn always receives an identifier no earlier unit ever held, so
//! "distinct handle" is provable. Liveness is not polled eagerly; the host
//! observes each handle's channel at health-check time and passes the
//! observations in.
use vstd::prelude::*;

use crate::settings::Settings;
use crate::system::messages::DeviceUsageMessage;

verus! {

/// The fixed interval of the Coordinator's health-check timer, in seconds.
pub const HEALTH_CHECK_INTERVAL_S: u64 = 60;

/// The supervision status of one managed unit, as observed at health-check
/// time: no handle yet, a handle whose channel is open, or a handle whose
/// channel is closed.
#[derive(Debug)]
pub enum UnitStatus {
    Absent,
    Running,
    Dead,
}

/// The status that a Registry slot and a liveness observation amount to.
pub open spec fn spec_unit_status(slot: Option<u64>, live: bool) -> UnitStatus {
    match slot {
        None => UnitStatus::Absent,
        Some(_) => if live {
            UnitStatus::Running
        } else {
            UnitStatus::Dead
        },
    }
}

/// A unit is (re)spawned exactly when it is not Running: Absent and Dead are
/// both treated as "needs (re)creation".
pub open spec fn spec_needs_spawn(slot: Option<u64>, live: bool) -> bool {
    !(spec_unit_status(slot, live) is Running)
}

fn needs_spawn(slot: &Option<u64>, live: bool) -> (b: bool)
    ensures
        b == spec_needs_spawn(*slot, live),
{
    match slot {
        None => true,
        Some(_) => !live,
    }
}

/// How many of the Registry slots before `i` a health-check tick respawns.
pub open spec fn respawns_before(reg: Seq<Option<u64>>, live: Seq<bool>, i: int) -> int
    decreases i,
{
    if i <= 0 {
        0
    } else {
        respawns_before(reg, live, i - 1) + (if spec_needs_spawn(reg[i - 1], live[i - 1]) {
            1int
        } else {
            0int
        })
    }
}

/// The first handle identifier the tick hands to a Poller: the identifiers
/// before it go to the ApiService and the Publisher where they were found
/// dead.
pub open spec fn base_after_tick(next_handle: int, api_live: bool, mqtt_live: bool) -> int {
    next_handle + (if api_live {
        0int
    } else {
        1int
    }) + (if mqtt_live {
        0int
    } else {
        1int
    })
}

/// The handle that Registry slot `i` holds after a health-check tick: the old
/// handle where it was observed live, the next fresh identifier otherwise.
pub open spec fn slot_after_tick(reg: Seq<Option<u64>>, live: Seq<bool>, base: int, i: int) -> int {
    if spec_needs_spawn(reg[i], live[i]) {
        base + respawns_before(reg, live, i)
    } else {
        reg[i]->0 as int
    }
}

pub proof fn lemma_respawns_before_bounds(reg: Seq<Option<u64>>, live: Seq<bool>, i: int, j: int)
    requires
        0 <= i <= j,
    ensures
        respawns_before(reg, live, i) <= respawns_before(reg, live, j) <= respawns_before(
            reg,
            live,
            i,
        ) + (j - i),
    decreases j - i,
{
    if i < j {
        lemma_respawns_before_bounds(reg, live, i, j - 1);
    }
}

pub proof fn lemma_respawns_before_strict(reg: Seq<Option<u64>>, live: Seq<bool>, i: int, j: int)
    requires
        0 <= i < j,
        spec_needs_spawn(reg[i], live[i]),
    ensures
        respawns_before(reg, live, i) < respawns_before(reg, live, j),
{
    assert(respawns_before(reg, live, i + 1) == respawns_before(reg, live, i) + 1);
    lemma_respawns_before_bounds(reg, live, i + 1, j);
}

proof fn lemma_tick_slots(reg: Seq<Option<u64>>, live: Seq<bool>, base: int)
    requires
        live.len() == reg.len(),
        forall|j: int| 0 <= j < reg.len() && reg[j] is Some ==> (reg[j]->0 as int) < base,
        forall|p: int, q: int|
            0 <= p < q < reg.len() && reg[p] is Some && reg[q] is Some ==> reg[p]->0 != reg[q]->0,
    ensures
        forall|i: int|
            0 <= i < reg.len() ==> slot_after_tick(reg, live, base, i) < base + respawns_before(
                reg,
                live,
                reg.len() as int,
            ),
        forall|i: int|
            0 <= i < reg.len() && spec_needs_spawn(reg[i], live[i]) ==> slot_after_tick(
                reg,
                live,
                base,
                i,
            ) >= base,
        forall|p: int, q: int|
            0 <= p < q < reg.len() ==> slot_after_tick(reg, live, base, p) != slot_after_tick(
                reg,
                live,
                base,
                q,
            ),
{
    assert forall|i: int| 0 <= i < reg.len() implies slot_after_tick(reg, live, base, i) < base
        + respawns_before(reg, live, reg.len() as int) by {
        if spec_needs_spawn(reg[i], live[i]) {
            lemma_respawns_before_strict(reg, live, i, reg.len() as int);
        } else {
            lemma_respawns_before_bounds(reg, live, 0, reg.len() as int);
        }
    }
    assert forall|i: int|
        0 <= i < reg.len() && spec_needs_spawn(reg[i], live[i]) implies slot_after_tick(
        reg,
        live,
        base,
        i,
    ) >= base by {
        lemma_respawns_before_bounds(reg, live, 0, i);
    }
    assert forall|p: int, q: int| 0 <= p < q < reg.len() implies slot_after_tick(reg, live, base, p)
        != slot_after_tick(reg, live, base, q) by {
        let np = spec_needs_spawn(reg[p], live[p]);
        let nq = spec_needs_spawn(reg[q], live[q]);
        if np && nq {
            lemma_respawns_before_strict(reg, live, p, q);
        } else if np && !nq {
            lemma_respawns_before_bounds(reg, live, 0, p);
        } else if !np && nq {
            lemma_respawns_before_bounds(reg, live, 0, q);
        }
    }
}

/// One Poller spawn ordered by a health-check tick: which configured device,
/// and the fresh handle its slot now holds.
#[derive(Debug)]
pub struct SpawnPoller {
    pub device_index: usize,
    pub handle: u64,
}

/// The spawns a health-check tick orders for the Registry slots before `i`:
/// one entry per slot not observed Running, in slot order, each carrying the
/// fresh handle that slot receives.
pub open spec fn spawn_list(reg: Seq<Option<u64>>, live: Seq<bool>, base: int, i: int) -> Seq<
    SpawnPoller,
>
    decreases i,
{
    if i <= 0 {
        Seq::empty()
    } else if spec_needs_spawn(reg[i - 1], live[i - 1]) {
        spawn_list(reg, live, base, i - 1).push(
            SpawnPoller {
                device_index: (i - 1) as usize,
                handle: (base + respawns_before(reg, live, i - 1)) as u64,
            },
        )
    } else {
        spawn_list(reg, live, base, i - 1)
    }
}

/// What the spawn list contains: one entry per slot that needs a spawn, in
/// slot order, the entry of slot `j` standing at position
/// `respawns_before(reg, live, j)` and carrying that slot's fresh handle.
pub proof fn lemma_spawn_list_props(reg: Seq<Option<u64>>, live: Seq<bool>, base: int, i: int)
    requires
        0 <= i <= reg.len(),
        live.len() == reg.len(),
        reg.len() <= usize::MAX,
    ensures
        spawn_list(reg, live, base, i).len() == respawns_before(reg, live, i),
        forall|k: int|
            0 <= k < spawn_list(reg, live, base, i).len()
                ==> #[trigger] spawn_list(reg, live, base, i)[k].device_index < i
                && spec_needs_spawn(
                reg[spawn_list(reg, live, base, i)[k].device_index as int],
                live[spawn_list(reg, live, base, i)[k].device_index as int],
            ) && k == respawns_before(reg, live, spawn_list(reg, live, base, i)[k].device_index as int)
                && spawn_list(reg, live, base, i)[k].handle == (base + k) as u64,
        forall|j: int|
            0 <= j < i && spec_needs_spawn(reg[j], live[j]) ==> spawn_list(
                reg,
                live,
                base,
                i,
            )[respawns_before(reg, live, j)].device_index == j,
    decreases i,
{
    if i > 0 {
        lemma_spawn_list_props(reg, live, base, i - 1);
        let prev = spawn_list(reg, live, base, i - 1);
        let cur = spawn_list(reg, live, base, i);
        if spec_needs_spawn(reg[i - 1], live[i - 1]) {
            assert(cur == prev.push(
                SpawnPoller {
                    device_index: (i - 1) as usize,
                    handle: (base + respawns_before(reg, live, i - 1)) as u64,
                },
            ));
        } else {
            assert(cur == prev);
        }
        assert forall|k: int|
            0 <= k < cur.len() implies #[trigger] cur[k].device_index < i && spec_needs_spawn(
            reg[cur[k].device_index as int],
            live[cur[k].device_index as int],
        ) && k == respawns_before(reg, live, cur[k].device_index as int) && cur[k].handle == (base
            + k) as u64 by {
            if k < prev.len() {
                assert(cur[k] == prev[k]);
            }
        }
        assert forall|j: int|
            0 <= j < i && spec_needs_spawn(reg[j], live[j]) implies cur[respawns_before(
            reg,
            live,
            j,
        )].device_index == j by {
            if j < i - 1 {
                lemma_respawns_before_bounds(reg, live, 0, j);
                lemma_respawns_before_strict(reg, live, j, i - 1);
                assert(cur[respawns_before(reg, live, j)] == prev[respawns_before(reg, live, j)]);
            }
        }
    }
}

/// What a health-check tick orders the host to do: respawn the ApiService or
/// the Publisher where their handle was dead, and spawn one fresh Poller per
/// listed device slot.
#[derive(Debug)]
pub struct TickActions {
    pub respawn_api: bool,
    pub respawn_mqtt: bool,
    pub spawn_pollers: Vec<SpawnPoller>,
}

/// The supervisor's state: the immutable configuration, the ApiService and
/// Publisher handles, the Registry (one slot per configured device, in
/// configuration order), and the next fresh handle identifier.
#[derive(Debug)]
pub struct CoordinatorActor {
    pub settings: Settings,
    pub api_handle: u64,
    pub mqtt_handle: u64,
    pub registry: Vec<Option<u64>>,
    pub next_handle: u64,
}

impl CoordinatorActor {
    pub open spec fn device_count(&self) -> nat {
        self.settings.devices@.len()
    }

    /// Every handle the Coordinator holds was handed out before `next_handle`.
    pub open spec fn handles_bounded(&self) -> bool {
        &&& self.api_handle < self.next_handle
        &&& self.mqtt_handle < self.next_handle
        &&& forall|i: int|
            0 <= i < self.registry@.len() && self.registry@[i] is Some
                ==> self.registry@[i]->0 < self.next_handle
    }

    /// No two units share a handle; in particular the Registry never holds
    /// the same Poller handle in two slots.
    pub open spec fn handles_distinct(&self) -> bool {
        &&& self.api_handle != self.mqtt_handle
        &&& forall|i: int|
            0 <= i < self.registry@.len() && self.registry@[i] is Some ==> self.registry@[i]->0
                != self.api_handle && self.registry@[i]->0 != self.mqtt_handle
        &&& forall|i: int, j: int|
            0 <= i < j < self.registry@.len() && self.registry@[i] is Some
                && self.registry@[j] is Some ==> self.registry@[i]->0 != self.registry@[j]->0
    }

    pub open spec fn wf(&self) -> bool {
        &&& self.settings.wf()
        &&& self.registry@.len() == self.settings.devices@.len()
        &&& self.handles_bounded()
        &&& self.handles_distinct()
    }

    /// Starts the supervision state. The Publisher and the ApiService exist
    /// from startup; the Registry starts empty, every device Absent, so the
    /// first health-check tick spawns all Pollers.
    pub fn new(settings: Settings) -> (c: Self)
        requires
            settings.wf(),
        ensures
            c.wf(),
            c.settings == settings,
            c.mqtt_handle == 0,
            c.api_handle == 1,
            c.next_handle == 2,
            c.registry@.len() == settings.devices@.len(),
            forall|i: int| 0 <= i < c.registry@.len() ==> c.registry@[i] is None,
    {
        let n = settings.devices.len();
        let mut registry: Vec<Option<u64>> = Vec::new();
        let mut i: usize = 0;
        while i < n
            invariant
                i <= n,
                registry@.len() == i,
                forall|j: int| 0 <= j < i ==> registry@[j] is None,
            decreases n - i,
        {
            registry.push(None);
            i = i + 1;
        }
        CoordinatorActor { settings, api_handle: 1, mqtt_handle: 0, registry, next_handle: 2 }
    }

    /// One health-check tick. `api_live`, `mqtt_live` and `poller_live[i]`
    /// are the host's observations of the handles' channels; an observation
    /// for a slot without a handle is ignored. Every unit not observed
    /// Running is respawned with a fresh handle, the prior handle being
    /// discarded; live units are left untouched, so a tick with nothing dead
    /// performs no work. The returned actions name exactly the spawns the
    /// host must perform.
    #[verifier::loop_isolation(false)]
    #[verifier::rlimit(60)]
    pub fn on_health_check_tick(
        &mut self,
        api_live: bool,
        mqtt_live: bool,
        poller_live: &Vec<bool>,
    ) -> (actions: TickActions)
        requires
            old(self).wf(),
            poller_live@.len() == old(self).device_count(),
            old(self).next_handle + old(self).device_count() + 2 <= u64::MAX,
        ensures
            final(self).wf(),
            final(self).settings == old(self).settings,
            final(self).registry@.len() == old(self).registry@.len(),
            final(self).api_handle == (if api_live {
                old(self).api_handle as int
            } else {
                old(self).next_handle as int
            }),
            final(self).mqtt_handle == (if mqtt_live {
                old(self).mqtt_handle as int
            } else {
                base_after_tick(old(self).next_handle as int, api_live, true)
            }),
            forall|i: int| 0 <= i < final(self).registry@.len() ==> final(self).registry@[i] is Some,
            forall|i: int|
                0 <= i < final(self).registry@.len() ==> final(self).registry@[i]->0
                    == slot_after_tick(
                    old(self).registry@,
                    poller_live@,
                    base_after_tick(old(self).next_handle as int, api_live, mqtt_live),
                    i,
                ),
            final(self).next_handle == base_after_tick(
                old(self).next_handle as int,
                api_live,
                mqtt_live,
            ) + respawns_before(
                old(self).registry@,
                poller_live@,
                old(self).registry@.len() as int,
            ),
            actions.respawn_api == !api_live,
            actions.respawn_mqtt == !mqtt_live,
            actions.spawn_pollers@ == spawn_list(
                old(self).registry@,
                poller_live@,
                base_after_tick(old(self).next_handle as int, api_live, mqtt_live),
                old(self).registry@.len() as int,
            ),
    {
        let mut next = self.next_handle;
        if !api_live {
            self.api_handle = next;
            next = next + 1;
        }
        if !mqtt_live {
            self.mqtt_handle = next;
            next = next + 1;
        }
        assert(next == base_after_tick(old(self).next_handle as int, api_live, mqtt_live));
        let spawned = Self::respawn_dead_pollers(&mut self.registry, poller_live, next);
        proof {
            lemma_respawns_before_bounds(
                old(self).registry@,
                poller_live@,
                0,
                old(self).registry@.len() as int,
            );
        }
        self.next_handle = next + (spawned.len() as u64);
        proof {
            let oldreg = old(self).registry@;
            let lv = poller_live@;
            let b = next as int;
            lemma_tick_slots(oldreg, lv, b);
            assert forall|p: int|
                0 <= p < self.registry@.len() && self.registry@[p] is Some implies self.registry@[p]->0
                < self.next_handle && self.registry@[p]->0 != self.api_handle
                && self.registry@[p]->0 != self.mqtt_handle by {
                assert(self.registry@[p]->0 == slot_after_tick(oldreg, lv, b, p));
            }
            assert forall|p: int, q: int|
                0 <= p < q < self.registry@.len() && self.registry@[p] is Some
                    && self.registry@[q] is Some implies self.registry@[p]->0
                != self.registry@[q]->0 by {
                assert(self.registry@[p]->0 == slot_after_tick(oldreg, lv, b, p));
                assert(self.registry@[q]->0 == slot_after_tick(oldreg, lv, b, q));
            }
        }
        TickActions { respawn_api: !api_live, respawn_mqtt: !mqtt_live, spawn_pollers: spawned }
    }

    /// The per-device half of a health-check tick: walks the Registry in
    /// configuration order and replaces every slot not observed Running with
    /// the next fresh handle, counting up from `base`.
    #[verifier::loop_isolation(false)]
    fn respawn_dead_pollers(
        registry: &mut Vec<Option<u64>>,
        poller_live: &Vec<bool>,
        base: u64,
    ) -> (spawned: Vec<SpawnPoller>)
        requires
            old(registry)@.len() == poller_live@.len(),
            base + old(registry)@.len() <= u64::MAX,
        ensures
            final(registry)@.len() == old(registry)@.len(),
            forall|i: int| 0 <= i < final(registry)@.len() ==> final(registry)@[i] is Some,
            forall|i: int|
                0 <= i < final(registry)@.len() ==> final(registry)@[i]->0 == slot_after_tick(
                    old(registry)@,
                    poller_live@,
                    base as int,
                    i,
                ),
            spawned@ == spawn_list(
                old(registry)@,
                poller_live@,
                base as int,
                old(registry)@.len() as int,
            ),
            spawned@.len() == respawns_before(
                old(registry)@,
                poller_live@,
                old(registry)@.len() as int,
            ),
    {
        let ghost oldreg: Seq<Option<u64>> = registry@;
        let mut spawned: Vec<SpawnPoller> = Vec::new();
        let mut next = base;
        let n = registry.len();
        let mut i: usize = 0;
        while i < n
            invariant
                i <= n,
                registry@.len() == n,
                next == base + respawns_before(oldreg, poller_live@, i as int),
                forall|j: int| 0 <= j < i ==> registry@[j] is Some,
                forall|j: int|
                    0 <= j < i ==> registry@[j]->0 == slot_after_tick(
                        oldreg,
                        poller_live@,
                        base as int,
                        j,
                    ),
                forall|j: int| i <= j < n ==> registry@[j] == oldreg[j],
                spawned@.len() == respawns_before(oldreg, poller_live@, i as int),
                spawned@ == spawn_list(oldreg, poller_live@, base as int, i as int),
            decreases n - i,
        {
            proof {
                lemma_respawns_before_bounds(oldreg, poller_live@, 0, i as int);
            }
            let ghost ii = i as int;
            let ghost regpre = registry@;
            let slot = registry[i];
            if needs_spawn(&slot, poller_live[i]) {
                let h = next;
                next = next + 1;
                registry.set(i, Some(h));
                spawned.push(SpawnPoller { device_index: i, handle: h });
            }
            proof {
                assert(registry@[ii] is Some && registry@[ii]->0 == slot_after_tick(
                    oldreg,
                    poller_live@,
                    base as int,
                    ii,
                ));
                assert forall|j: int|
                    0 <= j < ii + 1 implies registry@[j] is Some && registry@[j]->0
                    == slot_after_tick(oldreg, poller_live@, base as int, j) by {
                    if j != ii {
                        assert(registry@[j] == regpre[j]);
                        assert(regpre[j] is Some);
                    }
                }
                assert(next == base + respawns_before(oldreg, poller_live@, ii + 1));
                assert(spawned@ =~= spawn_list(oldreg, poller_live@, base as int, ii + 1));
            }
            i = i + 1;
        }
        spawned
    }

    /// Relays one usage message toward the Publisher. The forwarded message
    /// is the received one: same device identity, same usage values. If the
    /// Publisher's channel then rejects the send, the host logs and drops the
    /// message; the Coordinator buffers nothing and retries nothing, as the
    /// shared borrow of `self` already shows.
    pub fn on_usage_message(&self, msg: DeviceUsageMessage) -> (fwd: DeviceUsageMessage)
        ensures
            fwd == msg,
    {
        msg
    }
}

/// Law: the Registry is keyed by device address — its slots follow the
/// configuration order and no two configured devices share an address, so a
/// handle held in one slot belongs to exactly one address. Together with
/// `lemma_dead_handle_replaced`'s slot distinctness this rules out two live
/// handles for one address.
pub proof fn lemma_one_slot_per_address(s: Settings, i: int, j: int)
    requires
        s.wf(),
        0 <= i < j < s.devices@.len(),
    ensures
        s.devices@[i].ip_address@ != s.devices@[j].ip_address@,
{
}

/// Law: a health-check tick is idempotent — when every unit is observed
/// Running, the tick keeps every Registry slot's handle and orders no spawn.
pub proof fn lemma_tick_idempotent(reg: Seq<Option<u64>>, live: Seq<bool>, base: int, i: int)
    requires
        0 <= i <= reg.len(),
        live.len() == reg.len(),
        forall|j: int| 0 <= j < reg.len() ==> reg[j] is Some,
        forall|j: int| 0 <= j < reg.len() ==> live[j],
    ensures
        respawns_before(reg, live, i) == 0,
        spawn_list(reg, live, base, i) == Seq::<SpawnPoller>::empty(),
        forall|j: int| 0 <= j < i ==> slot_after_tick(reg, live, base, j) == reg[j]->0,
    decreases i,
{
    if i > 0 {
        lemma_tick_idempotent(reg, live, base, i - 1);
    }
}

/// Law: after a health-check tick, every Registry slot — one per configured
/// device — holds a live handle: a slot keeps its handle exactly where that
/// handle was observed live, and every other slot receives a handle that no
/// unit held before the tick.
pub proof fn lemma_tick_registry_live(reg: Seq<Option<u64>>, live: Seq<bool>, base: int)
    requires
        live.len() == reg.len(),
        forall|j: int| 0 <= j < reg.len() && reg[j] is Some ==> (reg[j]->0 as int) < base,
    ensures
        forall|i: int|
            0 <= i < reg.len() && !spec_needs_spawn(reg[i], live[i]) ==> slot_after_tick(
                reg,
                live,
                base,
                i,
            ) == reg[i]->0 && live[i],
        forall|i: int, j: int|
            0 <= i < reg.len() && 0 <= j < reg.len() && spec_needs_spawn(reg[i], live[i])
                && reg[j] is Some ==> slot_after_tick(reg, live, base, i) != reg[j]->0,
{
    assert forall|i: int, j: int|
        0 <= i < reg.len() && 0 <= j < reg.len() && spec_needs_spawn(reg[i], live[i])
            && reg[j] is Some implies slot_after_tick(reg, live, base, i) != reg[j]->0 by {
        lemma_respawns_before_bounds(reg, live, 0, i);
    }
}

/// Law: a Poller handle observed dead at a health-check tick is replaced by a
/// fresh, distinct handle in the same slot — the same device address — and no
/// two slots hold the same handle after the tick, so the Registry never holds
/// two live handles for one device address.
pub proof fn lemma_dead_handle_replaced(reg: Seq<Option<u64>>, live: Seq<bool>, base: int, i: int)
    requires
        live.len() == reg.len(),
        0 <= i < reg.len(),
        reg[i] is Some,
        !live[i],
        forall|j: int| 0 <= j < reg.len() && reg[j] is Some ==> (reg[j]->0 as int) < base,
        forall|p: int, q: int|
            0 <= p < q < reg.len() && reg[p] is Some && reg[q] is Some ==> reg[p]->0 != reg[q]->0,
    ensures
        slot_after_tick(reg, live, base, i) != reg[i]->0,
        forall|p: int, q: int|
            0 <= p < q < reg.len() ==> slot_after_tick(reg, live, base, p) != slot_after_tick(
                reg,
                live,
                base,
                q,
            ),
{
    lemma_respawns_before_bounds(reg, live, 0, i);
    assert forall|p: int, q: int| 0 <= p < q < reg.len() implies slot_after_tick(reg, live, base, p)
        != slot_after_tick(reg, live, base, q) by {
        let np = spec_needs_spawn(reg[p], live[p]);
        let nq = spec_needs_spawn(reg[q], live[q]);
        if np && nq {
            lemma_respawns_before_strict(reg, live, p, q);
        } else if np && !nq {
            lemma_respawns_before_bounds(reg, live, 0, p);
        } else if !np && nq {
            lemma_respawns_before_bounds(reg, live, 0, q);
        }
    }
}

} // verus!

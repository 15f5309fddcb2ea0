use vstd::prelude::*;
use crate::broadcaster::{rearm_step, tick_step, BroadcastState, Broadcaster};
use crate::config::{config_error, built_from, EngineConfig, NetworkConfig, ConfigError};
use crate::event_log::{fits_after, keep_last, ordered_by_time, Event, EVENT_LOG_CAPACITY};
use crate::launcher::{last_time_of, recorded_error, stamp_of, Launcher, LauncherState, NetworkInstanceInfo};
use crate::status::{NodeInfo, PeerInfo, Route};
use dashmap::DashMap;

verus! {

#[verifier::external_type_specification]
#[verifier::external_body]
#[verifier::reject_recursive_types(K)]
#[verifier::reject_recursive_types(V)]
#[verifier::reject_recursive_types(S)]
pub struct ExDashMap<K, V, S>(dashmap::DashMap<K, V, S>);

/// The registry's map from instance id to launcher.
pub type InstanceMap = DashMap<String, Launcher>;

/// The instances that a map holds, by id.
pub uninterp spec fn instances_of(m: InstanceMap) -> Map<Seq<char>, Launcher>;

/// Relies on `DashMap::new`: an empty map.
#[verifier::external_body]
fn map_new() -> (r: InstanceMap)
    ensures
        instances_of(r).dom() == Set::<Seq<char>>::empty(),
{
    DashMap::new()
}

/// Relies on `DashMap::contains_key`: whether `k` has an entry.
#[verifier::external_body]
fn map_contains(m: &InstanceMap, k: &String) -> (r: bool)
    ensures
        r == instances_of(*m).contains_key(k@),
{
    m.contains_key(k)
}

/// Relies on `DashMap::len`: the number of entries.
#[verifier::external_body]
fn map_len(m: &InstanceMap) -> (r: usize)
    ensures
        r == instances_of(*m).len(),
{
    m.len()
}

/// Relies on `DashMap::insert`: `k` maps to `v` afterwards, the other entries
/// are kept.
#[verifier::external_body]
fn map_insert(m: &mut InstanceMap, k: String, v: Launcher)
    ensures
        instances_of(*final(m)) == instances_of(*old(m)).insert(k@, v),
{
    m.insert(k, v);
}

/// Relies on `DashMap::remove`: takes out the entry of `k` and hands back its
/// value.
#[verifier::external_body]
fn map_remove(m: &mut InstanceMap, k: &String) -> (r: Option<Launcher>)
    ensures
        instances_of(*final(m)) == instances_of(*old(m)).remove(k@),
        r == if instances_of(*old(m)).contains_key(k@) {
            Some(instances_of(*old(m))[k@])
        } else {
            None
        },
{
    m.remove(k).map(|(_, v)| v)
}

/// Relies on `DashMap::iter`: each key once, in no stated order.
#[verifier::external_body]
fn map_keys(m: &InstanceMap) -> (r: Vec<String>)
    ensures
        r@.map_values(|k: String| k@).no_duplicates(),
        r@.map_values(|k: String| k@).to_set() == instances_of(*m).dom(),
{
    m.iter().map(|e| e.key().clone()).collect()
}

/// Relies on `DashMap::view`: the entry of `k`, read through the verified
/// `Launcher::running_info`.
#[verifier::external_body]
fn map_info(m: &InstanceMap, k: &String) -> (r: Option<NetworkInstanceInfo>)
    ensures
        instances_of(*m).contains_key(k@) ==> match r {
            None => instances_of(*m)[k@].spec_state() == LauncherState::NotStarted,
            Some(info) => instances_of(*m)[k@].spec_state() != LauncherState::NotStarted
                && instances_of(*m)[k@].describes(k@, info),
        },
        !instances_of(*m).contains_key(k@) ==> r is None,
{
    m.view(k, |_, v| v.running_info(k)).flatten()
}

/// Why a registry operation was refused.
#[derive(Debug)]
pub enum RegistryError {
    AlreadyExists,
    NotFound,
    /// An event older than the newest one already logged.
    StaleEvent,
    Config(ConfigError),
}

/// The instances by id, and the broadcaster that reports on them.
pub struct Registry {
    instances: InstanceMap,
    broadcaster: Broadcaster,
}

impl Registry {
    pub closed spec fn spec_instances(&self) -> Map<Seq<char>, Launcher> {
        instances_of(self.instances)
    }

    pub closed spec fn spec_broadcast(&self) -> (bool, nat) {
        self.broadcaster@
    }

    pub closed spec fn wf(&self) -> bool {
        &&& self.broadcaster.wf()
        &&& self.spec_instances().dom().finite()
        &&& forall|k: Seq<char>| #[trigger]
            self.spec_instances().contains_key(k) ==> self.spec_instances()[k].wf()
                && self.spec_instances()[k].spec_state() != LauncherState::NotStarted
    }

    /// What a well-formed registry keeps: finitely many instances, each well
    /// formed and started.
    pub proof fn lemma_wf_facts(&self)
        requires
            self.wf(),
        ensures
            self.spec_instances().dom().finite(),
            forall|k: Seq<char>| #[trigger]
                self.spec_instances().contains_key(k) ==> self.spec_instances()[k].wf()
                    && self.spec_instances()[k].spec_state() != LauncherState::NotStarted,
    {
    }

    pub fn new() -> (r: Registry)
        ensures
            r.wf(),
            r.spec_instances() == Map::<Seq<char>, Launcher>::empty(),
            r.spec_broadcast() == (false, 0nat),
    {
        Registry { instances: map_new(), broadcaster: Broadcaster::new() }
    }

    pub fn len(&self) -> (r: usize)
        ensures
            r == self.spec_instances().len(),
    {
        map_len(&self.instances)
    }

    pub fn contains(&self, id: &String) -> (r: bool)
        ensures
            r == self.spec_instances().contains_key(id@),
    {
        map_contains(&self.instances, id)
    }

    /// Appends an engine event to the log of instance `id`. An event older
    /// than the newest one logged is refused with `StaleEvent`, so that every
    /// log stays ordered by time.
    pub fn record_event(&mut self, id: &String, e: Event) -> (r: Result<(), RegistryError>)
        requires
            old(self).wf(),
        ensures
            final(self).wf(),
            final(self).spec_broadcast() == old(self).spec_broadcast(),
            !old(self).spec_instances().contains_key(id@) ==> (r matches Err(
                RegistryError::NotFound,
            )) && final(self).spec_instances() == old(self).spec_instances(),
            old(self).spec_instances().contains_key(id@) && !fits_after(
                old(self).spec_instances()[id@].spec_events(),
                e,
            ) ==> (r matches Err(RegistryError::StaleEvent)) && final(self).spec_instances()
                == old(self).spec_instances(),
            old(self).spec_instances().contains_key(id@) && fits_after(
                old(self).spec_instances()[id@].spec_events(),
                e,
            ) ==> {
                let (a, b) = (old(self).spec_instances()[id@], final(self).spec_instances()[id@]);
                &&& r is Ok
                &&& changed_only(old(self).spec_instances(), final(self).spec_instances(), id@)
                &&& b.spec_events() == keep_last(a.spec_events().push(e), EVENT_LOG_CAPACITY as nat)
                &&& b.spec_state() == a.spec_state()
                &&& b.spec_error() == a.spec_error()
                &&& b.spec_node() == a.spec_node()
                &&& b.spec_routes() == a.spec_routes()
                &&& b.spec_peers() == a.spec_peers()
            },
    {
        match map_remove(&mut self.instances, id) {
            None => {
                assert(self.spec_instances() =~= old(self).spec_instances());
                Err(RegistryError::NotFound)
            },
            Some(mut launcher) => {
                let fresh = match launcher.last_event_time() {
                    Some(last) => last <= e.time,
                    None => true,
                };
                if fresh {
                    launcher.record_event(e);
                    map_insert(&mut self.instances, id.clone(), launcher);
                    assert(self.spec_instances().dom() =~= old(self).spec_instances().dom());
                    Ok(())
                } else {
                    map_insert(&mut self.instances, id.clone(), launcher);
                    assert(self.spec_instances() =~= old(self).spec_instances());
                    Err(RegistryError::StaleEvent)
                }
            },
        }
    }

    /// Appends an engine event to the log of instance `id`, stamped by
    /// `event_stamp` from a clock reading and the newest entry's time; returns
    /// the stamp.
    pub fn record_event_now(&mut self, id: &String, payload: String) -> (r: Result<i64, RegistryError>)
        requires
            old(self).wf(),
        ensures
            final(self).wf(),
            final(self).spec_broadcast() == old(self).spec_broadcast(),
            !old(self).spec_instances().contains_key(id@) ==> (r matches Err(
                RegistryError::NotFound,
            )) && final(self).spec_instances() == old(self).spec_instances(),
            old(self).spec_instances().contains_key(id@) ==> {
                let (a, b) = (old(self).spec_instances()[id@], final(self).spec_instances()[id@]);
                &&& r matches Ok(t)
                &&& changed_only(old(self).spec_instances(), final(self).spec_instances(), id@)
                &&& exists|c: Option<u128>| r->Ok_0 == stamp_of(c, last_time_of(a.spec_events()))
                &&& b.spec_events() == keep_last(
                    a.spec_events().push(Event { time: r->Ok_0, payload }),
                    EVENT_LOG_CAPACITY as nat,
                )
                &&& b.spec_state() == a.spec_state()
                &&& b.spec_error() == a.spec_error()
                &&& b.spec_node() == a.spec_node()
                &&& b.spec_routes() == a.spec_routes()
                &&& b.spec_peers() == a.spec_peers()
            },
    {
        match map_remove(&mut self.instances, id) {
            None => {
                assert(self.spec_instances() =~= old(self).spec_instances());
                Err(RegistryError::NotFound)
            },
            Some(mut launcher) => {
                let t = launcher.record_event_now(payload);
                map_insert(&mut self.instances, id.clone(), launcher);
                assert(self.spec_instances().dom() =~= old(self).spec_instances().dom());
                Ok(t)
            },
        }
    }

    /// Replaces the node info, routes and peers of instance `id`.
    pub fn refresh(&mut self, id: &String, node: NodeInfo, routes: Vec<Route>, peers: Vec<PeerInfo>) -> (r: Result<(), RegistryError>)
        requires
            old(self).wf(),
        ensures
            final(self).wf(),
            final(self).spec_broadcast() == old(self).spec_broadcast(),
            !old(self).spec_instances().contains_key(id@) ==> (r matches Err(
                RegistryError::NotFound,
            )) && final(self).spec_instances() == old(self).spec_instances(),
            old(self).spec_instances().contains_key(id@) ==> {
                let (a, b) = (old(self).spec_instances()[id@], final(self).spec_instances()[id@]);
                &&& r is Ok
                &&& changed_only(old(self).spec_instances(), final(self).spec_instances(), id@)
                &&& b.spec_node() == node
                &&& b.spec_routes() == routes@
                &&& b.spec_peers() == peers@
                &&& b.spec_events() == a.spec_events()
                &&& b.spec_state() == a.spec_state()
                &&& b.spec_error() == a.spec_error()
            },
    {
        match map_remove(&mut self.instances, id) {
            None => {
                assert(self.spec_instances() =~= old(self).spec_instances());
                Err(RegistryError::NotFound)
            },
            Some(mut launcher) => {
                launcher.refresh(node, routes, peers);
                map_insert(&mut self.instances, id.clone(), launcher);
                assert(self.spec_instances().dom() =~= old(self).spec_instances().dom());
                Ok(())
            },
        }
    }

    /// The background context of instance `id` has ended with `outcome`. The
    /// instance stays registered, so that its end and its error can be read.
    pub fn engine_exited(&mut self, id: &String, outcome: Result<(), String>) -> (r: Result<(), RegistryError>)
        requires
            old(self).wf(),
        ensures
            final(self).wf(),
            final(self).spec_broadcast() == old(self).spec_broadcast(),
            !old(self).spec_instances().contains_key(id@) ==> (r matches Err(
                RegistryError::NotFound,
            )) && final(self).spec_instances() == old(self).spec_instances(),
            old(self).spec_instances().contains_key(id@) ==> {
                let (a, b) = (old(self).spec_instances()[id@], final(self).spec_instances()[id@]);
                &&& r is Ok
                &&& changed_only(old(self).spec_instances(), final(self).spec_instances(), id@)
                &&& a.spec_state() != LauncherState::Running ==> b == a
                &&& a.spec_state() == LauncherState::Running ==> match outcome {
                    Ok(_) => b.spec_state() == LauncherState::Stopped && b.same_status(&a),
                    Err(msg) => {
                        &&& b.spec_state() == LauncherState::Errored
                        &&& b.spec_error() matches Some(t) && recorded_error(msg, t)
                        &&& b.spec_events() == a.spec_events()
                        &&& b.spec_node() == a.spec_node()
                        &&& b.spec_routes() == a.spec_routes()
                        &&& b.spec_peers() == a.spec_peers()
                    },
                }
            },
    {
        match map_remove(&mut self.instances, id) {
            None => {
                assert(self.spec_instances() =~= old(self).spec_instances());
                Err(RegistryError::NotFound)
            },
            Some(mut launcher) => {
                launcher.engine_exited(outcome);
                map_insert(&mut self.instances, id.clone(), launcher);
                assert(self.spec_instances().dom() =~= old(self).spec_instances().dom());
                Ok(())
            },
        }
    }

    /// One broadcaster tick: the aggregate to emit, or `None` when nothing is
    /// registered or the broadcaster is suspended.
    pub fn broadcast_tick(&mut self) -> (r: Option<Vec<(String, NetworkInstanceInfo)>>)
        requires
            old(self).wf(),
        ensures
            final(self).wf(),
            final(self).spec_instances() == old(self).spec_instances(),
            (final(self).spec_broadcast(), r is Some) == tick_step(
                old(self).spec_broadcast(),
                old(self).spec_instances().len(),
            ),
            r matches Some(v) ==> lists_all(old(self).spec_instances(), v@),
    {
        let infos = collect_network_infos(self);
        proof {
            let ks = infos@.map_values(|p: (String, NetworkInstanceInfo)| p.0@);
            ks.unique_seq_to_set();
        }
        if self.broadcaster.tick(infos.len()) {
            Some(infos)
        } else {
            None
        }
    }

    /// Whether an aggregate would be emitted on the next tick.
    pub fn is_broadcasting(&self) -> (r: bool)
        ensures
            r == self.spec_broadcast().0,
    {
        self.broadcaster.is_armed()
    }
}

/// A launcher that has just started: running, with an empty status block.
pub open spec fn freshly_started(l: Launcher) -> bool {
    &&& l.spec_state() == LauncherState::Running
    &&& l.spec_error() is None
    &&& !l.spec_stop_requested()
    &&& l.spec_events().len() == 0
    &&& l.spec_node().is_blank()
    &&& l.spec_routes().len() == 0
    &&& l.spec_peers().len() == 0
}

/// `after` holds what `before` holds but for the entry of `id`, which stays
/// present.
pub open spec fn changed_only(
    before: Map<Seq<char>, Launcher>,
    after: Map<Seq<char>, Launcher>,
    id: Seq<char>,
) -> bool {
    &&& after.dom() == before.dom()
    &&& forall|k: Seq<char>| #[trigger] after.contains_key(k) && k != id ==> after[k] == before[k]
}

/// `v` lists each registered instance once, under its id, with a faithful
/// copy of its status.
pub open spec fn lists_all(m: Map<Seq<char>, Launcher>, v: Seq<(String, NetworkInstanceInfo)>) -> bool {
    &&& v.map_values(|p: (String, NetworkInstanceInfo)| p.0@).no_duplicates()
    &&& v.map_values(|p: (String, NetworkInstanceInfo)| p.0@).to_set() == m.dom()
    &&& forall|i: int| 0 <= i < v.len() ==> #[trigger] m[v[i].0@].describes(v[i].0@, v[i].1)
}

/// What a start of `cfg` does to the registered instances `before`, leaving
/// `after` and returning `r`.
pub open spec fn start_outcome(
    before: Map<Seq<char>, Launcher>,
    cfg: NetworkConfig,
    r: Result<EngineConfig, RegistryError>,
    after: Map<Seq<char>, Launcher>,
) -> bool {
    if before.contains_key(cfg.id@) {
        (r matches Err(RegistryError::AlreadyExists)) && after == before
    } else if config_error(cfg) is Some {
        r == Err::<EngineConfig, RegistryError>(RegistryError::Config(config_error(cfg).unwrap()))
            && after == before
    } else {
        &&& r matches Ok(e) && built_from(cfg, e)
        &&& after.dom() == before.dom().insert(cfg.id@)
        &&& freshly_started(after[cfg.id@])
        &&& forall|k: Seq<char>| #[trigger] before.contains_key(k) ==> after[k] == before[k]
    }
}

/// Two starts of the same configuration in a row: the second is refused
/// (with `AlreadyExists` when the first succeeded, which leaves exactly the
/// one launcher it registered under the id).
pub proof fn lemma_start_twice(
    m0: Map<Seq<char>, Launcher>,
    cfg: NetworkConfig,
    r1: Result<EngineConfig, RegistryError>,
    m1: Map<Seq<char>, Launcher>,
    r2: Result<EngineConfig, RegistryError>,
    m2: Map<Seq<char>, Launcher>,
)
    requires
        start_outcome(m0, cfg, r1, m1),
        start_outcome(m1, cfg, r2, m2),
    ensures
        r2 is Err,
        r1 is Ok ==> (r2 matches Err(RegistryError::AlreadyExists)) && m2 == m1
            && m2.contains_key(cfg.id@) && m2.dom() == m0.dom().insert(cfg.id@),
{
}

/// Registers and starts the instance that `cfg` describes, and re-arms the
/// broadcaster. Refused when the id is taken or `cfg` is invalid; nothing
/// changes then. On success the engine configuration comes back, to be run in
/// the instance's background context.
pub fn start_network_instance(reg: &mut Registry, cfg: &NetworkConfig) -> (r: Result<
    EngineConfig,
    RegistryError,
>)
    requires
        old(reg).wf(),
    ensures
        final(reg).wf(),
        start_outcome(old(reg).spec_instances(), *cfg, r, final(reg).spec_instances()),
        r is Err ==> *final(reg) == *old(reg),
        r is Ok ==> final(reg).spec_broadcast() == rearm_step(old(reg).spec_broadcast()),
{
    if map_contains(&reg.instances, &cfg.id) {
        return Err(RegistryError::AlreadyExists);
    }
    let engine = match cfg.gen_config() {
        Ok(e) => e,
        Err(e) => {
            return Err(RegistryError::Config(e));
        },
    };
    let mut launcher = Launcher::new();
    match launcher.start(Ok::<EngineConfig, String>(engine)) {
        Some(e) => {
            map_insert(&mut reg.instances, cfg.id.clone(), launcher);
            reg.broadcaster.rearm();
            proof {
                assert(freshly_started(launcher));
                assert(reg.spec_instances() == old(reg).spec_instances().insert(cfg.id@, launcher));
            }
            Ok(e)
        },
        None => {
            proof {
                assert(false);
            }
            Err(RegistryError::AlreadyExists)
        },
    }
}

/// Asks the instance `id` to stop and removes it. Returns whether its
/// background context is alive and must be torn down; `NotFound`, with
/// nothing changed, when no such instance is registered.
pub fn stop_network_instance(reg: &mut Registry, id: &String) -> (r: Result<bool, RegistryError>)
    requires
        old(reg).wf(),
    ensures
        final(reg).wf(),
        !old(reg).spec_instances().contains_key(id@) ==> (r matches Err(RegistryError::NotFound))
            && final(reg).spec_instances() == old(reg).spec_instances(),
        old(reg).spec_instances().contains_key(id@) ==> r == Ok::<bool, RegistryError>(
            old(reg).spec_instances()[id@].spec_state() == LauncherState::Running,
        ),
        final(reg).spec_instances() == old(reg).spec_instances().remove(id@),
        final(reg).spec_broadcast() == old(reg).spec_broadcast(),
{
    match map_remove(&mut reg.instances, id) {
        None => {
            assert(reg.spec_instances() =~= old(reg).spec_instances());
            Err(RegistryError::NotFound)
        },
        Some(mut launcher) => Ok(launcher.stop()),
    }
}

/// A copy of every registered instance's status, under its id.
pub fn collect_network_infos(reg: &Registry) -> (r: Vec<(String, NetworkInstanceInfo)>)
    requires
        reg.wf(),
    ensures
        lists_all(reg.spec_instances(), r@),
        forall|i: int| 0 <= i < r@.len() ==> #[trigger] r@[i].1.events@.len() <= EVENT_LOG_CAPACITY
            && ordered_by_time(r@[i].1.events@),
        forall|i: int| 0 <= i < r@.len() && reg.spec_instances()[#[trigger] r@[i].0@].spec_state()
            == LauncherState::Errored ==> (r@[i].1.error matches Some(t) && t@.len() > 0),
{
    let keys = map_keys(&reg.instances);
    let ghost kv = keys@.map_values(|k: String| k@);
    let mut out: Vec<(String, NetworkInstanceInfo)> = Vec::new();
    let mut i: usize = 0;
    while i < keys.len()
        invariant
            reg.wf(),
            i <= keys@.len(),
            out@.len() == i,
            kv == keys@.map_values(|k: String| k@),
            kv.to_set() == reg.spec_instances().dom(),
            out@.map_values(|p: (String, NetworkInstanceInfo)| p.0@) == kv.take(i as int),
            forall|j: int| 0 <= j < out@.len() ==> #[trigger] reg.spec_instances()[out@[j].0@].describes(out@[j].0@, out@[j].1),
            forall|j: int| 0 <= j < out@.len() ==> #[trigger] out@[j].1.events@.len() <= EVENT_LOG_CAPACITY
                && ordered_by_time(out@[j].1.events@),
            forall|j: int| 0 <= j < out@.len() && reg.spec_instances()[#[trigger] out@[j].0@].spec_state()
                == LauncherState::Errored ==> (out@[j].1.error matches Some(t) && t@.len() > 0),
        decreases keys@.len() - i,
    {
        let k = &keys[i];
        proof {
            assert(kv[i as int] == k@);
            assert(kv.contains(k@));
            assert(reg.spec_instances().contains_key(k@));
            reg.spec_instances()[k@].lemma_wf_facts();
        }
        match map_info(&reg.instances, k) {
            Some(info) => {
                let ghost before = out@;
                out.push((k.clone(), info));
                proof {
                    let f = |p: (String, NetworkInstanceInfo)| p.0@;
                    assert(before.map_values(f) == kv.take(i as int));
                    assert(out@ == before.push(out@.last()));
                    assert(out@.last().0@ == kv[i as int]);
                    assert forall|j: int| 0 <= j < i + 1 implies out@.map_values(f)[j] == kv.take(i + 1)[j] by {
                        if j < i {
                            assert(out@[j] == before[j]);
                            assert(before.map_values(f)[j] == kv.take(i as int)[j]);
                        }
                    }
                    assert(out@.map_values(f) =~= kv.take(i + 1));
                }
            },
            None => {
                proof {
                    assert(false);
                }
            },
        }
        i = i + 1;
    }
    proof {
        assert(kv.take(keys@.len() as int) =~= kv);
        assert(out@.map_values(|p: (String, NetworkInstanceInfo)| p.0@) == kv);
    }
    out
}

/// Right after a successful start re-arms the broadcaster, the next tick
/// emits: the started instance is registered, so the tick finds one.
pub proof fn lemma_tick_after_start_emits(
    b: BroadcastState,
    instances: Map<Seq<char>, Launcher>,
    id: Seq<char>,
)
    requires
        instances.dom().finite(),
        instances.contains_key(id),
    ensures
        tick_step(rearm_step(b), instances.len()).1,
{
    assert(instances.dom().contains(id));
    vstd::set_lib::lemma_set_empty_equivalency_len(instances.dom());
}

/// One registry call, as far as the set of registered ids goes.
pub enum RegistryOp {
    Start(Seq<char>),
    Stop(Seq<char>),
}

/// How one call may change the registered ids: a start adds its id or
/// changes nothing (refused), a stop removes its id.
pub open spec fn op_step(before: Set<Seq<char>>, op: RegistryOp, after: Set<Seq<char>>) -> bool {
    match op {
        RegistryOp::Start(id) => after == before.insert(id) || after == before,
        RegistryOp::Stop(id) => after == before.remove(id),
    }
}

/// `id` was started by `ops[i]` and not stopped by any later call.
pub open spec fn started_and_kept(ops: Seq<RegistryOp>, id: Seq<char>) -> bool {
    exists|i: int|
        0 <= i < ops.len() && #[trigger] ops[i] == RegistryOp::Start(id) && forall|j: int|
            i < j < ops.len() ==> #[trigger] ops[j] != RegistryOp::Stop(id)
}

/// Starting from an empty registry, after any run of starts and stops every
/// registered id (and so every id that `collect_network_infos` lists) was
/// started and has not been stopped since.
pub proof fn lemma_registered_ids(ids: Seq<Set<Seq<char>>>, ops: Seq<RegistryOp>)
    requires
        ids.len() == ops.len() + 1,
        ids[0] == Set::<Seq<char>>::empty(),
        forall|i: int| 0 <= i < ops.len() ==> op_step(ids[i], #[trigger] ops[i], ids[i + 1]),
    ensures
        forall|id: Seq<char>| ids.last().contains(id) ==> started_and_kept(ops, id),
    decreases ops.len(),
{
    if ops.len() > 0 {
        let n = ops.len() - 1;
        let (pids, pops) = (ids.drop_last(), ops.drop_last());
        assert forall|i: int| 0 <= i < pops.len() implies op_step(pids[i], #[trigger] pops[i], pids[i + 1]) by {
            assert(op_step(ids[i], ops[i], ids[i + 1]));
        }
        lemma_registered_ids(pids, pops);
        assert forall|id: Seq<char>| ids.last().contains(id) implies started_and_kept(ops, id) by {
            assert(op_step(ids[n], ops[n], ids[n + 1]));
            if ops[n] == RegistryOp::Start(id) {
                assert(started_and_kept(ops, id));
            } else {
                assert(pids.last().contains(id));
                assert(started_and_kept(pops, id));
                let i = choose|i: int|
                    0 <= i < pops.len() && #[trigger] pops[i] == RegistryOp::Start(id) && forall|j: int|
                        i < j < pops.len() ==> #[trigger] pops[j] != RegistryOp::Stop(id);
                assert(ops[i] == RegistryOp::Start(id));
                assert forall|j: int| i < j < ops.len() implies #[trigger] ops[j] != RegistryOp::Stop(id) by {
                    if j < n {
                        assert(ops[j] == pops[j]);
                    }
                }
            }
        }
    }
}

} // verus!

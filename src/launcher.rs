use vstd::prelude::*;
use vstd::string::StringExecFns;
use crate::event_log::{fits_after, keep_last, ordered_by_time, Event, EventLog, EVENT_LOG_CAPACITY};
use crate::status::{copy_opt_string, copy_peers, copy_routes, NodeInfo, PeerInfo, Route};

verus! {

/// Where a launcher is in its life. A launcher never leaves `Stopped` or
/// `Errored`: a new one is made to run the instance again.
#[derive(Clone, Copy, Debug, PartialEq, Eq, Structural)]
pub enum LauncherState {
    NotStarted,
    Running,
    Stopped,
    Errored,
}

/// The shared status block of one instance: what the engine last reported.
pub struct Data {
    pub events: EventLog,
    pub node: NodeInfo,
    pub routes: Vec<Route>,
    pub peers: Vec<PeerInfo>,
}

/// A copied view of one instance's status.
pub struct NetworkInstanceInfo {
    pub id: String,
    pub node: NodeInfo,
    pub events: Vec<Event>,
    pub routes: Vec<Route>,
    pub peers: Vec<PeerInfo>,
    pub running: bool,
    pub error: Option<String>,
}

pub uninterp spec fn lower_of(s: Seq<char>) -> Seq<char>;

/// Relies on `str::to_lowercase`: the result depends on the characters alone.
#[verifier::external_body]
pub(crate) fn lowercase(s: &String) -> (r: String)
    ensures
        r@ == lower_of(s@),
{
    s.to_lowercase()
}

#[verifier::external_type_specification]
#[verifier::external_body]
pub struct ExSystemTime(std::time::SystemTime);

/// Relies on `SystemTime::now`: the system clock's reading. Nothing is
/// promised of it.
#[verifier::external_body]
fn system_now() -> (r: std::time::SystemTime) {
    std::time::SystemTime::now()
}

/// Relies on `SystemTime::duration_since`: the time elapsed since the Unix
/// epoch, or `None` when `t` is earlier.
#[verifier::external_body]
fn since_unix_epoch(t: &std::time::SystemTime) -> (r: Option<core::time::Duration>) {
    t.duration_since(std::time::UNIX_EPOCH).ok()
}

/// Relies on `Duration::as_millis`: the whole milliseconds in `d`.
#[verifier::external_body]
fn whole_millis(d: &core::time::Duration) -> (r: u128) {
    d.as_millis()
}

/// Milliseconds since the Unix epoch by the system clock, or `None` when the
/// clock reads earlier.
fn clock_millis() -> (r: Option<u128>) {
    match since_unix_epoch(&system_now()) {
        Some(d) => Some(whole_millis(&d)),
        None => None,
    }
}

/// The time an event is stamped with: the clock reading (0 when the clock
/// failed or reads past `i64`), raised to the newest logged time `last`.
pub open spec fn stamp_of(clock: Option<u128>, last: Option<i64>) -> i64 {
    let base: i64 = match clock {
        Some(ms) => if ms <= i64::MAX {
            ms as i64
        } else {
            0
        },
        None => 0,
    };
    match last {
        Some(l) => if l > base {
            l
        } else {
            base
        },
        None => base,
    }
}

/// Computes `stamp_of(clock, last)`.
pub fn event_stamp(clock: Option<u128>, last: Option<i64>) -> (r: i64)
    ensures
        r == stamp_of(clock, last),
{
    let base: i64 = match clock {
        Some(ms) => if ms <= 0x7fff_ffff_ffff_ffff {
            ms as i64
        } else {
            0
        },
        None => 0,
    };
    match last {
        Some(l) => if l > base {
            l
        } else {
            base
        },
        None => base,
    }
}

/// The time of the newest event of `s`, if any.
pub open spec fn last_time_of(s: Seq<Event>) -> Option<i64> {
    if s.len() == 0 {
        None
    } else {
        Some(s.last().time)
    }
}

/// What is recorded when the engine fails with `msg`.
pub open spec fn recorded_error(msg: String, recorded: String) -> bool {
    &&& recorded@.len() > 0
    &&& msg@.len() > 0 ==> recorded == msg
}

/// Supervises one instance: its state, its last error and its status block.
/// The background context itself is run by the caller, which reports back
/// through `record_event`, `refresh` and `engine_exited`.
pub struct Launcher {
    state: LauncherState,
    error: Option<String>,
    stop_requested: bool,
    data: Data,
}

impl Launcher {
    pub closed spec fn spec_state(&self) -> LauncherState {
        self.state
    }

    pub closed spec fn spec_error(&self) -> Option<String> {
        self.error
    }

    pub closed spec fn spec_stop_requested(&self) -> bool {
        self.stop_requested
    }

    pub closed spec fn spec_events(&self) -> Seq<Event> {
        self.data.events@
    }

    pub closed spec fn spec_node(&self) -> NodeInfo {
        self.data.node
    }

    pub closed spec fn spec_routes(&self) -> Seq<Route> {
        self.data.routes@
    }

    pub closed spec fn spec_peers(&self) -> Seq<PeerInfo> {
        self.data.peers@
    }

    /// The event log is within capacity and ordered by time, and a launcher
    /// that failed holds a non-empty error.
    pub closed spec fn wf(&self) -> bool {
        &&& self.data.events.wf()
        &&& ordered_by_time(self.data.events@)
        &&& self.state == LauncherState::Errored ==> (self.error matches Some(t) && t@.len() > 0)
    }

    /// The event log holds at most `EVENT_LOG_CAPACITY` entries, oldest
    /// first, and a failed launcher has a non-empty error.
    pub proof fn lemma_wf_facts(&self)
        requires
            self.wf(),
        ensures
            self.spec_events().len() <= EVENT_LOG_CAPACITY,
            ordered_by_time(self.spec_events()),
            self.spec_state() == LauncherState::Errored ==> (self.spec_error() matches Some(t)
                && t@.len() > 0),
    {
    }

    /// Same status block, error and stop request as `other`.
    pub open spec fn same_status(&self, other: &Launcher) -> bool {
        &&& self.spec_error() == other.spec_error()
        &&& self.spec_stop_requested() == other.spec_stop_requested()
        &&& self.spec_events() == other.spec_events()
        &&& self.spec_node() == other.spec_node()
        &&& self.spec_routes() == other.spec_routes()
        &&& self.spec_peers() == other.spec_peers()
    }

    pub fn new() -> (r: Launcher)
        ensures
            r.wf(),
            r.spec_state() == LauncherState::NotStarted,
            r.spec_error() is None,
            !r.spec_stop_requested(),
            r.spec_events().len() == 0,
            r.spec_node().is_blank(),
            r.spec_routes().len() == 0,
            r.spec_peers().len() == 0,
    {
        Launcher {
            state: LauncherState::NotStarted,
            error: None,
            stop_requested: false,
            data: Data {
                events: EventLog::new(),
                node: NodeInfo::blank(),
                routes: Vec::new(),
                peers: Vec::new(),
            },
        }
    }

    /// Starts the launcher with the outcome of building its configuration.
    /// On a configuration error the error is recorded and nothing runs. On
    /// success the launcher is running and the configuration is handed back,
    /// to be moved into the background context. A launcher that was started
    /// before is left as it is and `None` comes back.
    pub fn start<C>(&mut self, cfg: Result<C, String>) -> (r: Option<C>)
        requires
            old(self).wf(),
        ensures
            final(self).wf(),
            old(self).spec_state() != LauncherState::NotStarted ==> r is None && *final(self)
                == *old(self),
            old(self).spec_state() == LauncherState::NotStarted ==> match cfg {
                Ok(c) => {
                    &&& r == Some(c)
                    &&& final(self).spec_state() == LauncherState::Running
                    &&& final(self).same_status(old(self))
                },
                Err(e) => {
                    &&& r is None
                    &&& final(self).spec_state() == LauncherState::NotStarted
                    &&& final(self).spec_error() == Some(e)
                    &&& final(self).spec_events() == old(self).spec_events()
                    &&& final(self).spec_node() == old(self).spec_node()
                    &&& final(self).spec_routes() == old(self).spec_routes()
                    &&& final(self).spec_peers() == old(self).spec_peers()
                    &&& final(self).spec_stop_requested() == old(self).spec_stop_requested()
                },
            },
    {
        if self.state != LauncherState::NotStarted {
            return None;
        }
        match cfg {
            Ok(c) => {
                self.state = LauncherState::Running;
                Some(c)
            },
            Err(e) => {
                self.error = Some(e);
                None
            },
        }
    }

    /// The time of the newest logged event, if any.
    pub fn last_event_time(&self) -> (r: Option<i64>)
        ensures
            r == if self.spec_events().len() == 0 {
                None::<i64>
            } else {
                Some(self.spec_events().last().time)
            },
    {
        self.data.events.last_time()
    }

    /// Appends an engine event, no older than the newest one, to the log,
    /// evicting the oldest past capacity.
    pub fn record_event(&mut self, e: Event)
        requires
            old(self).wf(),
            fits_after(old(self).spec_events(), e),
        ensures
            final(self).wf(),
            final(self).spec_events() == keep_last(
                old(self).spec_events().push(e),
                EVENT_LOG_CAPACITY as nat,
            ),
            final(self).spec_state() == old(self).spec_state(),
            final(self).spec_error() == old(self).spec_error(),
            final(self).spec_stop_requested() == old(self).spec_stop_requested(),
            final(self).spec_node() == old(self).spec_node(),
            final(self).spec_routes() == old(self).spec_routes(),
            final(self).spec_peers() == old(self).spec_peers(),
    {
        self.data.events.push(e);
    }

    /// Appends an engine event stamped with `event_stamp` of a clock reading
    /// and the newest entry's time.
    /// Returns the stamp.
    pub fn record_event_now(&mut self, payload: String) -> (r: i64)
        requires
            old(self).wf(),
        ensures
            final(self).wf(),
            exists|c: Option<u128>| r == stamp_of(c, last_time_of(old(self).spec_events())),
            final(self).spec_events() == keep_last(
                old(self).spec_events().push(Event { time: r, payload }),
                EVENT_LOG_CAPACITY as nat,
            ),
            final(self).spec_state() == old(self).spec_state(),
            final(self).spec_error() == old(self).spec_error(),
            final(self).spec_node() == old(self).spec_node(),
            final(self).spec_routes() == old(self).spec_routes(),
            final(self).spec_peers() == old(self).spec_peers(),
    {
        let c = clock_millis();
        let t = event_stamp(c, self.data.events.last_time());
        let ghost p = payload;
        let ghost before = self.spec_events();
        self.record_event(Event::new(t, payload));
        assert(t == stamp_of(c, last_time_of(before)));
        t
    }

    /// Replaces node info, routes and peers with a fresh reading.
    pub fn refresh(&mut self, node: NodeInfo, routes: Vec<Route>, peers: Vec<PeerInfo>)
        ensures
            final(self).wf() == old(self).wf(),
            final(self).spec_node() == node,
            final(self).spec_routes() == routes@,
            final(self).spec_peers() == peers@,
            final(self).spec_events() == old(self).spec_events(),
            final(self).spec_state() == old(self).spec_state(),
            final(self).spec_error() == old(self).spec_error(),
            final(self).spec_stop_requested() == old(self).spec_stop_requested(),
    {
        self.data.node = node;
        self.data.routes = routes;
        self.data.peers = peers;
    }

    /// Asks for teardown. Returns whether a background context is alive and
    /// must be stopped and joined.
    pub fn stop(&mut self) -> (r: bool)
        ensures
            r == (old(self).spec_state() == LauncherState::Running),
            final(self).spec_stop_requested(),
            final(self).spec_state() == old(self).spec_state(),
            final(self).spec_error() == old(self).spec_error(),
            final(self).spec_events() == old(self).spec_events(),
            final(self).spec_node() == old(self).spec_node(),
            final(self).spec_routes() == old(self).spec_routes(),
            final(self).spec_peers() == old(self).spec_peers(),
            final(self).wf() == old(self).wf(),
    {
        self.stop_requested = true;
        self.state == LauncherState::Running
    }

    /// The background context has ended with the engine task's outcome. A
    /// running launcher becomes `Errored` with the error recorded (an empty
    /// error text is recorded as "engine task failed"), or `Stopped`; any
    /// other launcher is left as it is.
    pub fn engine_exited(&mut self, outcome: Result<(), String>)
        requires
            old(self).wf(),
        ensures
            final(self).wf(),
            old(self).spec_state() != LauncherState::Running ==> *final(self) == *old(self),
            old(self).spec_state() == LauncherState::Running ==> match outcome {
                Ok(_) => {
                    &&& final(self).spec_state() == LauncherState::Stopped
                    &&& final(self).same_status(old(self))
                },
                Err(e) => {
                    &&& final(self).spec_state() == LauncherState::Errored
                    &&& final(self).spec_error() matches Some(t) && recorded_error(e, t)
                    &&& final(self).spec_events() == old(self).spec_events()
                    &&& final(self).spec_node() == old(self).spec_node()
                    &&& final(self).spec_routes() == old(self).spec_routes()
                    &&& final(self).spec_peers() == old(self).spec_peers()
                    &&& final(self).spec_stop_requested() == old(self).spec_stop_requested()
                },
            },
    {
        if self.state != LauncherState::Running {
            return;
        }
        match outcome {
            Ok(_) => {
                self.state = LauncherState::Stopped;
            },
            Err(e) => {
                let text = if e.as_str().is_empty() {
                    proof {
                        reveal_strlit("engine task failed");
                    }
                    <String as StringExecFns>::from_str("engine task failed")
                } else {
                    e
                };
                self.state = LauncherState::Errored;
                self.error = Some(text);
            },
        }
    }

    pub fn state(&self) -> (r: LauncherState)
        ensures
            r == self.spec_state(),
    {
        self.state
    }

    pub fn error(&self) -> (r: Option<String>)
        ensures
            r == self.spec_error(),
    {
        copy_opt_string(&self.error)
    }

    /// Whether the background context is alive.
    pub fn running(&self) -> (r: bool)
        ensures
            r == (self.spec_state() == LauncherState::Running),
    {
        self.state == LauncherState::Running
    }

    pub fn events(&self) -> (r: Vec<Event>)
        ensures
            r@ == self.spec_events(),
            self.wf() ==> r@.len() <= EVENT_LOG_CAPACITY && ordered_by_time(r@),
    {
        self.data.events.to_vec()
    }

    pub fn node(&self) -> (r: NodeInfo)
        ensures
            r.virtual_ipv4 == self.spec_node().virtual_ipv4,
            r.ips@ == self.spec_node().ips@,
            r.stun_info == self.spec_node().stun_info,
            r.listeners@ == self.spec_node().listeners@,
            r.vpn_portal_cfg == self.spec_node().vpn_portal_cfg,
    {
        self.data.node.duplicate()
    }

    pub fn routes(&self) -> (r: Vec<Route>)
        ensures
            r@ == self.spec_routes(),
    {
        copy_routes(&self.data.routes)
    }

    pub fn peers(&self) -> (r: Vec<PeerInfo>)
        ensures
            r@ == self.spec_peers(),
    {
        copy_peers(&self.data.peers)
    }

    /// Whether `info` is a faithful copy of this launcher's status under `id`.
    pub open spec fn describes(&self, id: Seq<char>, info: NetworkInstanceInfo) -> bool {
        &&& info.id@ == lower_of(id)
        &&& info.node.virtual_ipv4 == self.spec_node().virtual_ipv4
        &&& info.node.ips@ == self.spec_node().ips@
        &&& info.node.stun_info == self.spec_node().stun_info
        &&& info.node.listeners@ == self.spec_node().listeners@
        &&& info.node.vpn_portal_cfg == self.spec_node().vpn_portal_cfg
        &&& info.events@ == self.spec_events()
        &&& info.routes@ == self.spec_routes()
        &&& info.peers@ == self.spec_peers()
        &&& info.running == (self.spec_state() == LauncherState::Running)
        &&& info.error == self.spec_error()
    }

    /// A copy of the status under `id`, or `None` while nothing was started.
    pub fn running_info(&self, id: &String) -> (r: Option<NetworkInstanceInfo>)
        ensures
            r is None <==> self.spec_state() == LauncherState::NotStarted,
            r matches Some(info) ==> self.describes(id@, info),
    {
        if self.state == LauncherState::NotStarted {
            return None;
        }
        Some(
            NetworkInstanceInfo {
                id: lowercase(id),
                node: self.node(),
                events: self.events(),
                routes: self.routes(),
                peers: self.peers(),
                running: self.running(),
                error: self.error(),
            },
        )
    }
}

} // verus!

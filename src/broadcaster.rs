use vstd::prelude::*;

verus! {

/// Consecutive empty ticks that an armed broadcaster tolerates; one more
/// suspends it.
pub const IDLE_TICK_LIMIT: u32 = 5;

/// The broadcaster's state: whether it is armed, and how many consecutive
/// ticks found no instance.
pub type BroadcastState = (bool, nat);

/// One tick that found `active` instances: the next state, and whether an
/// aggregate is emitted. Only an armed broadcaster that found an instance
/// emits; an empty tick counts towards suspension.
pub open spec fn tick_step(s: BroadcastState, active: nat) -> (BroadcastState, bool) {
    if !s.0 {
        (s, false)
    } else if active == 0 {
        if s.1 + 1 > IDLE_TICK_LIMIT {
            ((false, 0), false)
        } else {
            ((true, (s.1 + 1) as nat), false)
        }
    } else {
        ((true, 0), true)
    }
}

/// The state after a successful start re-arms the broadcaster.
pub open spec fn rearm_step(s: BroadcastState) -> BroadcastState {
    if s.0 {
        s
    } else {
        (true, 0)
    }
}

/// Runs the ticks that found `actives[0]`, `actives[1]`, ... instances; gives
/// the final state and how many aggregates were emitted.
pub open spec fn run_ticks(s: BroadcastState, actives: Seq<nat>) -> (BroadcastState, nat)
    decreases actives.len(),
{
    if actives.len() == 0 {
        (s, 0)
    } else {
        let (next, emitted) = tick_step(s, actives[0]);
        let (last, count) = run_ticks(next, actives.drop_first());
        (last, count + if emitted { 1nat } else { 0nat })
    }
}

/// `k` ticks that each found no instance.
pub open spec fn quiet_ticks(k: nat) -> Seq<nat> {
    Seq::new(k, |i: int| 0nat)
}

pub open spec fn state_wf(s: BroadcastState) -> bool {
    s.1 <= IDLE_TICK_LIMIT
}

/// Periodic aggregator that emits only while it is armed and something is
/// active, and suspends itself
/// after more than `IDLE_TICK_LIMIT` consecutive empty ticks.
pub struct Broadcaster {
    armed: bool,
    idle_ticks: u32,
}

impl View for Broadcaster {
    type V = BroadcastState;

    closed spec fn view(&self) -> BroadcastState {
        (self.armed, self.idle_ticks as nat)
    }
}

impl Broadcaster {
    pub open spec fn wf(&self) -> bool {
        state_wf(self@)
    }

    /// A suspended broadcaster.
    pub fn new() -> (r: Broadcaster)
        ensures
            r.wf(),
            r@ == (false, 0nat),
    {
        Broadcaster { armed: false, idle_ticks: 0 }
    }

    pub fn is_armed(&self) -> (r: bool)
        ensures
            r == self@.0,
    {
        self.armed
    }

    /// Arms a suspended broadcaster; a no-op on an armed one.
    pub fn rearm(&mut self)
        requires
            old(self).wf(),
        ensures
            final(self).wf(),
            final(self)@ == rearm_step(old(self)@),
    {
        if !self.armed {
            self.armed = true;
            self.idle_ticks = 0;
        }
    }

    /// One tick that found `active` instances. Returns whether the aggregate
    /// is to be emitted.
    pub fn tick(&mut self, active: usize) -> (r: bool)
        requires
            old(self).wf(),
        ensures
            final(self).wf(),
            (final(self)@, r) == tick_step(old(self)@, active as nat),
    {
        if !self.armed {
            return false;
        }
        if active == 0 {
            if self.idle_ticks + 1 > IDLE_TICK_LIMIT {
                self.armed = false;
                self.idle_ticks = 0;
                false
            } else {
                self.idle_ticks = self.idle_ticks + 1;
                false
            }
        } else {
            self.idle_ticks = 0;
            true
        }
    }
}

/// Ticks that find no instance emit nothing, whatever the state.
pub proof fn lemma_quiet_silent(s: BroadcastState, k: nat)
    ensures
        run_ticks(s, quiet_ticks(k)).1 == 0,
    decreases k,
{
    if k > 0 {
        assert(quiet_ticks(k).drop_first() =~= quiet_ticks((k - 1) as nat));
        lemma_quiet_silent(tick_step(s, 0).0, (k - 1) as nat);
    }
}

/// A suspended broadcaster emits nothing and stays suspended, whatever the
/// ticks find, until it is re-armed.
pub proof fn lemma_suspended_silent(s: BroadcastState, actives: Seq<nat>)
    requires
        !s.0,
    ensures
        run_ticks(s, actives) == (s, 0nat),
    decreases actives.len(),
{
    if actives.len() > 0 {
        lemma_suspended_silent(s, actives.drop_first());
    }
}

/// More than `IDLE_TICK_LIMIT` consecutive empty ticks suspend the
/// broadcaster.
pub proof fn lemma_quiet_suspends(s: BroadcastState, k: nat)
    requires
        state_wf(s),
        k > IDLE_TICK_LIMIT,
    ensures
        !run_ticks(s, quiet_ticks(k)).0.0,
    decreases k,
{
    let (next, _) = tick_step(s, 0);
    assert(quiet_ticks(k).drop_first() =~= quiet_ticks((k - 1) as nat));
    if !next.0 {
        lemma_suspended_silent(next, quiet_ticks((k - 1) as nat));
    } else {
        assert(next.1 == s.1 + 1);
        if k - 1 > IDLE_TICK_LIMIT {
            lemma_quiet_suspends(next, (k - 1) as nat);
        } else {
            lemma_quiet_suspends_from(next, (k - 1) as nat);
        }
    }
}

/// From `idle` consecutive empty ticks, `IDLE_TICK_LIMIT + 1 - idle` more
/// suspend the broadcaster.
proof fn lemma_quiet_suspends_from(s: BroadcastState, k: nat)
    requires
        state_wf(s),
        s.1 + k > IDLE_TICK_LIMIT,
    ensures
        !run_ticks(s, quiet_ticks(k)).0.0,
    decreases k,
{
    if !s.0 {
        lemma_suspended_silent(s, quiet_ticks(k));
    } else {
        let (next, _) = tick_step(s, 0);
        assert(quiet_ticks(k).drop_first() =~= quiet_ticks((k - 1) as nat));
        if !next.0 {
            lemma_suspended_silent(next, quiet_ticks((k - 1) as nat));
        } else {
            lemma_quiet_suspends_from(next, (k - 1) as nat);
        }
    }
}

/// After more than `IDLE_TICK_LIMIT` empty ticks the broadcaster is
/// suspended: no later tick emits, whatever it finds, until a re-arm; the
/// first tick after a re-arm that finds an instance emits.
pub proof fn lemma_quiet_then_rearm(s: BroadcastState, k: nat, later: Seq<nat>, active: nat)
    requires
        state_wf(s),
        k > IDLE_TICK_LIMIT,
        active > 0,
    ensures
        run_ticks(s, quiet_ticks(k)).1 == 0,
        run_ticks(run_ticks(s, quiet_ticks(k)).0, later).1 == 0,
        tick_step(rearm_step(run_ticks(run_ticks(s, quiet_ticks(k)).0, later).0), active).1,
{
    lemma_quiet_silent(s, k);
    lemma_quiet_suspends(s, k);
    let q = run_ticks(s, quiet_ticks(k)).0;
    lemma_suspended_silent(q, later);
}

} // verus!

use vstd::prelude::*;

verus! {

/// Most entries an event log keeps; the oldest entries are evicted first.
pub const EVENT_LOG_CAPACITY: usize = 100;

/// One engine occurrence: when it was observed (milliseconds since the Unix
/// epoch) and what happened.
pub struct Event {
    pub time: i64,
    pub payload: String,
}

impl Event {
    pub fn new(time: i64, payload: String) -> (r: Event)
        ensures
            r.time == time,
            r.payload == payload,
    {
        Event { time, payload }
    }

    /// An independent copy of this event.
    pub fn duplicate(&self) -> (r: Event)
        ensures
            r == *self,
    {
        Event { time: self.time, payload: self.payload.clone() }
    }
}

/// The last `n` elements of `s` (all of `s` when it is shorter).
pub open spec fn keep_last(s: Seq<Event>, n: nat) -> Seq<Event> {
    if s.len() <= n {
        s
    } else {
        s.subrange(s.len() - n, s.len() as int)
    }
}

/// Timestamps never decrease along `s`.
pub open spec fn ordered_by_time(s: Seq<Event>) -> bool {
    forall|i: int, j: int| 0 <= i < j < s.len() ==> s[i].time <= s[j].time
}

/// Appending `e` to `s` keeps it ordered by time.
pub open spec fn fits_after(s: Seq<Event>, e: Event) -> bool {
    s.len() == 0 || s.last().time <= e.time
}

/// A bounded history of events, oldest first.
pub struct EventLog {
    entries: std::collections::VecDeque<Event>,
}

impl View for EventLog {
    type V = Seq<Event>;

    closed spec fn view(&self) -> Seq<Event> {
        self.entries@
    }
}

impl EventLog {
    pub open spec fn wf(&self) -> bool {
        self@.len() <= EVENT_LOG_CAPACITY
    }

    pub fn new() -> (r: EventLog)
        ensures
            r@ == Seq::<Event>::empty(),
            r.wf(),
    {
        EventLog { entries: std::collections::VecDeque::new() }
    }

    pub fn len(&self) -> (r: usize)
        ensures
            r == self@.len(),
    {
        self.entries.len()
    }

    /// The time of the newest entry, if any.
    pub fn last_time(&self) -> (r: Option<i64>)
        ensures
            r == if self@.len() == 0 {
                None::<i64>
            } else {
                Some(self@.last().time)
            },
    {
        let n = self.entries.len();
        if n == 0 {
            None
        } else {
            Some(self.entries[n - 1].time)
        }
    }

    /// Appends `e` at the tail, evicting the head when the log is full.
    pub fn push(&mut self, e: Event)
        requires
            old(self).wf(),
        ensures
            final(self).wf(),
            final(self)@ == keep_last(old(self)@.push(e), EVENT_LOG_CAPACITY as nat),
            ordered_by_time(old(self)@) && fits_after(old(self)@, e) ==> ordered_by_time(
                final(self)@,
            ),
    {
        let ghost before = self@;
        let ghost ge = e;
        self.entries.push_back(e);
        if self.entries.len() > EVENT_LOG_CAPACITY {
            let _ = self.entries.pop_front();
            assert(self@ =~= before.push(ge).subrange(1, before.len() + 1 as int));
        }
        proof {
            let s = before.push(ge);
            if ordered_by_time(before) && fits_after(before, ge) {
                assert(ordered_by_time(s)) by {
                    assert forall|i: int, j: int| 0 <= i < j < s.len() implies s[i].time
                        <= s[j].time by {
                        if j == before.len() {
                            if before.len() > 0 {
                                assert(before[i].time <= before.last().time);
                            }
                        }
                    }
                }
                lemma_keep_last_ordered(s, EVENT_LOG_CAPACITY as nat);
            }
        }
    }

    /// Appends each of `evs` in turn.
    pub fn extend(&mut self, evs: &Vec<Event>)
        requires
            old(self).wf(),
        ensures
            final(self).wf(),
            final(self)@ == keep_last(old(self)@ + evs@, EVENT_LOG_CAPACITY as nat),
    {
        let ghost start = self@;
        let n: usize = evs.len();
        let mut i: usize = 0;
        while i < n
            invariant
                self.wf(),
                n == evs@.len(),
                i <= n,
                self@ == keep_last(start + evs@.take(i as int), EVENT_LOG_CAPACITY as nat),
            decreases n - i,
        {
            let e = evs[i].duplicate();
            let ghost prev = start + evs@.take(i as int);
            let ghost ge = e;
            self.push(e);
            proof {
                lemma_keep_last_push(prev, ge, EVENT_LOG_CAPACITY as nat);
                assert(start + evs@.take(i + 1) =~= prev.push(ge));
            }
            i = i + 1;
        }
        assert(evs@.take(n as int) =~= evs@);
    }

    /// A copy of the entries, oldest first.
    pub fn to_vec(&self) -> (r: Vec<Event>)
        ensures
            r@ == self@,
    {
        let mut out: Vec<Event> = Vec::new();
        let n = self.entries.len();
        let mut i: usize = 0;
        while i < n
            invariant
                n == self@.len(),
                i <= n,
                out@ == self@.take(i as int),
            decreases n - i,
        {
            out.push(self.entries[i].duplicate());
            i = i + 1;
            assert(out@ =~= self@.take(i as int));
        }
        assert(self@.take(n as int) =~= self@);
        out
    }
}

/// Trimming to the last `n` before or after one more append gives the same
/// sequence.
pub proof fn lemma_keep_last_push(s: Seq<Event>, e: Event, n: nat)
    ensures
        keep_last(keep_last(s, n).push(e), n) == keep_last(s.push(e), n),
{
    assert(keep_last(keep_last(s, n).push(e), n) =~= keep_last(s.push(e), n));
}

/// Keeping a suffix keeps the order by time.
pub proof fn lemma_keep_last_ordered(s: Seq<Event>, n: nat)
    requires
        ordered_by_time(s),
    ensures
        ordered_by_time(keep_last(s, n)),
{
    if s.len() > n {
        let t = keep_last(s, n);
        let d = s.len() - n;
        assert forall|i: int, j: int| 0 <= i < j < t.len() implies t[i].time <= t[j].time by {
            assert(t[i] == s[i + d]);
            assert(t[j] == s[j + d]);
        }
    }
}

} // verus!

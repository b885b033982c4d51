use vstd::prelude::*;

verus! {

/// The state of a gate: its bound, the permits held and the callers queued.
pub ghost struct GateView {
    pub max: nat,
    pub in_flight: nat,
    pub waiting: nat,
}

/// What happens at a gate.
pub enum GateEvent {
    /// A caller asks for a permit: admitted if one is free, queued otherwise.
    Acquire,
    /// A queued caller is woken: admitted if a permit is free.
    Wake,
    /// A permit holder leaves, on success, failure or cancellation alike.
    Release,
    /// A queued caller gives up waiting.
    Cancel,
}

/// The state after `e`.
pub open spec fn gate_step(s: GateView, e: GateEvent) -> GateView {
    match e {
        GateEvent::Acquire => if s.in_flight < s.max {
            GateView { in_flight: s.in_flight + 1, ..s }
        } else {
            GateView { waiting: s.waiting + 1, ..s }
        },
        GateEvent::Wake => if s.waiting > 0 && s.in_flight < s.max {
            GateView { in_flight: s.in_flight + 1, waiting: (s.waiting - 1) as nat, ..s }
        } else {
            s
        },
        GateEvent::Release => if s.in_flight > 0 {
            GateView { in_flight: (s.in_flight - 1) as nat, ..s }
        } else {
            s
        },
        GateEvent::Cancel => if s.waiting > 0 {
            GateView { waiting: (s.waiting - 1) as nat, ..s }
        } else {
            s
        },
    }
}

/// The state after `events`, in order.
pub open spec fn gate_run(s: GateView, events: Seq<GateEvent>) -> GateView
    decreases events.len(),
{
    if events.len() == 0 {
        s
    } else {
        gate_run(gate_step(s, events[0]), events.drop_first())
    }
}

/// Bounded admission for expensive calls: at most `max` permits are held at
/// once, and callers beyond that wait in a queue until a permit is released.
pub struct ConcurrencyGate {
    max: usize,
    in_flight: usize,
    waiting: usize,
}

impl ConcurrencyGate {
    pub closed spec fn view(&self) -> GateView {
        GateView { max: self.max as nat, in_flight: self.in_flight as nat, waiting: self.waiting as nat }
    }

    /// Never more permits held than the bound.
    pub open spec fn wf(&self) -> bool {
        self@.in_flight <= self@.max
    }

    /// A gate of `max` permits, none held.
    pub fn new(max: usize) -> (r: Self)
        ensures
            r.wf(),
            r@ == (GateView { max: max as nat, in_flight: 0, waiting: 0 }),
    {
        ConcurrencyGate { max, in_flight: 0, waiting: 0 }
    }

    /// Asks for a permit: `true` when one was taken, `false` when the caller
    /// was queued.
    pub fn acquire(&mut self) -> (r: bool)
        requires
            old(self).wf(),
            old(self)@.waiting < usize::MAX,
        ensures
            final(self).wf(),
            r == (old(self)@.in_flight < old(self)@.max),
            final(self)@ == gate_step(old(self)@, GateEvent::Acquire),
    {
        if self.in_flight < self.max {
            self.in_flight = self.in_flight + 1;
            true
        } else {
            self.waiting = self.waiting + 1;
            false
        }
    }

    /// Wakes a queued caller: `true` when it took a permit.
    pub fn wake(&mut self) -> (r: bool)
        requires
            old(self).wf(),
        ensures
            final(self).wf(),
            r == (old(self)@.waiting > 0 && old(self)@.in_flight < old(self)@.max),
            final(self)@ == gate_step(old(self)@, GateEvent::Wake),
    {
        if self.waiting > 0 && self.in_flight < self.max {
            self.in_flight = self.in_flight + 1;
            self.waiting = self.waiting - 1;
            true
        } else {
            false
        }
    }

    /// Gives a permit back; `true` when a queued caller should be woken.
    pub fn release(&mut self) -> (r: bool)
        requires
            old(self).wf(),
        ensures
            final(self).wf(),
            r == (old(self)@.in_flight > 0 && old(self)@.waiting > 0),
            final(self)@ == gate_step(old(self)@, GateEvent::Release),
    {
        if self.in_flight > 0 {
            self.in_flight = self.in_flight - 1;
            self.waiting > 0
        } else {
            false
        }
    }

    /// A queued caller leaves the queue without a permit.
    pub fn cancel(&mut self)
        requires
            old(self).wf(),
        ensures
            final(self).wf(),
            final(self)@ == gate_step(old(self)@, GateEvent::Cancel),
    {
        if self.waiting > 0 {
            self.waiting = self.waiting - 1;
        }
    }

    /// Permits currently held.
    pub fn active(&self) -> (r: usize)
        ensures
            r == self@.in_flight,
    {
        self.in_flight
    }

    /// Callers currently queued.
    pub fn queued(&self) -> (r: usize)
        ensures
            r == self@.waiting,
    {
        self.waiting
    }

    /// Permits free to take.
    pub fn available(&self) -> (r: usize)
        requires
            self.wf(),
        ensures
            r == self@.max - self@.in_flight,
    {
        self.max - self.in_flight
    }
}

/// Whatever happens at a gate, in whatever order, the permits held never
/// exceed its bound, and the bound never changes.
pub proof fn lemma_gate_bound(s: GateView, events: Seq<GateEvent>)
    requires
        s.in_flight <= s.max,
    ensures
        gate_run(s, events).in_flight <= s.max,
        gate_run(s, events).max == s.max,
    decreases events.len(),
{
    if events.len() > 0 {
        lemma_gate_bound(gate_step(s, events[0]), events.drop_first());
    }
}

/// One release followed by one wake-up, `k` times.
pub open spec fn hand_over(k: nat) -> Seq<GateEvent>
    decreases k,
{
    if k == 0 {
        Seq::empty()
    } else {
        seq![GateEvent::Release, GateEvent::Wake] + hand_over((k - 1) as nat)
    }
}

/// Callers queued at a full gate all get through as permits come back: each
/// release followed by a wake-up admits one of them, which keeps every permit in use.
pub proof fn lemma_queued_callers_admitted(s: GateView, k: nat)
    requires
        s.max > 0,
        s.in_flight == s.max,
        k <= s.waiting,
    ensures
        gate_run(s, hand_over(k)).waiting == s.waiting - k,
        gate_run(s, hand_over(k)).in_flight == s.max,
        gate_run(s, hand_over(k)).max == s.max,
    decreases k,
{
    if k > 0 {
        let ev = hand_over(k);
        let s1 = gate_step(s, GateEvent::Release);
        let s2 = gate_step(s1, GateEvent::Wake);
        assert(ev[0] == GateEvent::Release);
        assert(ev.drop_first()[0] == GateEvent::Wake);
        assert(ev.drop_first().drop_first() =~= hand_over((k - 1) as nat));
        assert(gate_run(s, ev) == gate_run(s1, ev.drop_first()));
        assert(gate_run(s1, ev.drop_first()) == gate_run(s2, ev.drop_first().drop_first()));
        lemma_queued_callers_admitted(s2, (k - 1) as nat);
    }
}

} // verus!

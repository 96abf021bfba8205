use vstd::prelude::*;

verus! {

/// The pacing of simulation steps, as the simulation sees it.
pub struct TickView {
    /// Milliseconds between two firings of the timer.
    pub interval_ms: nat,
    /// Whether firings of the timer still post pulses.
    pub running: bool,
    /// Pulses posted and not yet taken.
    pub pending: nat,
}

/// What can happen to a scheduler between two starts.
pub enum TickEvent {
    /// The timer fired.
    Fire,
    /// The game loop asked for a pulse.
    Poll,
}

impl TickView {
    /// After a firing of the timer: one more pulse while running (the count
    /// saturates at `u64::MAX`), nothing otherwise.
    pub open spec fn fired(self) -> TickView {
        if self.running && self.pending < u64::MAX {
            TickView { pending: self.pending + 1, ..self }
        } else {
            self
        }
    }

    /// After a poll: one pulse fewer when one was pending.
    pub open spec fn polled(self) -> TickView {
        if self.pending > 0 {
            TickView { pending: (self.pending - 1) as nat, ..self }
        } else {
            self
        }
    }

    /// The state after `events`, in order.
    pub open spec fn after(self, events: Seq<TickEvent>) -> TickView
        decreases events.len(),
    {
        if events.len() == 0 {
            self
        } else {
            match events.last() {
                TickEvent::Fire => self.after(events.drop_last()).fired(),
                TickEvent::Poll => self.after(events.drop_last()).polled(),
            }
        }
    }

    /// How many polls among `events` were answered with a pulse.
    pub open spec fn delivered(self, events: Seq<TickEvent>) -> nat
        decreases events.len(),
    {
        if events.len() == 0 {
            0
        } else {
            let before = self.after(events.drop_last());
            let got: nat = match events.last() {
                TickEvent::Fire => 0,
                TickEvent::Poll => if before.pending > 0 { 1 } else { 0 },
            };
            self.delivered(events.drop_last()) + got
        }
    }
}

/// Paces simulation steps at a fixed interval, apart from the frame rate.
/// A timer outside calls `on_timer_fire` once per interval; the game loop
/// takes pulses with `poll_tick`, which never waits.
pub struct TickScheduler {
    interval_ms: u64,
    running: bool,
    pending: u64,
}

impl View for TickScheduler {
    type V = TickView;

    closed spec fn view(&self) -> TickView {
        TickView {
            interval_ms: self.interval_ms as nat,
            running: self.running,
            pending: self.pending as nat,
        }
    }
}

impl TickScheduler {
    /// A stopped scheduler for a timer that fires every `interval_ms`
    /// milliseconds, with no pulse pending.
    pub fn new(interval_ms: u64) -> (r: TickScheduler)
        ensures
            r@ == (TickView { interval_ms: interval_ms as nat, running: false, pending: 0 }),
    {
        TickScheduler { interval_ms, running: false, pending: 0 }
    }

    /// The interval between two firings, in milliseconds.
    pub fn interval_ms(&self) -> (r: u64)
        ensures
            r == self@.interval_ms,
    {
        self.interval_ms
    }

    pub fn is_running(&self) -> (r: bool)
        ensures
            r == self@.running,
    {
        self.running
    }

    /// Lets firings post pulses again. Returns whether the timer has to be
    /// armed, which is when the scheduler was stopped; starting a running
    /// scheduler changes nothing.
    pub fn start(&mut self) -> (arm: bool)
        ensures
            arm == !old(self)@.running,
            final(self)@ == (TickView { running: true, ..old(self)@ }),
    {
        if self.running {
            false
        } else {
            self.running = true;
            true
        }
    }

    /// Stops firings from posting pulses. Pulses already pending can still
    /// be taken.
    pub fn stop(&mut self)
        ensures
            final(self)@ == (TickView { running: false, ..old(self)@ }),
    {
        self.running = false;
    }

    /// One firing of the timer.
    pub fn on_timer_fire(&mut self)
        ensures
            final(self)@ == old(self)@.fired(),
    {
        if self.running && self.pending < u64::MAX {
            self.pending = self.pending + 1;
        }
    }

    /// Takes one pending pulse, if there is one, and says whether it did.
    pub fn poll_tick(&mut self) -> (r: bool)
        ensures
            r == (old(self)@.pending > 0),
            final(self)@ == old(self)@.polled(),
    {
        if self.pending > 0 {
            self.pending = self.pending - 1;
            true
        } else {
            false
        }
    }
}

/// Once stopped, and until started again, a scheduler hands out no more
/// pulses than were pending when it stopped, whatever firings and polls come:
/// those handed out and those still pending add up to that number.
pub proof fn lemma_stopped_drains(s: TickView, events: Seq<TickEvent>)
    requires
        !s.running,
    ensures
        !s.after(events).running,
        s.delivered(events) + s.after(events).pending == s.pending,
    decreases events.len(),
{
    if events.len() > 0 {
        lemma_stopped_drains(s, events.drop_last());
    }
}

} // verus!

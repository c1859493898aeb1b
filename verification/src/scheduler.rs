//! Bounded admission: the moves in flight, oldest first, and never more of
//! them than the ceiling.
//!
//! The scheduler keeps what the caller hands it for each move that was
//! started, such as a handle by which to wait for it. A move is in flight
//! from its admission until its completion is reported; the caller waits for
//! the oldest, one at a time.

use vstd::prelude::*;

verus! {

/// What happens to a scheduler.
pub enum Event<T> {
    /// A move that has just been started is handed over.
    Accept(T),
    /// The oldest move in flight is taken out to be waited for.
    TakeOldest,
    /// The move that was taken out has finished.
    Complete,
}

/// A scheduler as plain values: its ceiling, the moves that wait in the
/// order of their admission, and whether one more move has been taken out
/// and has not finished yet.
pub struct SchedulerView<T> {
    pub ceiling: nat,
    pub queued: Seq<T>,
    pub awaited: bool,
}

impl<T> SchedulerView<T> {
    /// The number of moves in flight: those that wait and the one that is
    /// being waited for.
    pub open spec fn in_flight(self) -> nat {
        if self.awaited {
            self.queued.len() + 1
        } else {
            self.queued.len()
        }
    }

    /// The bound that a scheduler keeps: never more moves in flight than
    /// its ceiling, which is at least one.
    pub open spec fn wf(self) -> bool {
        1 <= self.ceiling && self.in_flight() <= self.ceiling
    }

    /// Whether the ceiling is reached, so that no move may start.
    pub open spec fn is_full(self) -> bool {
        self.in_flight() >= self.ceiling
    }

    /// The move to wait for next: the one admitted first of those that
    /// wait, unless a move is being waited for already.
    pub open spec fn oldest(self) -> Option<T> {
        if !self.awaited && self.queued.len() > 0 {
            Some(self.queued[0])
        } else {
            None
        }
    }

    /// The scheduler after an event. A move is admitted below the ceiling
    /// and joins the queue at its end; at the ceiling nothing changes. The
    /// oldest move leaves the queue and stays in flight while it is waited
    /// for. A completion ends the flight of the move that was waited for.
    pub open spec fn after(self, event: Event<T>) -> SchedulerView<T> {
        match event {
            Event::Accept(item) => if self.is_full() {
                self
            } else {
                SchedulerView { queued: self.queued.push(item), ..self }
            },
            Event::TakeOldest => if self.oldest() is Some {
                SchedulerView { queued: self.queued.drop_first(), awaited: true, ..self }
            } else {
                self
            },
            Event::Complete => SchedulerView { awaited: false, ..self },
        }
    }

    /// The scheduler after a sequence of events.
    pub open spec fn after_all(self, events: Seq<Event<T>>) -> SchedulerView<T>
        decreases events.len(),
    {
        if events.len() == 0 {
            self
        } else {
            self.after_all(events.drop_last()).after(events.last())
        }
    }

    /// The moves that are admitted in the course of `events`, in the order
    /// of their admission.
    pub open spec fn accepted_during(self, events: Seq<Event<T>>) -> Seq<T>
        decreases events.len(),
    {
        if events.len() == 0 {
            Seq::empty()
        } else {
            let before = self.after_all(events.drop_last());
            let earlier = self.accepted_during(events.drop_last());
            match events.last() {
                Event::Accept(item) => if before.is_full() {
                    earlier
                } else {
                    earlier.push(item)
                },
                _ => earlier,
            }
        }
    }

    /// The moves that are taken out in the course of `events`, in the order
    /// in which they are taken out.
    pub open spec fn taken_during(self, events: Seq<Event<T>>) -> Seq<T>
        decreases events.len(),
    {
        if events.len() == 0 {
            Seq::empty()
        } else {
            let before = self.after_all(events.drop_last());
            let earlier = self.taken_during(events.drop_last());
            match events.last() {
                Event::TakeOldest => match before.oldest() {
                    Some(item) => earlier.push(item),
                    None => earlier,
                },
                _ => earlier,
            }
        }
    }
}

/// The ceiling that a configured number of jobs gives: the number itself,
/// and one where it is zero, since a ceiling of zero would admit nothing.
pub open spec fn ceiling_for(jobs: usize) -> nat {
    if jobs == 0 {
        1
    } else {
        jobs as nat
    }
}

/// Holds the moves in flight and admits a new one only below the ceiling.
pub struct Scheduler<T> {
    ceiling: usize,
    queued: Vec<T>,
    awaited: bool,
}

impl<T> View for Scheduler<T> {
    type V = SchedulerView<T>;

    closed spec fn view(&self) -> SchedulerView<T> {
        SchedulerView { ceiling: self.ceiling as nat, queued: self.queued@, awaited: self.awaited }
    }
}

impl<T> Scheduler<T> {
    #[verifier::type_invariant]
    spec fn within_ceiling(self) -> bool {
        self@.wf()
    }

    /// A scheduler for `jobs` simultaneous moves with nothing in flight.
    pub fn new(jobs: usize) -> (s: Scheduler<T>)
        ensures
            s@ == (SchedulerView::<T> {
                ceiling: ceiling_for(jobs),
                queued: Seq::empty(),
                awaited: false,
            }),
    {
        Scheduler { ceiling: if jobs == 0 { 1 } else { jobs }, queued: Vec::new(), awaited: false }
    }

    /// The greatest number of moves that may be in flight.
    pub fn ceiling(&self) -> (n: usize)
        ensures
            n == self@.ceiling,
            n >= 1,
    {
        proof {
            use_type_invariant(self);
        }
        self.ceiling
    }

    /// The number of moves in flight, which never exceeds the ceiling.
    pub fn in_flight(&self) -> (n: usize)
        ensures
            n == self@.in_flight(),
            n <= self@.ceiling,
    {
        proof {
            use_type_invariant(self);
        }
        if self.awaited {
            self.queued.len() + 1
        } else {
            self.queued.len()
        }
    }

    /// Whether no move is in flight.
    pub fn is_idle(&self) -> (b: bool)
        ensures
            b == (self@.in_flight() == 0),
    {
        !self.awaited && self.queued.len() == 0
    }

    /// Whether the ceiling is reached. A move may be started only where it
    /// is not.
    pub fn is_full(&self) -> (b: bool)
        ensures
            b == self@.is_full(),
    {
        self.in_flight() >= self.ceiling
    }

    /// Takes a move that has just been started into the queue. At the
    /// ceiling the move is not taken and is handed back.
    pub fn accept(&mut self, item: T) -> (r: Result<(), T>)
        ensures
            final(self)@ == old(self)@.after(Event::Accept(item)),
            final(self)@.wf(),
            match r {
                Ok(_) => !old(self)@.is_full(),
                Err(back) => old(self)@.is_full() && back == item,
            },
    {
        proof {
            use_type_invariant(&*self);
        }
        if self.is_full() {
            Err(item)
        } else {
            // The queue is moved out while it grows, so that the scheduler
            // keeps its bound at every call.
            let mut queued: Vec<T> = Vec::new();
            core::mem::swap(&mut self.queued, &mut queued);
            queued.push(item);
            core::mem::swap(&mut self.queued, &mut queued);
            Ok(())
        }
    }

    /// Takes out the oldest of the moves that wait, for the caller to wait
    /// for it. There is none while another move is being waited for.
    pub fn take_oldest(&mut self) -> (r: Option<T>)
        ensures
            r == old(self)@.oldest(),
            final(self)@ == old(self)@.after(Event::TakeOldest),
            final(self)@.wf(),
    {
        proof {
            use_type_invariant(&*self);
        }
        if !self.awaited && self.queued.len() > 0 {
            let mut queued: Vec<T> = Vec::new();
            core::mem::swap(&mut self.queued, &mut queued);
            let item = queued.remove(0);
            core::mem::swap(&mut self.queued, &mut queued);
            self.awaited = true;
            assert(self.queued@ =~= old(self).queued@.drop_first());
            Some(item)
        } else {
            None
        }
    }

    /// Reports that the move that was taken out has finished. Returns
    /// whether there was one.
    pub fn complete(&mut self) -> (released: bool)
        ensures
            released == old(self)@.awaited,
            final(self)@ == old(self)@.after(Event::Complete),
            final(self)@.wf(),
    {
        proof {
            use_type_invariant(&*self);
        }
        let released = self.awaited;
        self.awaited = false;
        released
    }
}

/// No event takes a scheduler over its ceiling or changes the ceiling.
pub proof fn lemma_event_keeps_ceiling<T>(s: SchedulerView<T>, event: Event<T>)
    requires
        s.wf(),
    ensures
        s.after(event).wf(),
        s.after(event).ceiling == s.ceiling,
{
}

/// Whatever is admitted, taken out and completed, in whatever order, the
/// number of moves in flight never exceeds the ceiling.
pub proof fn lemma_ceiling_always_holds<T>(s: SchedulerView<T>, events: Seq<Event<T>>)
    requires
        s.wf(),
    ensures
        s.after_all(events).wf(),
        s.after_all(events).ceiling == s.ceiling,
        s.after_all(events).in_flight() <= s.ceiling,
    decreases events.len(),
{
    if events.len() > 0 {
        lemma_ceiling_always_holds(s, events.drop_last());
        lemma_event_keeps_ceiling(s.after_all(events.drop_last()), events.last());
    }
}

/// Moves are taken out in the order of their admission: the moves that
/// waited at first, followed by those admitted since, are the moves taken
/// out since, followed by those that still wait.
pub proof fn lemma_oldest_first<T>(s: SchedulerView<T>, events: Seq<Event<T>>)
    ensures
        s.queued + s.accepted_during(events) == s.taken_during(events) + s.after_all(
            events,
        ).queued,
    decreases events.len(),
{
    if events.len() == 0 {
        assert(s.queued + Seq::<T>::empty() =~= Seq::<T>::empty() + s.queued);
    } else {
        let before = s.after_all(events.drop_last());
        let admitted = s.accepted_during(events.drop_last());
        let taken = s.taken_during(events.drop_last());
        lemma_oldest_first(s, events.drop_last());
        assert(s.queued + admitted == taken + before.queued);
        match events.last() {
            Event::Accept(item) => {
                if !before.is_full() {
                    assert(s.queued + admitted.push(item) =~= (s.queued + admitted).push(item));
                    assert(taken + before.queued.push(item) =~= (taken + before.queued).push(
                        item,
                    ));
                }
            },
            Event::TakeOldest => {
                if before.oldest() is Some {
                    assert(taken.push(before.queued[0]) + before.queued.drop_first() =~= taken
                        + before.queued);
                }
            },
            Event::Complete => {},
        }
    }
}

} // verus!

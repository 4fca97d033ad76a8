//! Merges a stream of tick-tagged events with a fixed-period clock into one
//! ordered sequence of events and tick signals.
//!
//! The sequencer is driven from outside: the owner hands it every event that
//! has arrived, tells it when the source of events has ended, and polls it with
//! the time that has passed since the last tick signal. Each poll yields the
//! oldest event waiting for the current tick, or a tick signal once the minimum
//! tick duration has passed and nothing waits for the current tick, or nothing
//! yet. Durations are whole nanoseconds.
//!
//! Once the source has ended the sequencer keeps ticking until every buffered
//! event has been delivered at its tick, and only then finishes.

use crate::shared_data::Input;
use crate::sim::tick_buffer::{
    admission, decide_admission, in_window, waiting, with_item, without_head, Admission,
};
use std::collections::HashMap;
use std::collections::VecDeque;
use vstd::prelude::*;

verus! {

broadcast use vstd::std_specs::hash::group_hash_axioms;

/// An event that knows the tick it is addressed to.
///
/// `tick` is the tick as contracts speak of it and `get_tick` is the function
/// that runs; an implementation written outside verified code defines both,
/// with the same body.
pub trait GetTick {
    spec fn tick(&self) -> i32;

    fn get_tick(&self) -> (tick: i32)
        ensures
            tick == self.tick(),
    ;
}

impl GetTick for Input {
    open spec fn tick(&self) -> i32 {
        self.for_tick
    }

    fn get_tick(&self) -> (tick: i32) {
        self.for_tick
    }
}

#[derive(Debug, Clone, PartialEq, Eq)]
pub enum TickSequencedEvent<T: GetTick> {
    /// The tick counter has moved on to `number`, `dt` nanoseconds after the
    /// previous tick signal.
    Tick { dt: u64, number: i32 },
    Event(T),
}

/// The answer to one poll.
#[derive(Debug, Clone, PartialEq, Eq)]
pub enum Polled<T: GetTick> {
    Ready(TickSequencedEvent<T>),
    /// Nothing to deliver yet: poll again when an event has arrived or the
    /// minimum tick duration has passed.
    Pending,
    /// The sequence is over.
    Finished,
}

/// The state of a sequencer as contracts see it.
pub struct Schedule<T: GetTick> {
    pub minimum_tick_duration: u64,
    pub current_tick: i32,
    pub pending: Map<i32, Seq<T>>,
    pub closed: bool,
}

impl<T: GetTick> Schedule<T> {
    /// Every buffered event waits under its own tick, inside the window.
    pub open spec fn wf(self) -> bool {
        &&& in_window(self.pending, self.current_tick)
        &&& forall|tick: i32, i: int|
            self.pending.contains_key(tick) && 0 <= i < self.pending[tick].len() ==> (
            #[trigger] self.pending[tick][i]).tick() == tick
    }

    /// The events waiting for the current tick.
    pub open spec fn due(self) -> Seq<T> {
        waiting(self.pending, self.current_tick)
    }

    /// No further tick can follow: the counter is at its last number, or the
    /// source has ended and nothing is buffered.
    pub open spec fn exhausted(self) -> bool {
        self.current_tick == i32::MAX || (self.closed && self.pending.dom().is_empty())
    }

    pub open spec fn offered(self, event: T) -> Schedule<T> {
        if admission(self.current_tick, event.tick()) == Admission::Accepted {
            Schedule { pending: with_item(self.pending, event.tick(), event), ..self }
        } else {
            self
        }
    }

    pub open spec fn polled(self, elapsed: u64) -> Schedule<T> {
        if self.due().len() > 0 {
            Schedule { pending: without_head(self.pending, self.current_tick), ..self }
        } else if !self.exhausted() && elapsed >= self.minimum_tick_duration {
            Schedule { current_tick: (self.current_tick + 1) as i32, ..self }
        } else {
            self
        }
    }

    pub open spec fn poll_outcome(self, elapsed: u64) -> Polled<T> {
        if self.due().len() > 0 {
            Polled::Ready(TickSequencedEvent::Event(self.due().first()))
        } else if self.exhausted() {
            Polled::Finished
        } else if elapsed >= self.minimum_tick_duration {
            Polled::Ready(
                TickSequencedEvent::Tick { dt: elapsed, number: (self.current_tick + 1) as i32 },
            )
        } else {
            Polled::Pending
        }
    }
}

/// One thing that can happen to a sequencer.
pub enum Step<T: GetTick> {
    Ingest(T),
    Close,
    Poll { elapsed: u64 },
}

impl<T: GetTick> Schedule<T> {
    /// The state after one step.
    pub open spec fn stepped(self, step: Step<T>) -> Schedule<T> {
        match step {
            Step::Ingest(event) => self.offered(event),
            Step::Close => Schedule { closed: true, ..self },
            Step::Poll { elapsed } => self.polled(elapsed),
        }
    }

    /// The tick number that a step signals, if it signals one.
    pub open spec fn signalled(self, step: Step<T>) -> Option<i32> {
        match step {
            Step::Poll { elapsed } => match self.poll_outcome(elapsed) {
                Polled::Ready(TickSequencedEvent::Tick { number, .. }) => Some(number),
                _ => None,
            },
            _ => None,
        }
    }

    /// The state after a run of steps.
    pub open spec fn after(self, steps: Seq<Step<T>>) -> Schedule<T>
        decreases steps.len(),
    {
        if steps.len() == 0 {
            self
        } else {
            self.stepped(steps.first()).after(steps.drop_first())
        }
    }

    /// The tick numbers signalled during a run of steps, in order.
    pub open spec fn ticks_signalled(self, steps: Seq<Step<T>>) -> Seq<i32>
        decreases steps.len(),
    {
        if steps.len() == 0 {
            Seq::empty()
        } else {
            let rest = self.stepped(steps.first()).ticks_signalled(steps.drop_first());
            match self.signalled(steps.first()) {
                Some(number) => seq![number] + rest,
                None => rest,
            }
        }
    }

    /// No step breaks the schedule, and the tick counter moves exactly when a
    /// tick is signalled: by one, to the number signalled.
    pub proof fn lemma_step(self, step: Step<T>)
        requires
            self.wf(),
        ensures
            self.stepped(step).wf(),
            match self.signalled(step) {
                Some(number) => number == self.current_tick + 1 && self.stepped(step).current_tick
                    == number,
                None => self.stepped(step).current_tick == self.current_tick,
            },
    {
        match step {
            Step::Ingest(event) => {},
            Step::Close => {},
            Step::Poll { elapsed } => {
                let after = self.polled(elapsed);
                if self.due().len() > 0 {
                    assert forall|tick: i32, i: int|
                        after.pending.contains_key(tick) && 0 <= i
                            < after.pending[tick].len() implies (
                    #[trigger] after.pending[tick][i]).tick() == tick by {
                        if tick == self.current_tick {
                            assert(after.pending[tick][i] == self.pending[tick][i + 1]);
                        }
                    }
                }
            },
        }
    }

    /// Under any interleaving of arrivals, polls and the end of the source,
    /// the tick numbers signalled count up from the current tick one by one:
    /// none is skipped and none comes twice.
    pub proof fn lemma_ticks_count_up(self, steps: Seq<Step<T>>)
        requires
            self.wf(),
        ensures
            self.after(steps).wf(),
            self.after(steps).current_tick == self.current_tick + self.ticks_signalled(steps).len(),
            forall|k: int|
                0 <= k < self.ticks_signalled(steps).len() ==> #[trigger] self.ticks_signalled(
                    steps,
                )[k] == self.current_tick + 1 + k,
        decreases steps.len(),
    {
        if steps.len() > 0 {
            self.lemma_step(steps.first());
            self.stepped(steps.first()).lemma_ticks_count_up(steps.drop_first());
        }
    }

    /// A tick is signalled only when the minimum tick duration has passed since
    /// the last one and nothing waits for the current tick.
    pub proof fn lemma_tick_only_when_due(self, elapsed: u64)
        ensures
            self.poll_outcome(elapsed) matches Polled::Ready(
                TickSequencedEvent::Tick { dt, number },
            ) ==> elapsed >= self.minimum_tick_duration && dt == elapsed && self.due().len() == 0
                && number == self.current_tick + 1,
    {
    }

    /// Events addressed to different ticks may arrive in either order: the
    /// schedule ends up the same.
    pub proof fn lemma_arrival_order_is_immaterial(self, first: T, second: T)
        requires
            first.tick() != second.tick(),
        ensures
            self.offered(first).offered(second) == self.offered(second).offered(first),
    {
        if admission(self.current_tick, first.tick()) == Admission::Accepted && admission(
            self.current_tick,
            second.tick(),
        ) == Admission::Accepted {
            crate::sim::tick_buffer::lemma_arrival_order_across_ticks(
                self.pending,
                first.tick(),
                first,
                second.tick(),
                second,
            );
        }
    }

    /// An event is delivered only at the tick it is addressed to.
    pub proof fn lemma_event_delivered_at_its_tick(self, elapsed: u64)
        requires
            self.wf(),
        ensures
            self.poll_outcome(elapsed) matches Polled::Ready(TickSequencedEvent::Event(event))
                ==> event.tick() == self.current_tick,
    {
        if self.due().len() > 0 {
            assert(self.pending[self.current_tick][0].tick() == self.current_tick);
        }
    }

    /// The sequence finishes only when the tick counter has run out or the
    /// source has ended, and in either case with nothing left in the buffer:
    /// no event that was accepted is lost.
    pub proof fn lemma_finishes_empty(self, elapsed: u64)
        requires
            self.wf(),
            self.poll_outcome(elapsed) is Finished,
        ensures
            self.current_tick == i32::MAX || self.closed,
            self.pending.dom().is_empty(),
    {
        if self.current_tick == i32::MAX {
            assert forall|tick: i32| !self.pending.dom().contains(tick) by {
                if self.pending.contains_key(tick) {
                    assert(tick == self.current_tick);
                }
            }
            assert(self.pending.dom() =~= Set::empty());
        }
    }
}

pub struct TickSequencedStream<T: GetTick> {
    /// Once this many nanoseconds have passed since the last tick signal, the
    /// next poll that finds nothing waiting for the current tick yields a tick.
    minimum_tick_duration: u64,
    current_tick: i32,
    event_buffer: HashMap<i32, VecDeque<T>>,
    closed: bool,
}

impl<T: GetTick> TickSequencedStream<T> {
    pub closed spec fn view(&self) -> Schedule<T> {
        Schedule {
            minimum_tick_duration: self.minimum_tick_duration,
            current_tick: self.current_tick,
            pending: self.event_buffer@.map_values(|queue: VecDeque<T>| queue@),
            closed: self.closed,
        }
    }

    pub open spec fn wf(&self) -> bool {
        self@.wf()
    }

    pub fn new(minimum_tick_duration: u64) -> (stream: Self)
        ensures
            stream.wf(),
            stream@ == (Schedule::<T> {
                minimum_tick_duration,
                current_tick: 0,
                pending: Map::empty(),
                closed: false,
            }),
    {
        let stream = TickSequencedStream {
            minimum_tick_duration,
            current_tick: 0,
            event_buffer: HashMap::new(),
            closed: false,
        };
        assert(stream@.pending =~= Map::<i32, Seq<T>>::empty());
        stream
    }

    pub fn current_tick(&self) -> (tick: i32)
        ensures
            tick == self@.current_tick,
    {
        self.current_tick
    }

    /// Takes in one event from the source.
    pub fn ingest(&mut self, event: T) -> (outcome: Admission)
        requires
            old(self).wf(),
        ensures
            final(self).wf(),
            outcome == admission(old(self)@.current_tick, event.tick()),
            final(self)@ == old(self)@.offered(event),
    {
        let for_tick = event.get_tick();
        let outcome = decide_admission(self.current_tick, for_tick);
        if let Admission::Accepted = outcome {
            let ghost before = self.event_buffer@;
            let mut queue = match self.event_buffer.remove(&for_tick) {
                Some(queue) => queue,
                None => VecDeque::new(),
            };
            assert(queue@ == waiting(old(self)@.pending, for_tick));
            queue.push_back(event);
            self.event_buffer.insert(for_tick, queue);
            assert(self@.pending =~= with_item(old(self)@.pending, for_tick, event));
        }
        outcome
    }

    /// Records that the source of events has ended.
    pub fn close(&mut self)
        requires
            old(self).wf(),
        ensures
            final(self).wf(),
            final(self)@ == (Schedule { closed: true, ..old(self)@ }),
    {
        self.closed = true;
    }

    /// Yields the next item of the sequence, `elapsed` nanoseconds after the
    /// last tick signal.
    pub fn poll_next(&mut self, elapsed: u64) -> (out: Polled<T>)
        requires
            old(self).wf(),
        ensures
            final(self).wf(),
            out == old(self)@.poll_outcome(elapsed),
            final(self)@ == old(self)@.polled(elapsed),
    {
        let current_tick = self.current_tick;
        match self.event_buffer.remove(&current_tick) {
            Some(mut queue) => {
                assert(queue@ == old(self)@.due());
                let head = queue.pop_front();
                if queue.len() > 0 {
                    self.event_buffer.insert(current_tick, queue);
                }
                assert(self@.pending =~= without_head(old(self)@.pending, current_tick));
                match head {
                    Some(event) => {
                        return Polled::Ready(TickSequencedEvent::Event(event));
                    },
                    None => {},
                }
            },
            None => {},
        }
        assert(self@.pending =~= old(self)@.pending);
        if current_tick == i32::MAX || (self.closed && self.event_buffer.is_empty()) {
            return Polled::Finished;
        }
        if elapsed >= self.minimum_tick_duration {
            self.current_tick = current_tick + 1;
            return Polled::Ready(
                TickSequencedEvent::Tick { dt: elapsed, number: current_tick + 1 },
            );
        }
        Polled::Pending
    }
}

} // verus!

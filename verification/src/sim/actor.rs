//! The simulation engine: one match's game, the inputs waiting for future
//! ticks, and the tick counter.
//!
//! The engine is a state machine driven by messages. It never waits, sleeps or
//! sends: each message changes the state and names the one thing that the
//! engine's owner has to do next (arm a timer, publish a snapshot, stop).

use crate::fifo::{queue_add, queue_new, queue_remove, queued};
use crate::shared_data::Input;
use crate::sim::game::{
    after_input, after_inputs, ids_sequential, new_circle, stepped, Circle, Game, Motion, Point,
};
use crate::sim::tick_buffer::{
    admission, decide_admission, in_window, waiting, with_item, Admission,
};
use crate::time::Timestamp;
use queues::Queue;
use std::collections::HashMap;
use std::time::Duration;
use vstd::prelude::*;

verus! {

broadcast use vstd::std_specs::hash::group_hash_axioms;

#[derive(Debug, Copy, Clone, PartialEq, Eq)]
pub enum SimMessage {
    /// The tick timer has fired.
    Tick,
    SendInput(Input),
    /// Start ticking at the given instant.
    StartAt(Timestamp),
    /// The start timer has fired.
    Start,
    /// The match is over.
    Stop,
}

/// Where the engine is in its life. `Stopped` is final.
#[derive(Debug, Copy, Clone, PartialEq, Eq, Structural)]
pub enum SimPhase {
    Created,
    Scheduled,
    Running,
    Stopped,
}

/// What the engine's owner has to do after a message.
#[derive(Debug, PartialEq, Eq)]
pub enum SimEffect {
    Nothing,
    /// An input was offered to the buffer, with this outcome.
    Offered(Admission),
    /// Deliver `SimMessage::Start` after this many nanoseconds.
    ScheduleStart { delay: u128 },
    /// Deliver `SimMessage::Tick` every `period` from now on.
    StartTicking { period: Duration },
    /// Publish this snapshot as the latest state of the match.
    Publish { tick: i32, game: Game },
    /// Cancel every timer; no further snapshot will follow.
    Halt,
}

#[derive(Debug, Copy, Clone, PartialEq, Eq, Structural)]
pub enum SimError {
    /// The requested start lies before the present.
    StartInPast,
}

#[derive(Debug, Copy, Clone, PartialEq, Eq)]
pub struct SimArguments {
    pub minimum_tick_duration: Duration,
}

pub struct SimState {
    game: Game,
    input_buffer: HashMap<i32, Queue<Input>>,
    current_tick: i32,
    minimum_tick_duration: Duration,
    phase: SimPhase,
}

/// The engine's state as contracts see it.
pub struct SimModel {
    pub circles: Seq<Circle>,
    pub step_dt: Duration,
    pub pending: Map<i32, Seq<Input>>,
    pub current_tick: i32,
    pub minimum_tick_duration: Duration,
    pub phase: SimPhase,
}

impl SimModel {
    pub open spec fn wf(self) -> bool {
        &&& ids_sequential(self.circles)
        &&& in_window(self.pending, self.current_tick)
        &&& forall|tick: i32, i: int|
            self.pending.contains_key(tick) && 0 <= i < self.pending[tick].len() ==> (
            #[trigger] self.pending[tick][i]).for_tick == tick
    }

    /// The inputs that the next tick will apply, in the order they arrived.
    pub open spec fn due(self) -> Seq<Input> {
        waiting(self.pending, self.current_tick)
    }

    /// The state after `input` has been offered to the buffer.
    pub open spec fn buffered(self, input: Input) -> SimModel {
        if admission(self.current_tick, input.for_tick) == Admission::Accepted {
            SimModel { pending: with_item(self.pending, input.for_tick, input), ..self }
        } else {
            self
        }
    }

    /// Whether `after` is a state that one tick can lead to from `self`: the
    /// inputs due are applied in arrival order, then every circle with a
    /// destination is moved by `advance`, the inputs applied leave the buffer,
    /// and the tick counter goes up by one.
    pub open spec fn ticked<F: Fn(Motion) -> Point>(self, advance: F, after: SimModel) -> bool {
        let moved_from = after_inputs(self.circles, self.due());
        &&& after.circles.len() == moved_from.len()
        &&& forall|i: int|
            0 <= i < moved_from.len() ==> stepped(
                advance,
                self.step_dt,
                moved_from[i],
                #[trigger] after.circles[i],
            )
        &&& after.pending == self.pending.remove(self.current_tick)
        &&& after.current_tick == self.current_tick + 1
        &&& after.step_dt == self.step_dt
        &&& after.minimum_tick_duration == self.minimum_tick_duration
        &&& after.phase == self.phase
    }
}

impl SimState {
    pub closed spec fn view(&self) -> SimModel {
        SimModel {
            circles: self.game@,
            step_dt: self.game.dt(),
            pending: self.input_buffer@.map_values(|queue: Queue<Input>| queued(queue)),
            current_tick: self.current_tick,
            minimum_tick_duration: self.minimum_tick_duration,
            phase: self.phase,
        }
    }

    pub open spec fn wf(&self) -> bool {
        self@.wf()
    }

    pub fn current_tick(&self) -> (tick: i32)
        ensures
            tick == self@.current_tick,
    {
        self.current_tick
    }

    pub fn phase(&self) -> (phase: SimPhase)
        ensures
            phase == self@.phase,
    {
        self.phase
    }

    pub fn game(&self) -> (game: &Game)
        ensures
            game@ == self@.circles,
            game.dt() == self@.step_dt,
    {
        &self.game
    }

    /// Fires one tick and returns the snapshot to publish, numbered with the
    /// new tick. When the tick counter has reached its last number nothing
    /// happens and nothing is returned.
    pub fn tick<F: Fn(Motion) -> Point>(&mut self, advance: F) -> (snapshot: Option<(i32, Game)>)
        requires
            old(self).wf(),
            forall|m: Motion| call_requires(advance, (m,)),
        ensures
            final(self).wf(),
            old(self)@.current_tick < i32::MAX ==> old(self)@.ticked(advance, final(self)@) && (
            snapshot matches Some((number, game)) && number == final(self)@.current_tick && game@
                == final(self)@.circles && game.dt() == final(self)@.step_dt),
            old(self)@.current_tick == i32::MAX ==> snapshot is None && final(self)@ == old(self)@,
    {
        if self.current_tick == i32::MAX {
            return None;
        }
        let current_tick = self.current_tick;
        // Apply everything buffered for this tick, oldest first.
        match self.input_buffer.remove(&current_tick) {
            Some(mut tick_buffer) => {
                assert(queued(tick_buffer) == old(self)@.due());
                let ghost rest = self.input_buffer;
                loop
                    invariant
                        self.input_buffer == rest,
                        self.current_tick == old(self).current_tick,
                        self.minimum_tick_duration == old(self).minimum_tick_duration,
                        self.phase == old(self).phase,
                        self.game.wf(),
                        self.game.dt() == old(self).game.dt(),
                        after_inputs(self.game@, queued(tick_buffer)) == after_inputs(
                            old(self).game@,
                            old(self)@.due(),
                        ),
                    ensures
                        self.game@ == after_inputs(old(self).game@, old(self)@.due()),
                    decreases queued(tick_buffer).len(),
                {
                    match queue_remove(&mut tick_buffer) {
                        Some(input) => {
                            self.game.handle_input(input);
                        },
                        None => {
                            break ;
                        },
                    }
                }
            },
            None => {},
        }
        assert(self@.pending =~= old(self)@.pending.remove(current_tick));
        self.game.step(advance);
        self.current_tick = current_tick + 1;
        Some((self.current_tick, self.game.snapshot()))
    }

    /// Puts an input in the queue of the tick it is addressed to, unless that
    /// tick has already fired or lies beyond the look-ahead window.
    pub fn buffer_input(&mut self, input: Input) -> (outcome: Admission)
        requires
            old(self).wf(),
        ensures
            final(self).wf(),
            outcome == admission(old(self)@.current_tick, input.for_tick),
            final(self)@ == old(self)@.buffered(input),
    {
        let outcome = decide_admission(self.current_tick, input.for_tick);
        if let Admission::Accepted = outcome {
            let mut tick_buffer = match self.input_buffer.remove(&input.for_tick) {
                Some(tick_buffer) => tick_buffer,
                None => queue_new(),
            };
            assert(queued(tick_buffer) == waiting(old(self)@.pending, input.for_tick));
            queue_add(&mut tick_buffer, input);
            self.input_buffer.insert(input.for_tick, tick_buffer);
            assert(self@.pending =~= with_item(old(self)@.pending, input.for_tick, input));
        }
        outcome
    }
}

/// What one message does to the engine: `after` and `out` are a state and an
/// answer that handling `message` at the instant `now` can lead to from
/// `before`.
pub open spec fn handled<F: Fn(Motion) -> Point>(
    advance: F,
    before: SimModel,
    message: SimMessage,
    now: Timestamp,
    after: SimModel,
    out: Result<SimEffect, SimError>,
) -> bool {
    match message {
        SimMessage::Tick => if before.phase != SimPhase::Running {
            after == before && out == Ok::<SimEffect, SimError>(SimEffect::Nothing)
        } else if before.current_tick == i32::MAX {
            after == (SimModel { phase: SimPhase::Stopped, ..before }) && out == Ok::<
                SimEffect,
                SimError,
            >(SimEffect::Halt)
        } else {
            &&& before.ticked(advance, after)
            &&& out matches Ok(SimEffect::Publish { tick, game })
            &&& tick == after.current_tick
            &&& game@ == after.circles
            &&& game.dt() == after.step_dt
        },
        SimMessage::SendInput(input) => if before.phase == SimPhase::Stopped {
            after == before && out == Ok::<SimEffect, SimError>(SimEffect::Nothing)
        } else {
            after == before.buffered(input) && out == Ok::<SimEffect, SimError>(
                SimEffect::Offered(admission(before.current_tick, input.for_tick)),
            )
        },
        SimMessage::StartAt(start_at) => if before.phase != SimPhase::Created {
            after == before && out == Ok::<SimEffect, SimError>(SimEffect::Nothing)
        } else if start_at.total_nanos() < now.total_nanos() {
            after == before && out == Err::<SimEffect, SimError>(SimError::StartInPast)
        } else {
            after == (SimModel { phase: SimPhase::Scheduled, ..before }) && out == Ok::<
                SimEffect,
                SimError,
            >(
                SimEffect::ScheduleStart {
                    delay: (start_at.total_nanos() - now.total_nanos()) as u128,
                },
            )
        },
        SimMessage::Start => if before.phase == SimPhase::Created || before.phase
            == SimPhase::Scheduled {
            after == (SimModel { phase: SimPhase::Running, ..before }) && out == Ok::<
                SimEffect,
                SimError,
            >(SimEffect::StartTicking { period: before.minimum_tick_duration })
        } else {
            after == before && out == Ok::<SimEffect, SimError>(SimEffect::Nothing)
        },
        SimMessage::Stop => if before.phase == SimPhase::Stopped {
            after == before && out == Ok::<SimEffect, SimError>(SimEffect::Nothing)
        } else {
            after == (SimModel { phase: SimPhase::Stopped, ..before }) && out == Ok::<
                SimEffect,
                SimError,
            >(SimEffect::Halt)
        },
    }
}

/// Two inputs addressed to different ticks may arrive in either order: the
/// engine ends up in the same state.
pub proof fn lemma_arrival_order_is_immaterial(model: SimModel, first: Input, second: Input)
    requires
        first.for_tick != second.for_tick,
    ensures
        model.buffered(first).buffered(second) == model.buffered(second).buffered(first),
{
    if admission(model.current_tick, first.for_tick) == Admission::Accepted && admission(
        model.current_tick,
        second.for_tick,
    ) == Admission::Accepted {
        crate::sim::tick_buffer::lemma_arrival_order_across_ticks(
            model.pending,
            first.for_tick,
            first,
            second.for_tick,
            second,
        );
    }
}

/// An input that arrives while its tick is current is applied at that tick,
/// after everything that arrived for the tick before it.
pub proof fn lemma_input_for_current_tick_is_due(model: SimModel, input: Input)
    requires
        input.for_tick == model.current_tick,
    ensures
        model.buffered(input).due() == model.due().push(input),
        after_inputs(model.circles, model.buffered(input).due()) == after_input(
            after_inputs(model.circles, model.due()),
            input,
        ),
{
    crate::sim::game::lemma_after_inputs_split(model.circles, model.due(), seq![input]);
    assert(model.due() + seq![input] =~= model.due().push(input));
    assert(seq![input].drop_first() =~= Seq::<Input>::empty());
    let applied = after_inputs(model.circles, model.due());
    assert(after_inputs(applied, seq![input]) == after_inputs(
        after_input(applied, input),
        Seq::<Input>::empty(),
    ));
}

/// An input for a later tick may arrive before or after the current tick
/// fires: what the tick does is the same, and so is the state that results.
/// The later tick is inside the look-ahead window both before and after the
/// current tick fires.
pub proof fn lemma_input_commutes_with_earlier_tick<F: Fn(Motion) -> Point>(
    advance: F,
    before: SimModel,
    after: SimModel,
    input: Input,
)
    requires
        before.ticked(advance, after),
        before.current_tick < input.for_tick,
        input.for_tick - before.current_tick <= crate::sim::tick_buffer::MAX_TICK_LOOKAHEAD,
    ensures
        before.buffered(input).due() == before.due(),
        before.buffered(input).ticked(advance, after.buffered(input)),
{
    assert(with_item(before.pending, input.for_tick, input).remove(before.current_tick)
        =~= with_item(before.pending.remove(before.current_tick), input.for_tick, input));
}

/// Whether the movement function gives one answer to each question.
pub open spec fn single_valued<F: Fn(Motion) -> Point>(advance: F) -> bool {
    forall|m: Motion, p: Point, q: Point|
        #[trigger] call_ensures(advance, (m,), p) && #[trigger] call_ensures(advance, (m,), q)
            ==> p == q
}

/// What a tick leads to depends only on the game, the tick number and the
/// inputs due, not on when those inputs arrived: with a movement function
/// that gives one answer to each question, two engines that agree on these
/// agree on the game and the tick number after the tick.
pub proof fn lemma_equal_engines_tick_alike<F: Fn(Motion) -> Point>(
    advance: F,
    first: SimModel,
    first_after: SimModel,
    second: SimModel,
    second_after: SimModel,
)
    requires
        single_valued(advance),
        first.circles == second.circles,
        first.step_dt == second.step_dt,
        first.current_tick == second.current_tick,
        first.due() == second.due(),
        first.ticked(advance, first_after),
        second.ticked(advance, second_after),
    ensures
        first_after.circles == second_after.circles,
        first_after.step_dt == second_after.step_dt,
        first_after.current_tick == second_after.current_tick,
{
    let moved_from = after_inputs(first.circles, first.due());
    assert forall|i: int| 0 <= i < moved_from.len() implies first_after.circles[i]
        == second_after.circles[i] by {
        assert(stepped(advance, first.step_dt, moved_from[i], first_after.circles[i]));
        assert(stepped(advance, first.step_dt, moved_from[i], second_after.circles[i]));
    }
    assert(first_after.circles =~= second_after.circles);
}

/// Two running engines that agree on the game, the tick number and the inputs
/// due publish equal snapshots at the next tick, given a movement function
/// that gives one answer to each question.
pub proof fn lemma_equal_engines_publish_alike<F: Fn(Motion) -> Point>(
    advance: F,
    first: SimModel,
    first_now: Timestamp,
    first_after: SimModel,
    first_out: Result<SimEffect, SimError>,
    second: SimModel,
    second_now: Timestamp,
    second_after: SimModel,
    second_out: Result<SimEffect, SimError>,
)
    requires
        single_valued(advance),
        first.phase == SimPhase::Running,
        second.phase == SimPhase::Running,
        first.current_tick < i32::MAX,
        first.circles == second.circles,
        first.step_dt == second.step_dt,
        first.current_tick == second.current_tick,
        first.due() == second.due(),
        handled(advance, first, SimMessage::Tick, first_now, first_after, first_out),
        handled(advance, second, SimMessage::Tick, second_now, second_after, second_out),
    ensures
        first_out matches Ok(SimEffect::Publish { tick: first_tick, game: first_game })
            && second_out matches Ok(SimEffect::Publish { tick: second_tick, game: second_game })
            && first_tick == first.current_tick + 1 && second_tick == first_tick && first_game@
            == second_game@ && first_game.dt() == second_game.dt(),
{
    lemma_equal_engines_tick_alike(advance, first, first_after, second, second_after);
}

/// Two circles whose creation is due at one tick are created at that tick
/// with the next two ids, in the order the inputs arrived, each with its
/// creator as owner and at the place asked for. Ids are 64-bit signed, so
/// both must still be free.
pub proof fn lemma_two_creations_in_one_tick<F: Fn(Motion) -> Point>(
    advance: F,
    before: SimModel,
    after: SimModel,
    first: Input,
    second: Input,
)
    requires
        first.input_type is CreateCircle,
        second.input_type is CreateCircle,
        before.circles.len() + 1 <= i64::MAX,
        before.due() == seq![first, second],
        before.ticked(advance, after),
    ensures
        ({
            let count = before.circles.len();
            &&& after.circles.len() == count + 2
            &&& after.circles[count as int] == new_circle(
                count,
                Point { x: first.input_type->CreateCircle_x, y: first.input_type->CreateCircle_y },
                first.player_id,
            )
            &&& after.circles[count as int + 1] == new_circle(
                count + 1,
                Point {
                    x: second.input_type->CreateCircle_x,
                    y: second.input_type->CreateCircle_y,
                },
                second.player_id,
            )
        }),
{
    crate::sim::game::lemma_two_creations(before.circles, first, second);
    let moved_from = after_inputs(before.circles, before.due());
    let count = before.circles.len() as int;
    assert(stepped(advance, before.step_dt, moved_from[count], after.circles[count]));
    assert(stepped(advance, before.step_dt, moved_from[count + 1], after.circles[count + 1]));
}

/// The tick counter moves only when a snapshot is published: by one, to the
/// number that the snapshot carries.
pub proof fn lemma_counter_follows_snapshots<F: Fn(Motion) -> Point>(
    advance: F,
    before: SimModel,
    message: SimMessage,
    now: Timestamp,
    after: SimModel,
    out: Result<SimEffect, SimError>,
)
    requires
        handled(advance, before, message, now, after, out),
    ensures
        match out {
            Ok(SimEffect::Publish { tick, game }) => before.phase == SimPhase::Running && tick
                == before.current_tick + 1 && after.current_tick == tick,
            _ => after.current_tick == before.current_tick,
        },
{
}

/// A stopped engine stays stopped, changes nothing and publishes nothing,
/// whatever it is sent.
pub proof fn lemma_stopped_is_final<F: Fn(Motion) -> Point>(
    advance: F,
    before: SimModel,
    message: SimMessage,
    now: Timestamp,
    after: SimModel,
    out: Result<SimEffect, SimError>,
)
    requires
        before.phase == SimPhase::Stopped,
        handled(advance, before, message, now, after, out),
    ensures
        after == before,
        out == Ok::<SimEffect, SimError>(SimEffect::Nothing),
{
}

/// `Stop` stops the engine in whatever phase it is.
pub proof fn lemma_stop_stops<F: Fn(Motion) -> Point>(
    advance: F,
    before: SimModel,
    now: Timestamp,
    after: SimModel,
    out: Result<SimEffect, SimError>,
)
    requires
        handled(advance, before, SimMessage::Stop, now, after, out),
    ensures
        after.phase == SimPhase::Stopped,
{
}

pub struct SimActor;

impl SimActor {
    /// The engine before its first message: an empty game at tick 0.
    pub fn pre_start(&self, arguments: SimArguments) -> (state: SimState)
        ensures
            state.wf(),
            state@ == (SimModel {
                circles: Seq::empty(),
                step_dt: arguments.minimum_tick_duration,
                pending: Map::empty(),
                current_tick: 0,
                minimum_tick_duration: arguments.minimum_tick_duration,
                phase: SimPhase::Created,
            }),
    {
        let state = SimState {
            game: Game::new(arguments.minimum_tick_duration),
            input_buffer: HashMap::new(),
            current_tick: 0,
            minimum_tick_duration: arguments.minimum_tick_duration,
            phase: SimPhase::Created,
        };
        assert(state@.pending =~= Map::<i32, Seq<Input>>::empty());
        state
    }

    /// Handles one message at the instant `now`. `advance` says where a moving
    /// circle ends up after one step.
    pub fn handle<F: Fn(Motion) -> Point>(
        &self,
        message: SimMessage,
        state: &mut SimState,
        now: Timestamp,
        advance: F,
    ) -> (out: Result<SimEffect, SimError>)
        requires
            old(state).wf(),
            forall|m: Motion| call_requires(advance, (m,)),
        ensures
            final(state).wf(),
            handled(advance, old(state)@, message, now, final(state)@, out),
    {
        match message {
            SimMessage::Tick => {
                if state.phase != SimPhase::Running {
                    return Ok(SimEffect::Nothing);
                }
                match state.tick(advance) {
                    Some((tick, game)) => Ok(SimEffect::Publish { tick, game }),
                    None => {
                        state.phase = SimPhase::Stopped;
                        Ok(SimEffect::Halt)
                    },
                }
            },
            SimMessage::SendInput(input) => {
                if state.phase == SimPhase::Stopped {
                    return Ok(SimEffect::Nothing);
                }
                let outcome = state.buffer_input(input);
                Ok(SimEffect::Offered(outcome))
            },
            SimMessage::StartAt(start_at) => {
                if state.phase != SimPhase::Created {
                    return Ok(SimEffect::Nothing);
                }
                match now.nanos_until(start_at) {
                    Some(delay) => {
                        state.phase = SimPhase::Scheduled;
                        Ok(SimEffect::ScheduleStart { delay })
                    },
                    None => Err(SimError::StartInPast),
                }
            },
            SimMessage::Start => {
                if state.phase == SimPhase::Created || state.phase == SimPhase::Scheduled {
                    state.phase = SimPhase::Running;
                    Ok(SimEffect::StartTicking { period: state.minimum_tick_duration })
                } else {
                    Ok(SimEffect::Nothing)
                }
            },
            SimMessage::Stop => {
                if state.phase == SimPhase::Stopped {
                    Ok(SimEffect::Nothing)
                } else {
                    state.phase = SimPhase::Stopped;
                    Ok(SimEffect::Halt)
                }
            },
        }
    }
}


} // verus!

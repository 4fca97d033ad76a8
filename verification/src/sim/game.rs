//! The authoritative state of one match.
//!
//! A game is an ordered collection of circles. Circle ids are handed out in
//! creation order starting at 0, so in a well-formed game the id of a circle is
//! its index. Movement is numeric work on coordinates that this module does not
//! interpret: `Game::step` asks a caller-supplied function where each moving
//! circle ends up and records the answer.
//!
//! A step changes positions and nothing else: a circle keeps its destination
//! until its owner gives it another. Whether a circle stops on arrival is
//! therefore the movement function's choice. One that returns the destination
//! whenever the remaining distance is within one step stops every circle
//! there; one that always moves a full step may carry a circle past its
//! destination and back.

use crate::shared_data::{Input, InputType};
use std::time::Duration;
use vstd::prelude::*;

verus! {

/// Bit pattern of the speed given to every new circle: 20 map units per second.
pub const DEFAULT_SPEED: u32 = 0x41A0_0000;

/// A position on the map, each coordinate an IEEE-754 binary32 bit pattern.
#[derive(Debug, Copy, Clone, PartialEq, Eq, Structural)]
pub struct Point {
    pub x: u32,
    pub y: u32,
}

#[derive(Debug, Copy, Clone, PartialEq, Eq, Structural)]
pub struct Circle {
    pub player_id: i32,
    pub circle_id: i64,
    /// Map units per second, as a binary32 bit pattern.
    pub speed: u32,
    pub position: Point,
    pub destination: Option<Point>,
}

/// Everything the movement function is told about one moving circle.
#[derive(Debug, Copy, Clone, PartialEq, Eq)]
pub struct Motion {
    pub position: Point,
    pub destination: Point,
    pub speed: u32,
    pub dt: Duration,
}

#[derive(Debug, PartialEq, Eq)]
pub struct Game {
    step_dt: Duration,
    circles: Vec<Circle>,
}

/// Every circle's id is its index.
pub open spec fn ids_sequential(circles: Seq<Circle>) -> bool {
    forall|i: int| 0 <= i < circles.len() ==> (#[trigger] circles[i]).circle_id == i
}

/// The circle that `player_id` creates at `position` in a game that holds `count`
/// circles.
pub open spec fn new_circle(count: nat, position: Point, player_id: i32) -> Circle {
    Circle {
        player_id,
        circle_id: count as i64,
        speed: DEFAULT_SPEED,
        position,
        destination: None,
    }
}

/// The circles after one more is created. Ids are 64-bit signed; once they are
/// used up nothing is created.
pub open spec fn with_circle(circles: Seq<Circle>, position: Point, player_id: i32) -> Seq<
    Circle,
> {
    if circles.len() <= i64::MAX {
        circles.push(new_circle(circles.len(), position, player_id))
    } else {
        circles
    }
}

pub open spec fn has_circle(circles: Seq<Circle>, circle_id: i64) -> bool {
    0 <= circle_id < circles.len()
}

/// Whether the circle exists and belongs to the player.
pub open spec fn owned_by(circles: Seq<Circle>, circle_id: i64, player_id: i32) -> bool {
    has_circle(circles, circle_id) && circles[circle_id as int].player_id == player_id
}

/// The circles after the named circle is sent to `destination`; unchanged if
/// there is no such circle.
pub open spec fn with_destination(circles: Seq<Circle>, circle_id: i64, destination: Point) -> Seq<
    Circle,
> {
    if has_circle(circles, circle_id) {
        circles.update(
            circle_id as int,
            Circle { destination: Some(destination), ..circles[circle_id as int] },
        )
    } else {
        circles
    }
}

/// The circles after one input. A circle is always created; a destination is
/// set only by the circle's owner, and an attempt by anyone else changes nothing.
pub open spec fn after_input(circles: Seq<Circle>, input: Input) -> Seq<Circle> {
    match input.input_type {
        InputType::CreateCircle { x, y } => with_circle(circles, Point { x, y }, input.player_id),
        InputType::SetDestination { circle_id, x, y } => if owned_by(
            circles,
            circle_id,
            input.player_id,
        ) {
            with_destination(circles, circle_id, Point { x, y })
        } else {
            circles
        },
    }
}

/// The circles after a run of inputs, applied first to last.
pub open spec fn after_inputs(circles: Seq<Circle>, inputs: Seq<Input>) -> Seq<Circle>
    decreases inputs.len(),
{
    if inputs.len() == 0 {
        circles
    } else {
        after_inputs(after_input(circles, inputs.first()), inputs.drop_first())
    }
}

/// What the movement function is asked about a circle heading for `destination`.
pub open spec fn motion_of(circle: Circle, destination: Point, dt: Duration) -> Motion {
    Motion { position: circle.position, destination, speed: circle.speed, dt }
}

/// How one circle changes in a step: a circle without a destination stays as it
/// is; one with a destination takes the position that `advance` gives for it
/// and keeps everything else, its destination included.
pub open spec fn stepped<F: Fn(Motion) -> Point>(
    advance: F,
    dt: Duration,
    before: Circle,
    after: Circle,
) -> bool {
    match before.destination {
        None => after == before,
        Some(destination) => {
            &&& call_ensures(advance, (motion_of(before, destination, dt),), after.position)
            &&& after == Circle { position: after.position, ..before }
        },
    }
}

/// One input never removes a circle, never changes who owns a circle or
/// where it is, and keeps the ids in sequence.
pub proof fn lemma_input_keeps_circles(circles: Seq<Circle>, input: Input)
    requires
        ids_sequential(circles),
    ensures
        ids_sequential(after_input(circles, input)),
        circles.len() <= after_input(circles, input).len() <= circles.len() + 1,
        forall|i: int|
            0 <= i < circles.len() ==> {
                let before = circles[i];
                let after = #[trigger] after_input(circles, input)[i];
                after.player_id == before.player_id && after.position == before.position
                    && after.speed == before.speed
            },
{
}

/// Only its owner can send a circle somewhere: an input by any other player
/// leaves the circle exactly as it was.
pub proof fn lemma_input_by_other_player(circles: Seq<Circle>, input: Input, circle_id: i64)
    requires
        has_circle(circles, circle_id),
        input.player_id != circles[circle_id as int].player_id,
    ensures
        after_input(circles, input)[circle_id as int] == circles[circle_id as int],
{
}

/// However many inputs the other players send, and whatever they ask for, a
/// circle stays exactly as its owner left it.
pub proof fn lemma_only_owner_redirects(circles: Seq<Circle>, inputs: Seq<Input>, circle_id: i64)
    requires
        ids_sequential(circles),
        has_circle(circles, circle_id),
        forall|i: int|
            0 <= i < inputs.len() ==> (#[trigger] inputs[i]).player_id
                != circles[circle_id as int].player_id,
    ensures
        has_circle(after_inputs(circles, inputs), circle_id),
        after_inputs(circles, inputs)[circle_id as int] == circles[circle_id as int],
    decreases inputs.len(),
{
    if inputs.len() > 0 {
        let next = after_input(circles, inputs.first());
        lemma_input_keeps_circles(circles, inputs.first());
        lemma_input_by_other_player(circles, inputs.first(), circle_id);
        assert forall|i: int| 0 <= i < inputs.drop_first().len() implies (
        #[trigger] inputs.drop_first()[i]).player_id != next[circle_id as int].player_id by {
            assert(inputs.drop_first()[i] == inputs[i + 1]);
        }
        lemma_only_owner_redirects(next, inputs.drop_first(), circle_id);
    }
}

/// Circles are numbered in the order their creation was asked for: a run of
/// inputs keeps the ids in sequence and never removes a circle.
pub proof fn lemma_inputs_keep_ids_sequential(circles: Seq<Circle>, inputs: Seq<Input>)
    requires
        ids_sequential(circles),
    ensures
        ids_sequential(after_inputs(circles, inputs)),
        circles.len() <= after_inputs(circles, inputs).len() <= circles.len() + inputs.len(),
    decreases inputs.len(),
{
    if inputs.len() > 0 {
        lemma_input_keeps_circles(circles, inputs.first());
        lemma_inputs_keep_ids_sequential(after_input(circles, inputs.first()), inputs.drop_first());
    }
}

/// A run of inputs can be applied in two parts.
pub proof fn lemma_after_inputs_split(circles: Seq<Circle>, first: Seq<Input>, second: Seq<Input>)
    ensures
        after_inputs(circles, first + second) == after_inputs(after_inputs(circles, first), second),
    decreases first.len(),
{
    if first.len() == 0 {
        assert(first + second =~= second);
    } else {
        assert((first + second).first() == first.first());
        assert((first + second).drop_first() =~= first.drop_first() + second);
        lemma_after_inputs_split(after_input(circles, first.first()), first.drop_first(), second);
    }
}

/// A step moves circles and does nothing else to them: id, owner, speed and
/// destination of a circle are after the step what they were before it, and a
/// circle without a destination is not moved either.
pub proof fn lemma_step_only_moves<F: Fn(Motion) -> Point>(
    advance: F,
    dt: Duration,
    before: Circle,
    after: Circle,
)
    requires
        stepped(advance, dt, before, after),
    ensures
        after.circle_id == before.circle_id,
        after.player_id == before.player_id,
        after.speed == before.speed,
        after.destination == before.destination,
        before.destination is None ==> after.position == before.position,
{
}

/// Two circles created one after the other get the next two ids, in the
/// order their creation was asked for, each with its creator as owner and
/// at the place asked for; the circles that were there stay as they were.
/// Ids are 64-bit signed, so both must still be free.
pub proof fn lemma_two_creations(circles: Seq<Circle>, first: Input, second: Input)
    requires
        first.input_type is CreateCircle,
        second.input_type is CreateCircle,
        circles.len() + 1 <= i64::MAX,
    ensures
        ({
            let after = after_inputs(circles, seq![first, second]);
            let count = circles.len();
            &&& after.len() == count + 2
            &&& after.take(count as int) == circles
            &&& after[count as int] == new_circle(
                count,
                Point { x: first.input_type->CreateCircle_x, y: first.input_type->CreateCircle_y },
                first.player_id,
            )
            &&& after[count as int + 1] == new_circle(
                count + 1,
                Point {
                    x: second.input_type->CreateCircle_x,
                    y: second.input_type->CreateCircle_y,
                },
                second.player_id,
            )
        }),
{
    let inputs = seq![first, second];
    let once = after_input(circles, first);
    let twice = after_input(once, second);
    assert(inputs.first() == first);
    assert(inputs.drop_first() =~= seq![second]);
    assert(seq![second].first() == second);
    assert(seq![second].drop_first() =~= Seq::<Input>::empty());
    assert(after_inputs(twice, Seq::<Input>::empty()) == twice);
    assert(after_inputs(once, seq![second]) == twice);
    assert(after_inputs(circles, inputs) == twice);
    assert(twice.take(circles.len() as int) =~= circles);
}

impl Game {
    pub closed spec fn dt(&self) -> Duration {
        self.step_dt
    }

    pub closed spec fn view(&self) -> Seq<Circle> {
        self.circles@
    }

    pub open spec fn wf(&self) -> bool {
        ids_sequential(self@)
    }

    pub fn new(step_dt: Duration) -> (game: Game)
        ensures
            game.wf(),
            game.dt() == step_dt,
            game@ == Seq::<Circle>::empty(),
    {
        Game { step_dt, circles: Vec::new() }
    }

    /// The duration of one step, as given at construction.
    pub fn step_dt(&self) -> (dt: Duration)
        ensures
            dt == self.dt(),
    {
        self.step_dt
    }

    /// The circles, in creation order.
    pub fn circles(&self) -> (circles: &Vec<Circle>)
        ensures
            circles@ == self@,
    {
        &self.circles
    }

    /// An independent copy of the game as it is now.
    pub fn snapshot(&self) -> (copy: Game)
        ensures
            copy@ == self@,
            copy.dt() == self.dt(),
    {
        let mut circles: Vec<Circle> = Vec::new();
        let mut i: usize = 0;
        while i < self.circles.len()
            invariant
                i <= self.circles.len(),
                circles@ == self.circles@.take(i as int),
            decreases self.circles.len() - i,
        {
            circles.push(self.circles[i]);
            i += 1;
        }
        Game { step_dt: self.step_dt, circles }
    }

    /// Moves every circle that has a destination.
    pub fn step<F: Fn(Motion) -> Point>(&mut self, advance: F)
        requires
            old(self).wf(),
            forall|m: Motion| call_requires(advance, (m,)),
        ensures
            final(self).wf(),
            final(self).dt() == old(self).dt(),
            final(self)@.len() == old(self)@.len(),
            forall|i: int|
                0 <= i < old(self)@.len() ==> stepped(
                    advance,
                    old(self).dt(),
                    old(self)@[i],
                    #[trigger] final(self)@[i],
                ),
    {
        self.step_movement(advance);
    }

    pub fn handle_input(&mut self, input: Input)
        requires
            old(self).wf(),
        ensures
            final(self).wf(),
            final(self).dt() == old(self).dt(),
            final(self)@ == after_input(old(self)@, input),
    {
        match input.input_type {
            InputType::CreateCircle { x, y } => self.add_circle(Point { x, y }, input.player_id),
            InputType::SetDestination { circle_id, x, y } => {
                if self.circle_owned_by(circle_id, input.player_id) {
                    self.set_destination(Point { x, y }, circle_id)
                }
            },
        }
    }

    pub fn add_circle(&mut self, position: Point, player_id: i32)
        requires
            old(self).wf(),
        ensures
            final(self).wf(),
            final(self).dt() == old(self).dt(),
            final(self)@ == with_circle(old(self)@, position, player_id),
    {
        let count = self.circles.len();
        if count as u64 <= 0x7FFF_FFFF_FFFF_FFFFu64 {
            self.circles.push(
                Circle {
                    player_id,
                    circle_id: count as i64,
                    speed: DEFAULT_SPEED,
                    position,
                    destination: None,
                },
            );
        }
    }

    pub fn set_destination(&mut self, destination: Point, circle_id: i64)
        requires
            old(self).wf(),
        ensures
            final(self).wf(),
            final(self).dt() == old(self).dt(),
            final(self)@ == with_destination(old(self)@, circle_id, destination),
    {
        if circle_id >= 0 && (circle_id as u64) < self.circles.len() as u64 {
            let index = circle_id as usize;
            let circle = self.circles[index];
            self.circles.set(index, Circle { destination: Some(destination), ..circle });
        }
    }

    fn step_movement<F: Fn(Motion) -> Point>(&mut self, advance: F)
        requires
            old(self).wf(),
            forall|m: Motion| call_requires(advance, (m,)),
        ensures
            final(self).wf(),
            final(self).dt() == old(self).dt(),
            final(self)@.len() == old(self)@.len(),
            forall|i: int|
                0 <= i < old(self)@.len() ==> stepped(
                    advance,
                    old(self).dt(),
                    old(self)@[i],
                    #[trigger] final(self)@[i],
                ),
    {
        let dt = self.step_dt;
        let mut i: usize = 0;
        while i < self.circles.len()
            invariant
                i <= self.circles.len(),
                self.step_dt == dt,
                dt == old(self).step_dt,
                self.circles@.len() == old(self).circles@.len(),
                ids_sequential(self.circles@),
                forall|m: Motion| call_requires(advance, (m,)),
                forall|j: int|
                    0 <= j < i ==> stepped(
                        advance,
                        dt,
                        old(self).circles@[j],
                        #[trigger] self.circles@[j],
                    ),
                forall|j: int|
                    i <= j < self.circles@.len() ==> self.circles@[j] == old(self).circles@[j],
            decreases self.circles.len() - i,
        {
            let circle = self.circles[i];
            if let Some(destination) = circle.destination {
                let position = advance(
                    Motion { position: circle.position, destination, speed: circle.speed, dt },
                );
                self.circles.set(i, Circle { position, ..circle });
            }
            i += 1;
        }
    }

    pub fn circle_owned_by(&self, circle_id: i64, player_id: i32) -> (owned: bool)
        requires
            self.wf(),
        ensures
            owned == owned_by(self@, circle_id, player_id),
    {
        if circle_id >= 0 && (circle_id as u64) < self.circles.len() as u64 {
            self.circles[circle_id as usize].player_id == player_id
        } else {
            false
        }
    }
}

} // verus!

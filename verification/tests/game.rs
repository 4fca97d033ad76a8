use circle_mover::shared_data::{Input, InputType};
use circle_mover::sim::game::{Circle, Game, Motion, Point, DEFAULT_SPEED};
use nalgebra::{Point2, Vector2};
use std::time::Duration;

fn point(x: f32, y: f32) -> Point {
    Point { x: x.to_bits(), y: y.to_bits() }
}

fn coordinates(p: Point) -> (f32, f32) {
    (f32::from_bits(p.x), f32::from_bits(p.y))
}

/// Straight-line movement at `speed * dt`, stopping on the destination when it
/// is within one step.
fn advance(m: Motion) -> Point {
    let position = Point2::new(f32::from_bits(m.position.x), f32::from_bits(m.position.y));
    let destination = Point2::new(f32::from_bits(m.destination.x), f32::from_bits(m.destination.y));
    let reach = f32::from_bits(m.speed) * m.dt.as_secs_f32();
    let remaining: Vector2<f32> = destination - position;
    if remaining.norm() <= reach {
        return m.destination;
    }
    let moved = position + remaining.normalize().scale(reach);
    point(moved.x, moved.y)
}

/// The same movement without the stop: always one full step along the line.
fn advance_unclamped(m: Motion) -> Point {
    let position = Point2::new(f32::from_bits(m.position.x), f32::from_bits(m.position.y));
    let destination = Point2::new(f32::from_bits(m.destination.x), f32::from_bits(m.destination.y));
    let reach = f32::from_bits(m.speed) * m.dt.as_secs_f32();
    let moved = position + (destination - position).normalize().scale(reach);
    point(moved.x, moved.y)
}

fn create(player_id: i32, x: f32, y: f32) -> Input {
    Input {
        for_tick: 0,
        player_id,
        input_type: InputType::CreateCircle { x: x.to_bits(), y: y.to_bits() },
    }
}

fn send(player_id: i32, circle_id: i64, x: f32, y: f32) -> Input {
    Input {
        for_tick: 0,
        player_id,
        input_type: InputType::SetDestination { circle_id, x: x.to_bits(), y: y.to_bits() },
    }
}

#[test]
fn default_speed_is_twenty() {
    assert_eq!(f32::from_bits(DEFAULT_SPEED), 20.0);
}

#[test]
fn new_game_is_empty() {
    let game = Game::new(Duration::from_millis(22));
    assert!(game.circles().is_empty());
    assert_eq!(game.step_dt(), Duration::from_millis(22));
}

#[test]
fn add_circle_assigns_the_next_id() {
    let mut game = Game::new(Duration::from_millis(22));
    game.add_circle(point(1.0, 2.0), 4);
    game.add_circle(point(3.0, 4.0), 9);
    assert_eq!(
        game.circles()[0],
        Circle {
            player_id: 4,
            circle_id: 0,
            speed: DEFAULT_SPEED,
            position: point(1.0, 2.0),
            destination: None,
        }
    );
    assert_eq!(game.circles()[1].circle_id, 1);
    assert_eq!(game.circles()[1].player_id, 9);
}

#[test]
fn circles_created_by_two_players_get_ids_zero_and_one() {
    let mut game = Game::new(Duration::from_millis(22));
    game.handle_input(create(0, 0.0, 0.0));
    game.handle_input(create(1, 7.0, 7.0));
    let circles = game.circles();
    assert_eq!(circles.len(), 2);
    assert_eq!((circles[0].circle_id, circles[0].player_id), (0, 0));
    assert_eq!((circles[1].circle_id, circles[1].player_id), (1, 1));
}

#[test]
fn another_player_cannot_redirect_a_circle() {
    let mut game = Game::new(Duration::from_millis(22));
    game.handle_input(create(0, 0.0, 0.0));
    game.handle_input(send(1, 0, 5.0, 0.0));
    assert_eq!(game.circles()[0].destination, None);
    game.handle_input(send(0, 0, 5.0, 0.0));
    assert_eq!(game.circles()[0].destination, Some(point(5.0, 0.0)));
    game.handle_input(send(1, 0, -3.0, 8.0));
    assert_eq!(game.circles()[0].destination, Some(point(5.0, 0.0)));
}

#[test]
fn destination_for_a_missing_circle_is_dropped() {
    let mut game = Game::new(Duration::from_millis(22));
    game.handle_input(create(0, 0.0, 0.0));
    let before = game.snapshot();
    game.handle_input(send(0, 1, 5.0, 0.0));
    game.handle_input(send(0, -1, 5.0, 0.0));
    game.set_destination(point(1.0, 1.0), 17);
    assert_eq!(game, before);
}

#[test]
fn set_destination_does_not_ask_who_is_calling() {
    let mut game = Game::new(Duration::from_millis(22));
    game.add_circle(point(0.0, 0.0), 3);
    game.set_destination(point(2.0, 2.0), 0);
    assert_eq!(game.circles()[0].destination, Some(point(2.0, 2.0)));
}

#[test]
fn circle_owned_by_knows_owner_and_range() {
    let mut game = Game::new(Duration::from_millis(22));
    game.add_circle(point(0.0, 0.0), 3);
    assert!(game.circle_owned_by(0, 3));
    assert!(!game.circle_owned_by(0, 4));
    assert!(!game.circle_owned_by(1, 3));
    assert!(!game.circle_owned_by(-1, 3));
    assert!(!game.circle_owned_by(i64::MAX, 3));
}

#[test]
fn one_step_covers_the_full_distance() {
    let mut game = Game::new(Duration::from_millis(250));
    game.handle_input(create(0, 0.0, 0.0));
    game.handle_input(send(0, 0, 5.0, 0.0));
    game.step(advance);
    assert_eq!(coordinates(game.circles()[0].position), (5.0, 0.0));
    assert_eq!(game.circles()[0].position, point(5.0, 0.0));
    assert_eq!(game.circles()[0].destination, Some(point(5.0, 0.0)));
}

#[test]
fn a_circle_that_has_arrived_stays() {
    let mut game = Game::new(Duration::from_millis(250));
    game.handle_input(create(0, 0.0, 0.0));
    game.handle_input(send(0, 0, 5.0, 0.0));
    game.step(advance);
    game.step(advance);
    game.step(advance);
    assert_eq!(coordinates(game.circles()[0].position), (5.0, 0.0));
    assert_eq!(game.circles()[0].destination, Some(point(5.0, 0.0)));
}

#[test]
fn a_near_destination_is_not_overshot() {
    let mut game = Game::new(Duration::from_millis(250));
    game.handle_input(create(0, 0.0, 0.0));
    game.handle_input(send(0, 0, 3.0, 0.0));
    game.step(advance);
    assert_eq!(coordinates(game.circles()[0].position), (3.0, 0.0));
    game.step(advance);
    assert_eq!(coordinates(game.circles()[0].position), (3.0, 0.0));
}

#[test]
fn a_far_destination_takes_several_steps() {
    let mut game = Game::new(Duration::from_millis(250));
    game.handle_input(create(0, 0.0, 0.0));
    game.handle_input(send(0, 0, 0.0, 12.0));
    game.step(advance);
    assert_eq!(coordinates(game.circles()[0].position), (0.0, 5.0));
    assert_eq!(game.circles()[0].destination, Some(point(0.0, 12.0)));
    game.step(advance);
    assert_eq!(coordinates(game.circles()[0].position), (0.0, 10.0));
    game.step(advance);
    assert_eq!(coordinates(game.circles()[0].position), (0.0, 12.0));
    assert_eq!(game.circles()[0].destination, Some(point(0.0, 12.0)));
}

#[test]
fn an_unclamped_step_overshoots_and_keeps_the_destination() {
    let mut game = Game::new(Duration::from_millis(250));
    game.handle_input(create(0, 0.0, 0.0));
    game.handle_input(send(0, 0, 3.0, 0.0));
    game.step(advance_unclamped);
    assert_eq!(coordinates(game.circles()[0].position), (5.0, 0.0));
    assert_eq!(game.circles()[0].destination, Some(point(3.0, 0.0)));
    game.step(advance_unclamped);
    assert_eq!(coordinates(game.circles()[0].position), (0.0, 0.0));
}

#[test]
fn circles_without_destination_do_not_move() {
    let mut game = Game::new(Duration::from_millis(250));
    game.handle_input(create(0, 1.0, 1.0));
    game.handle_input(create(1, 2.0, 2.0));
    game.handle_input(send(1, 1, 2.0, 30.0));
    game.step(advance);
    assert_eq!(coordinates(game.circles()[0].position), (1.0, 1.0));
    assert_eq!(coordinates(game.circles()[1].position), (2.0, 7.0));
}

#[test]
fn step_tells_the_movement_function_what_it_needs() {
    let mut game = Game::new(Duration::from_millis(40));
    game.handle_input(create(0, 1.0, 1.0));
    game.handle_input(send(0, 0, 9.0, 9.0));
    game.step(|m: Motion| {
        assert_eq!(
            m,
            Motion {
                position: point(1.0, 1.0),
                destination: point(9.0, 9.0),
                speed: DEFAULT_SPEED,
                dt: Duration::from_millis(40),
            }
        );
        m.position
    });
}

#[test]
fn a_snapshot_does_not_follow_the_game() {
    let mut game = Game::new(Duration::from_millis(22));
    game.handle_input(create(0, 0.0, 0.0));
    let snapshot = game.snapshot();
    game.handle_input(create(1, 1.0, 1.0));
    assert_eq!(snapshot.circles().len(), 1);
    assert_eq!(game.circles().len(), 2);
    assert_eq!(snapshot.step_dt(), game.step_dt());
}

#[test]
fn a_step_changes_positions_only() {
    let mut game = Game::new(Duration::from_millis(250));
    game.handle_input(create(3, 0.0, 0.0));
    game.handle_input(create(4, 1.0, 1.0));
    game.handle_input(send(3, 0, 5.0, 0.0));
    let before = game.snapshot();
    game.step(advance);
    for (old, new) in before.circles().iter().zip(game.circles().iter()) {
        assert_eq!(
            (new.circle_id, new.player_id, new.speed, new.destination),
            (old.circle_id, old.player_id, old.speed, old.destination)
        );
    }
    assert_eq!(game.circles().len(), 2);
    assert_eq!(game.step_dt(), before.step_dt());
    assert_eq!(game.circles()[1].position, before.circles()[1].position);
}

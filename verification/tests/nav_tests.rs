use pod_racer::checkpoints::Checkpoints;
use pod_racer::geometry::Point;
use pod_racer::nav::Command;
use pod_racer::nav::State;
use pod_racer::nav::TickInput;
use pod_racer::nav::tick;
use pod_racer::pod::Pod;
use pod_racer::pod::ThrustCommand;

fn frame(position: Point, checkpoint: Point, dist: i64, angle: i64) -> TickInput {
    TickInput { position, checkpoint, checkpoint_dist: dist, checkpoint_angle: angle }
}

#[test]
fn changing_target_learns_and_emits_the_checkpoint() {
    // An unseen checkpoint (0,0) is learned, committed to, and emitted
    // with the initial full thrust; the state moves to Moving.
    let mut pod = Pod::default();
    let mut map = Checkpoints::default();
    let mut state = State::ChangingTarget;

    let cmd = tick(&mut pod, &mut map, &mut state, frame(Point::new(4000, 4000), Point::new(0, 0), 5657, 0));
    assert_eq!(cmd, Command { target: Point::new(0, 0), thrust: ThrustCommand::Thrust(100) });
    assert!(matches!(state, State::Moving(_)));
    assert_eq!(map.checkpoints.len(), 1);
    assert!(!map.all_mapped);

    // Feeding the same checkpoint again closes the loop and populates one
    // tuned entry per original checkpoint.
    map.add(Point::new(0, 0));
    assert!(map.all_mapped);
    assert_eq!(map.tuned_checkpoints.len(), map.checkpoints.len());
}

#[test]
fn moving_aims_at_the_committed_target() {
    let mut pod = Pod::default();
    let mut map = Checkpoints::default();
    let mut state = State::ChangingTarget;
    // Commit to a freshly learned target first.
    tick(&mut pod, &mut map, &mut state, frame(Point::new(9000, 9000), Point::new(8000, 8000), 1414, 10));
    assert!(matches!(state, State::Moving(_)));

    // Far from the target and misaligned: keep aiming at it, stay in Moving.
    let cmd = tick(&mut pod, &mut map, &mut state, frame(Point::new(9000, 9000), Point::new(8000, 8000), 1414, 10));
    assert_eq!(cmd.target, Point::new(8000, 8000));
    assert!(matches!(state, State::Moving(_)));
}

#[test]
fn reaching_the_target_switches_state_for_the_next_tick() {
    let mut pod = Pod::default();
    let mut map = Checkpoints::default();
    let mut state = State::ChangingTarget;
    tick(&mut pod, &mut map, &mut state, frame(Point::new(0, 0), Point::new(100, 100), 141, 0));
    assert!(matches!(state, State::Moving(_)));

    // Within the switch radius of the target's original checkpoint: the
    // command still steers this tick, but the state flips.
    let cmd = tick(&mut pod, &mut map, &mut state, frame(Point::new(90, 90), Point::new(100, 100), 14, 0));
    assert!(matches!(state, State::ChangingTarget));
    assert_eq!(cmd.target, Point::new(100, 100));
}

#[test]
fn overshoot_arms_three_coasting_ticks() {
    let mut pod = Pod::default();
    let mut map = Checkpoints::default();
    let mut state = State::ChangingTarget;
    tick(&mut pod, &mut map, &mut state, frame(Point::new(0, 0), Point::new(10000, 0), 10000, 0));

    // One tick later the pod has moved 3000 units, so velocity = 3000 and
    // the reported 8000 to go is within three ticks: coasting is armed.
    tick(&mut pod, &mut map, &mut state, frame(Point::new(3000, 0), Point::new(10000, 0), 7000, 0));
    assert_eq!(pod.velocity, 3000);
    assert_eq!(pod.ticks_to_skip, 3);
}

#[test]
fn lookahead_aims_past_a_close_aligned_target() {
    let mut pod = Pod::default();
    let mut map = Checkpoints::default();
    map.add(Point::new(1000, 0));
    map.add(Point::new(5000, 5000));
    map.add(Point::new(1000, 0));
    assert!(map.all_mapped);

    let mut state = State::ChangingTarget;
    // Committing advances the map to checkpoint 1 = (5000,5000).
    tick(&mut pod, &mut map, &mut state, frame(Point::new(2000, 0), Point::new(5000, 5000), 5831, 0));
    assert!(matches!(state, State::Moving(_)));

    // Move back to target checkpoint 1's neighborhood: fully mapped, angle
    // within 3 degrees, effective target within 2000: aim at the checkpoint
    // after the current one, which wraps to (1000,0).
    let cmd = tick(&mut pod, &mut map, &mut state, frame(Point::new(5000, 4000), Point::new(5000, 5000), 1000, 0));
    assert_eq!(cmd.target, Point::new(1000, 0));
}

#[test]
fn no_lookahead_while_the_loop_is_open() {
    let mut pod = Pod::default();
    let mut map = Checkpoints::default();
    let mut state = State::ChangingTarget;
    tick(&mut pod, &mut map, &mut state, frame(Point::new(900, 900), Point::new(1000, 1000), 141, 0));
    assert!(!map.all_mapped);

    // Close to the committed target and aligned, but the map is not fully
    // mapped: keep aiming at the committed target itself.
    let cmd = tick(&mut pod, &mut map, &mut state, frame(Point::new(950, 950), Point::new(1000, 1000), 70, 0));
    assert_eq!(cmd.target, Point::new(1000, 1000));
}

#[test]
fn telemetry_is_recorded_for_the_next_tick() {
    let mut pod = Pod::default();
    let mut map = Checkpoints::default();
    let mut state = State::ChangingTarget;
    tick(&mut pod, &mut map, &mut state, frame(Point::new(0, 0), Point::new(4000, 0), 4000, 17));
    assert_eq!(pod.angle, 17);
    assert_eq!(pod.distance_to_next, 4000);
}

#[test]
fn moving_tick_emits_boost_on_a_long_straight() {
    let mut pod = Pod::default();
    let mut map = Checkpoints::default();
    map.add(Point::new(12000, 0));
    let mut state = State::ChangingTarget;
    // Commit to the far checkpoint; telemetry records 12000 away, angle 0.
    tick(&mut pod, &mut map, &mut state, frame(Point::new(0, 0), Point::new(12000, 0), 12000, 0));

    // The next tick runs the thrust decision with the recorded distance and
    // angle: boost-eligible, so the boost token is emitted once.
    let cmd = tick(&mut pod, &mut map, &mut state, frame(Point::new(100, 0), Point::new(12000, 0), 11900, 0));
    assert_eq!(cmd.thrust, ThrustCommand::Boost);
    assert_eq!(pod.boosts_used, 1);

    let cmd = tick(&mut pod, &mut map, &mut state, frame(Point::new(200, 0), Point::new(12000, 0), 11800, 0));
    assert_ne!(cmd.thrust, ThrustCommand::Boost);
    assert_eq!(pod.boosts_used, 1);
}

#[test]
fn state_transitions_are_explicit() {
    let mut state = State::ChangingTarget;
    let target = pod_racer::checkpoints::Target { original: Point::new(1, 2), tuned: None };
    state.move_to(target);
    assert!(matches!(state, State::Moving(_)));
    state.change_target();
    assert!(matches!(state, State::ChangingTarget));
}

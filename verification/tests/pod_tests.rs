use pod_racer::geometry::Point;
use pod_racer::pod::Pod;
use pod_racer::pod::ThrustCommand;

#[test]
fn velocity_is_zero_on_first_observation() {
    let mut pod = Pod::default();
    assert!(!pod.moving);
    pod.calculate_velocity(Point::new(3000, 4000));
    assert_eq!(pod.velocity, 0);
    assert!(pod.moving);
    assert_eq!(pod.position, Point::new(3000, 4000));
}

#[test]
fn velocity_is_distance_moved_in_one_tick() {
    let mut pod = Pod::default();
    pod.calculate_velocity(Point::new(0, 0));
    pod.calculate_velocity(Point::new(300, 400));
    assert_eq!(pod.velocity, 500);
    assert_eq!(pod.position, Point::new(300, 400));
}

#[test]
fn boost_fires_on_long_straight_approach() {
    // velocity 0, distance 9000, angle 0, no coasting: run() keeps full
    // thrust and spends the one-shot boost.
    let mut pod = Pod::default();
    pod.velocity = 0;
    pod.distance_to_next = 9000;
    pod.angle = 0;
    pod.ticks_to_skip = 0;
    pod.run();
    assert_eq!(pod.thrust, 100);
    assert!(pod.is_boosting);
    assert_eq!(pod.boosts_used, 1);

    // A second identical tick must not boost again: the token is one-shot.
    pod.distance_to_next = 9000;
    pod.angle = 0;
    pod.run();
    assert!(!pod.is_boosting);
    assert_eq!(pod.boosts_used, 1);
    assert_eq!(pod.thrust, 100);
}

#[test]
fn boosts_used_never_passes_one() {
    let mut pod = Pod::default();
    pod.distance_to_next = 20000;
    pod.angle = 0;
    for _ in 0..100 {
        pod.run();
        assert!(pod.boosts_used <= 1);
    }
    assert_eq!(pod.boosts_used, 1);
}

#[test]
fn skip_tick_brakes_and_never_boosts() {
    // ticks_to_skip 2: run() decrements to 1, brakes, and skips the boost
    // check even though distance and angle would qualify.
    let mut pod = Pod::default();
    pod.velocity = 500;
    pod.distance_to_next = 9000;
    pod.angle = 0;
    pod.ticks_to_skip = 2;
    pod.run();
    assert_eq!(pod.ticks_to_skip, 1);
    assert_eq!(pod.thrust, 0);
    assert!(!pod.is_boosting);
    assert_eq!(pod.boosts_used, 0);
}

#[test]
fn skip_tick_keeps_velocity_floor() {
    // Coasting with speed under the floor raises thrust back to full.
    let mut pod = Pod::default();
    pod.velocity = 100;
    pod.ticks_to_skip = 3;
    pod.run();
    assert_eq!(pod.ticks_to_skip, 2);
    assert_eq!(pod.thrust, 100);
}

#[test]
fn no_boost_when_angle_is_off() {
    let mut pod = Pod::default();
    pod.distance_to_next = 9000;
    pod.angle = 1;
    pod.run();
    assert!(!pod.is_boosting);
    assert_eq!(pod.boosts_used, 0);
    assert_eq!(pod.thrust, 100);
}

#[test]
fn no_boost_when_checkpoint_is_near() {
    let mut pod = Pod::default();
    pod.distance_to_next = 8000;
    pod.angle = 0;
    pod.run();
    assert!(!pod.is_boosting);
    assert_eq!(pod.boosts_used, 0);
}

#[test]
fn get_thrust_emits_boost_token_only_while_boosting() {
    let mut pod = Pod::default();
    assert_eq!(pod.get_thrust(), ThrustCommand::Thrust(100));
    pod.boost();
    assert_eq!(pod.get_thrust(), ThrustCommand::Boost);
}

#[test]
fn boost_is_a_noop_once_spent() {
    let mut pod = Pod::default();
    pod.boost();
    assert_eq!(pod.boosts_used, 1);
    pod.is_boosting = false;
    pod.boost();
    assert_eq!(pod.boosts_used, 1);
    assert!(!pod.is_boosting);
}

#[test]
fn skip_ticks_arms_the_counter() {
    let mut pod = Pod::default();
    pod.skip_ticks(3);
    assert_eq!(pod.ticks_to_skip, 3);
}

#[test]
fn default_pod_starts_fresh() {
    let pod = Pod::default();
    assert_eq!(pod.thrust, 100);
    assert_eq!(pod.boosts_used, 0);
    assert_eq!(pod.distance_to_next, i64::MAX);
    assert!(!pod.moving);
    assert!(!pod.is_boosting);
}

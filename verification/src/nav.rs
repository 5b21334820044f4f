//! The navigation state machine and the per-tick decision: one telemetry
//! frame in, one steering command out.

use vstd::prelude::*;

use crate::checkpoints::Checkpoints;
use crate::checkpoints::MapModel;
use crate::checkpoints::Target;
use crate::config::LOOKAHEAD_MAX_ANGLE;
use crate::config::LOOKAHEAD_MAX_DISTANCE;
use crate::config::SKIP_TICKS_ON_OVERSHOOT;
use crate::config::TARGET_SWITCH_RADIUS;
use crate::geometry::Point;
use crate::geometry::distance;
use crate::pod::Pod;
use crate::pod::ThrustCommand;

verus! {

/// The navigation mode: committing to a freshly reached checkpoint, or
/// steering toward the committed target.
#[derive(Clone, Copy, Debug)]
pub enum State {
    Moving(Target),
    ChangingTarget,
}

impl State {
    /// Any target carried by the state is small enough to measure against.
    pub open spec fn wf(self) -> bool {
        match self {
            State::Moving(t) => t.wf(),
            State::ChangingTarget => true,
        }
    }

    /// Commits to `target` and starts steering toward it.
    pub fn move_to(&mut self, target: Target)
        ensures
            *final(self) == State::Moving(target),
    {
        *self = Self::Moving(target);
    }

    /// Drops the committed target; the next tick will pick a fresh one.
    pub fn change_target(&mut self)
        ensures
            *final(self) == State::ChangingTarget,
    {
        *self = Self::ChangingTarget;
    }
}

/// One telemetry frame: own position, the next checkpoint's position, and
/// the externally measured distance and heading angle (degrees) to it.
#[derive(Clone, Copy, Debug)]
pub struct TickInput {
    pub position: Point,
    pub checkpoint: Point,
    pub checkpoint_dist: i64,
    pub checkpoint_angle: i64,
}

/// One steering command: the point to aim at and the thrust token.
#[derive(Clone, Copy, Debug, PartialEq, Eq, Structural)]
pub struct Command {
    pub target: Point,
    pub thrust: ThrustCommand,
}

/// A pod with this tick's externally measured angle and distance recorded
/// for the next tick's decisions.
pub open spec fn telemetry_update(p: Pod, input: TickInput) -> Pod {
    Pod { angle: input.checkpoint_angle, distance_to_next: input.checkpoint_dist, ..p }
}

/// Everything one tick decides, as a function of the prior pod, map and
/// navigation state and of the telemetry frame: the new pod, map and state,
/// and the emitted command.
pub open spec fn tick_spec(pod: Pod, map: MapModel, state: State, input: TickInput) -> (
    Pod,
    MapModel,
    State,
    Command,
) {
    let pod1 = pod.velocity_update(input.position);
    match state {
        State::ChangingTarget => {
            let map1 = if !map.all_mapped {
                map.add_model(input.checkpoint)
            } else {
                map
            };
            let map2 = map1.next_model();
            let target = map2.current_target();
            (
                telemetry_update(pod1, input),
                map2,
                State::Moving(target),
                Command { target: target.effective(), thrust: pod1.thrust_command() },
            )
        },
        State::Moving(target) => {
            let pod2 = pod1.run_result();
            let state2 = if distance(target.original, pod1.position) < TARGET_SWITCH_RADIUS {
                State::ChangingTarget
            } else {
                State::Moving(target)
            };
            let aim = if map.all_mapped && -LOOKAHEAD_MAX_ANGLE <= pod1.angle <= LOOKAHEAD_MAX_ANGLE
                && distance(target.effective(), pod1.position) <= LOOKAHEAD_MAX_DISTANCE {
                map.peek_next()
            } else {
                target.effective()
            };
            let pod3 = if input.checkpoint_dist <= pod1.velocity * 3 {
                Pod { ticks_to_skip: SKIP_TICKS_ON_OVERSHOOT, ..pod2 }
            } else {
                pod2
            };
            (
                telemetry_update(pod3, input),
                map,
                state2,
                Command { target: aim, thrust: pod2.thrust_command() },
            )
        },
    }
}

/// Runs one full tick: re-estimates the pod's speed, lets the navigation
/// state machine learn or advance the checkpoint map and pick the aim point
/// and thrust, records this tick's telemetry for the next tick, and returns
/// the command to emit.
pub fn tick(
    pod: &mut Pod,
    checkpoints: &mut Checkpoints,
    state: &mut State,
    input: TickInput,
) -> (cmd: Command)
    requires
        old(pod).wf(),
        old(checkpoints).wf(),
        old(state).wf(),
        input.position.in_range(),
        input.checkpoint.checkpoint_in_range(),
    ensures
        *final(pod) == tick_spec(*old(pod), old(checkpoints)@, *old(state), input).0,
        final(checkpoints)@ == tick_spec(*old(pod), old(checkpoints)@, *old(state), input).1,
        *final(state) == tick_spec(*old(pod), old(checkpoints)@, *old(state), input).2,
        cmd == tick_spec(*old(pod), old(checkpoints)@, *old(state), input).3,
        final(pod).wf(),
        final(checkpoints).wf(),
        final(state).wf(),
{
    pod.calculate_velocity(input.position);

    let cmd = match *state {
        State::Moving(target) => {
            pod.run();

            if target.original.distance_to(&pod.position) < TARGET_SWITCH_RADIUS {
                state.change_target();
            }

            let effective = target.effective_point();
            let aim = if checkpoints.all_mapped && -LOOKAHEAD_MAX_ANGLE <= pod.angle && pod.angle
                <= LOOKAHEAD_MAX_ANGLE && effective.distance_to(&pod.position)
                <= LOOKAHEAD_MAX_DISTANCE {
                checkpoints.get_next()
            } else {
                effective
            };

            let thrust = pod.get_thrust();

            if input.checkpoint_dist <= pod.velocity * 3 {
                pod.skip_ticks(SKIP_TICKS_ON_OVERSHOOT);
            }

            Command { target: aim, thrust }
        },
        State::ChangingTarget => {
            if !checkpoints.all_mapped {
                checkpoints.add(input.checkpoint);
            }

            checkpoints.next();

            let target = checkpoints.get_current();
            state.move_to(target);

            Command { target: target.effective_point(), thrust: pod.get_thrust() }
        },
    };

    pod.angle = input.checkpoint_angle;
    pod.distance_to_next = input.checkpoint_dist;

    cmd
}

} // verus!

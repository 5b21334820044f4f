//! The pod's own kinematics, thrust state, and the single-use boost budget.

use vstd::prelude::*;

use crate::config::MAX_DISTANCE;
use crate::config::MIN_BOOST_DISTANCE;
use crate::config::MIN_VELOCITY_FLOOR;
use crate::geometry::Point;
use crate::geometry::distance;

verus! {

/// One per-tick thrust order: either the one-shot boost token or a plain
/// thrust level.
#[derive(Clone, Copy, Debug, PartialEq, Eq, Structural)]
pub enum ThrustCommand {
    Boost,
    Thrust(i32),
}

/// The agent's vehicle: position, a finite-difference speed estimate, the
/// thrust state, the boost budget, and the coasting counter.
#[derive(Clone, Copy, Debug)]
pub struct Pod {
    pub position: Point,
    pub velocity: i64,
    pub moving: bool,
    pub angle: i64,
    pub thrust: i32,
    pub boosts_used: u8,
    pub is_boosting: bool,
    pub distance_to_next: i64,
    pub ticks_to_skip: u8,
}

impl Pod {
    /// Invariant kept by every pod operation: thrust stays a percentage,
    /// at most one boost is ever spent, and position and speed stay small
    /// enough for every distance computation.
    pub open spec fn wf(self) -> bool {
        &&& 0 <= self.thrust <= 100
        &&& self.boosts_used <= 1
        &&& self.position.in_range()
        &&& 0 <= self.velocity < MAX_DISTANCE
    }

    /// The speed estimate and position after seeing a new position: zero on
    /// the very first observation, otherwise the distance moved in one tick.
    pub open spec fn velocity_update(self, new_pos: Point) -> Pod {
        Pod {
            position: new_pos,
            velocity: if self.moving {
                distance(self.position, new_pos) as i64
            } else {
                0
            },
            moving: true,
            ..self
        }
    }

    /// Whether this tick's state earns the boost: a long, perfectly
    /// straight approach. `run` also checks that thrust is at full power,
    /// which always holds at the point it decides.
    pub open spec fn boost_eligible(self) -> bool {
        self.distance_to_next > MIN_BOOST_DISTANCE && self.angle == 0
    }

    /// The pod after one `run` decision.
    pub open spec fn run_result(self) -> Pod {
        if self.ticks_to_skip > 0 {
            Pod {
                is_boosting: false,
                ticks_to_skip: (self.ticks_to_skip - 1) as u8,
                thrust: if self.velocity < MIN_VELOCITY_FLOOR {
                    100
                } else {
                    0
                },
                ..self
            }
        } else if self.boost_eligible() && self.boosts_used == 0 {
            Pod {
                is_boosting: true,
                boosts_used: (self.boosts_used + 1) as u8,
                thrust: 100,
                ..self
            }
        } else {
            Pod { is_boosting: false, thrust: 100, ..self }
        }
    }

    /// The thrust token this pod would emit right now.
    pub open spec fn thrust_command(self) -> ThrustCommand {
        if self.is_boosting {
            ThrustCommand::Boost
        } else {
            ThrustCommand::Thrust(self.thrust)
        }
    }

    /// Re-estimates speed from the positional delta since the previous tick,
    /// then records the new position. The very first call only marks the pod
    /// as moving, since no prior position exists.
    pub fn calculate_velocity(&mut self, new_pos: Point)
        requires
            old(self).wf(),
            new_pos.in_range(),
        ensures
            *final(self) == old(self).velocity_update(new_pos),
            final(self).wf(),
    {
        self.velocity = if self.moving {
            self.position.distance_to(&new_pos)
        } else {
            self.moving = true;
            0
        };
        self.position = new_pos;
    }

    /// Sets thrust to full power.
    pub fn full_thrust(&mut self)
        ensures
            *final(self) == (Pod { thrust: 100, ..*old(self) }),
    {
        self.thrust = 100;
    }

    /// Sets thrust to zero.
    pub fn brake(&mut self)
        ensures
            *final(self) == (Pod { thrust: 0, ..*old(self) }),
    {
        self.thrust = 0;
    }

    /// Restores full thrust when speed has fallen below the coasting floor.
    pub fn clamp_thrust(&mut self)
        ensures
            *final(self) == (Pod {
                thrust: if old(self).velocity < MIN_VELOCITY_FLOOR {
                    100
                } else {
                    old(self).thrust
                },
                ..*old(self)
            }),
    {
        if self.velocity < MIN_VELOCITY_FLOOR {
            self.full_thrust();
        }
    }

    /// Spends the one-shot boost; a no-op once it has ever been spent, so
    /// `boosts_used` never exceeds one.
    pub fn boost(&mut self)
        ensures
            old(self).boosts_used > 0 ==> *final(self) == *old(self),
            old(self).boosts_used == 0 ==> *final(self) == (Pod {
                is_boosting: true,
                boosts_used: 1,
                ..*old(self)
            }),
            old(self).boosts_used <= 1 ==> final(self).boosts_used <= 1,
            final(self).boosts_used >= old(self).boosts_used,
    {
        if self.boosts_used > 0 {
            return;
        }
        self.is_boosting = true;
        self.boosts_used = self.boosts_used + 1;
    }

    /// The thrust token to emit: the boost token while boosting, else the
    /// plain thrust level.
    pub fn get_thrust(&self) -> (r: ThrustCommand)
        ensures
            r == self.thrust_command(),
    {
        if self.is_boosting {
            ThrustCommand::Boost
        } else {
            ThrustCommand::Thrust(self.thrust)
        }
    }

    /// The per-tick thrust decision. On a coasting tick it brakes (keeping a
    /// velocity floor) and never considers the boost; otherwise it thrusts at
    /// full power and spends the boost on a long, perfectly straight approach.
    pub fn run(&mut self)
        requires
            old(self).wf(),
        ensures
            *final(self) == old(self).run_result(),
            final(self).wf(),
            final(self).boosts_used >= old(self).boosts_used,
            final(self).boosts_used <= 1,
    {
        self.is_boosting = false;

        if self.ticks_to_skip > 0 {
            self.ticks_to_skip = self.ticks_to_skip - 1;
            self.brake();
            self.clamp_thrust();
            return;
        }

        self.full_thrust();

        if self.distance_to_next > MIN_BOOST_DISTANCE && self.angle == 0 && self.thrust == 100 {
            self.boost();
        }
    }

    /// Arms the coasting counter for `ticks` future ticks.
    pub fn skip_ticks(&mut self, ticks: u8)
        ensures
            *final(self) == (Pod { ticks_to_skip: ticks, ..*old(self) }),
    {
        self.ticks_to_skip = ticks;
    }
}

impl Default for Pod {
    /// A fresh pod: stationary at the origin, full thrust, boost unspent,
    /// and the next checkpoint unboundedly far away.
    fn default() -> (r: Self)
        ensures
            r == (Pod {
                position: Point { x: 0, y: 0 },
                velocity: 0,
                moving: false,
                angle: 0,
                thrust: 100,
                boosts_used: 0,
                is_boosting: false,
                distance_to_next: i64::MAX,
                ticks_to_skip: 0,
            }),
            r.wf(),
    {
        Self {
            position: Point { x: 0, y: 0 },
            velocity: 0,
            moving: false,
            angle: 0,
            thrust: 100,
            boosts_used: 0,
            is_boosting: false,
            distance_to_next: i64::MAX,
            ticks_to_skip: 0,
        }
    }
}

/// Law: a pod that has spent at most one boost still has after any single
/// `run` decision, and the count never decreases.
pub proof fn lemma_boost_budget(p: Pod)
    requires
        p.boosts_used <= 1,
    ensures
        p.run_result().boosts_used <= 1,
        p.run_result().boosts_used >= p.boosts_used,
{
}

/// The pod after `k` successive `run` decisions.
pub open spec fn run_iter(p: Pod, k: nat) -> Pod
    decreases k,
{
    if k == 0 {
        p
    } else {
        run_iter(p, (k - 1) as nat).run_result()
    }
}

/// Law: `boosts_used` never exceeds one across an arbitrarily long sequence
/// of `run` decisions, however often boost-eligible conditions recur.
pub proof fn lemma_boost_budget_over_time(p: Pod, k: nat)
    requires
        p.boosts_used <= 1,
    ensures
        run_iter(p, k).boosts_used <= 1,
    decreases k,
{
    if k > 0 {
        lemma_boost_budget_over_time(p, (k - 1) as nat);
        lemma_boost_budget(run_iter(p, (k - 1) as nat));
    }
}

} // verus!

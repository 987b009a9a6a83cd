//! A rigid-body physics core based on Extended Position-Based Dynamics
//! (XPBD).
//!
//! Bodies and constraints (contacts and joints) are resolved by directly
//! correcting positions and rotations against a compliance model;
//! velocities are then derived from the position change. All quantities
//! are held as fixed-point numbers (see [`fp`]), so every arithmetic step
//! of the solver has an exact, machine-checked meaning.
//!
//! The crate root holds the frame-rate-decoupled stepping loop: wall
//! clock time accumulates, and whole fixed steps are consumed from the
//! accumulator, each running the configured substeps and position
//! iterations; pause, resume and single-step are the only other ways to
//! drive it.

pub mod body;
pub mod broad_phase;
pub mod components;
pub mod contacts;
pub mod fp;
pub mod integrator;
pub mod joints;
pub mod mat3;
pub mod resources;
pub mod rot;
pub mod solver;
pub mod steps;
pub mod trig;
pub mod vec3;

use vstd::prelude::*;
use vstd::arithmetic::div_mod::lemma_fundamental_div_mod_converse;
use crate::fp::{fp_add, sadd, sat64, tdiv};
use crate::resources::{Gravity, NumPosIters, NumSubsteps, DELTA_TIME_FP};
use crate::solver::{lemma_bodies_frame_composes, lemma_joints_frame_composes, lemma_stepped_n_extend, lemma_stepped_n_zero, physics_step, same_but_lambda, same_but_motion, stepped_n_s, World};
use crate::components::RigidBody;

verus! {

/// Whether the scheduler should run physics work now.
#[derive(Clone, Copy, Debug, PartialEq, Eq, Structural)]
pub enum ShouldRun {
    /// No work this frame.
    No,
    /// Run and ask again (another substep of the same step may follow).
    YesAndCheckAgain,
}

/// The state of the fixed-timestep loop: the time accumulator, the
/// substep cursor, and the pause / single-step controls.
#[derive(Clone, Copy, Debug, PartialEq, Eq, Structural)]
pub struct XpbdLoop {
    /// Whether this frame's elapsed time has been added already.
    pub has_added_time: bool,
    /// Unconsumed time, in fixed-point seconds.
    pub accumulator: i64,
    /// Whether a step's substeps are currently being consumed.
    pub substepping: bool,
    /// Which substep of the current step runs next.
    pub current_substep: u32,
    /// Manual steps queued while paused.
    pub queued_steps: u32,
    /// While paused, only queued manual steps run.
    pub paused: bool,
}

/// The scheduling decision for one invocation: elapsed time is added once
/// per frame (a synthetic amount per queued step while paused), the
/// substep cursor advances while a step is being consumed, a finished
/// step consumes a queued step or one fixed timestep from the
/// accumulator, and a new step begins whenever a whole timestep is
/// available.
pub open spec fn run_criteria_s(state: XpbdLoop, elapsed: i64, substeps: u32) -> (
    XpbdLoop,
    ShouldRun,
) {
    if state.paused && state.queued_steps == 0 {
        (state, ShouldRun::No)
    } else {
        let st1 = if !state.has_added_time {
            let acc = if state.paused {
                sadd(state.accumulator, sat64(DELTA_TIME_FP * state.queued_steps as int) as i64)
            } else {
                sadd(state.accumulator, elapsed)
            };
            XpbdLoop { has_added_time: true, accumulator: acc, ..state }
        } else {
            state
        };
        if st1.substepping {
            let next = if st1.current_substep == u32::MAX {
                0u32
            } else {
                (st1.current_substep + 1) as u32
            };
            let st2 = XpbdLoop { current_substep: next, ..st1 };
            if st2.current_substep < substeps {
                (st2, ShouldRun::YesAndCheckAgain)
            } else {
                let st3 = if st2.paused && st2.queued_steps > 0 {
                    XpbdLoop { queued_steps: (st2.queued_steps - 1) as u32, ..st2 }
                } else {
                    XpbdLoop { accumulator: crate::fp::ssub(st2.accumulator, DELTA_TIME_FP), ..st2 }
                };
                let st4 = XpbdLoop { current_substep: 0, substepping: false, ..st3 };
                next_step_decision(st4)
            }
        } else {
            next_step_decision(st1)
        }
    }
}

/// Whether a whole fixed timestep is available to begin a new step.
pub open spec fn next_step_decision(state: XpbdLoop) -> (XpbdLoop, ShouldRun) {
    if state.accumulator >= DELTA_TIME_FP {
        (XpbdLoop { substepping: true, current_substep: 0, ..state }, ShouldRun::YesAndCheckAgain)
    } else {
        (XpbdLoop { has_added_time: false, ..state }, ShouldRun::No)
    }
}

/// How many whole fixed timesteps an accumulator holds.
pub open spec fn steps_due(acc: int) -> int {
    if acc >= DELTA_TIME_FP {
        tdiv(acc, DELTA_TIME_FP as int)
    } else {
        0
    }
}

impl XpbdLoop {
    /// A fresh loop: nothing accumulated, running.
    pub fn new() -> (r: XpbdLoop)
        ensures
            r == (XpbdLoop {
                has_added_time: false,
                accumulator: 0,
                substepping: false,
                current_substep: 0,
                queued_steps: 0,
                paused: false,
            }),
    {
        XpbdLoop {
            has_added_time: false,
            accumulator: 0,
            substepping: false,
            current_substep: 0,
            queued_steps: 0,
            paused: false,
        }
    }

    /// Queues exactly one manual step (meaningful while paused). The
    /// count saturates at its machine limit.
    pub fn step(&mut self)
        ensures
            old(self).queued_steps < u32::MAX ==> *final(self) == (XpbdLoop {
                queued_steps: (old(self).queued_steps + 1) as u32,
                ..*old(self)
            }),
            old(self).queued_steps == u32::MAX ==> *final(self) == *old(self),
    {
        if self.queued_steps < u32::MAX {
            self.queued_steps = self.queued_steps + 1;
        }
    }

    /// Pauses the loop; only queued manual steps run until resumed.
    pub fn pause(&mut self)
        ensures
            *final(self) == (XpbdLoop { paused: true, ..*old(self) }),
    {
        self.paused = true;
    }

    /// Resumes the loop.
    pub fn resume(&mut self)
        ensures
            *final(self) == (XpbdLoop { paused: false, ..*old(self) }),
    {
        self.paused = false;
    }

    /// One scheduling decision; see [`run_criteria_s`].
    pub fn run_criteria(&mut self, elapsed: i64, substeps: &NumSubsteps) -> (r: ShouldRun)
        ensures
            (*final(self), r) == run_criteria_s(*old(self), elapsed, substeps.0),
    {
        if self.paused && self.queued_steps == 0 {
            return ShouldRun::No;
        }
        if !self.has_added_time {
            self.has_added_time = true;
            if self.paused {
                let q: i64 = self.queued_steps as i64;
                let queued_time: i64 = match DELTA_TIME_FP.checked_mul(q) {
                    Some(t) => t,
                    None => i64::MAX,
                };
                proof {
                    assert(queued_time as int == sat64(
                        DELTA_TIME_FP * old(self).queued_steps as int,
                    ));
                }
                self.accumulator = fp_add(self.accumulator, queued_time);
            } else {
                self.accumulator = fp_add(self.accumulator, elapsed);
            }
        }
        if self.substepping {
            self.current_substep = self.current_substep.wrapping_add(1);
            if self.current_substep < substeps.0 {
                return ShouldRun::YesAndCheckAgain;
            } else {
                if self.paused && self.queued_steps > 0 {
                    self.queued_steps = self.queued_steps - 1;
                } else {
                    self.accumulator = crate::fp::fp_sub(self.accumulator, DELTA_TIME_FP);
                }
                self.current_substep = 0;
                self.substepping = false;
            }
        }
        if self.accumulator >= DELTA_TIME_FP {
            self.substepping = true;
            self.current_substep = 0;
            ShouldRun::YesAndCheckAgain
        } else {
            self.has_added_time = false;
            ShouldRun::No
        }
    }

    /// Feeds one frame's elapsed wall-clock time and runs every whole
    /// fixed step that is now due (all queued manual steps instead, if
    /// paused), returning how many fixed steps actually executed. The
    /// accumulator keeps the remainder; a static or kinematic body is
    /// never altered by any number of executed steps.
    #[verifier::rlimit(100)]
    pub fn advance(
        &mut self,
        world: &mut World,
        elapsed: i64,
        substeps: &NumSubsteps,
        pos_iters: &NumPosIters,
        gravity: &Gravity,
    ) -> (steps: u64)
        requires
            old(world).wf(),
            substeps.0 >= 1,
            0 <= elapsed,
            0 <= old(self).accumulator,
        ensures
            final(self).paused == old(self).paused,
            old(self).paused ==> steps == old(self).queued_steps && final(self).queued_steps == 0
                && final(self).accumulator == old(self).accumulator,
            !old(self).paused ==> steps == steps_due(sadd(old(self).accumulator, elapsed) as int)
                && final(self).accumulator == sadd(old(self).accumulator, elapsed) - steps
                * DELTA_TIME_FP && final(self).accumulator < DELTA_TIME_FP
                && final(self).queued_steps == old(self).queued_steps,
            stepped_n_s(
                old(world).bodies@,
                old(world).shapes@,
                old(world).joints@,
                gravity.0,
                substeps.0,
                pos_iters.0,
                final(world).bodies@,
                final(world).joints@,
                steps as nat,
            ),
            final(world).wf(),
            final(world).bodies.len() == old(world).bodies.len(),
            final(world).shapes == old(world).shapes,
            final(world).joints.len() == old(world).joints.len(),
            forall|i: int|
                0 <= i < old(world).bodies.len() ==> same_but_motion(
                    #[trigger] old(world).bodies@[i],
                    final(world).bodies@[i],
                ),
            forall|i: int|
                0 <= i < old(world).bodies.len() && (#[trigger] old(world).bodies@[i]).rigid_body
                    != RigidBody::Dynamic ==> final(world).bodies@[i] == old(world).bodies@[i],
            forall|k: int|
                0 <= k < old(world).joints.len() ==> same_but_lambda(
                    #[trigger] old(world).joints@[k],
                    final(world).joints@[k],
                ),
    {
        proof {
            lemma_stepped_n_zero(
                old(world).bodies@,
                old(world).shapes@,
                old(world).joints@,
                gravity.0,
                substeps.0,
                pos_iters.0,
            );
        }
        let mut steps: u64 = 0;
        if self.paused {
            while self.queued_steps > 0
                invariant
                    world.wf(),
                    substeps.0 >= 1,
                    self.paused == old(self).paused,
                    self.accumulator == old(self).accumulator,
                    self.has_added_time == old(self).has_added_time,
                    self.substepping == old(self).substepping,
                    self.current_substep == old(self).current_substep,
                    steps + self.queued_steps == old(self).queued_steps,
                    world.bodies.len() == old(world).bodies.len(),
                    world.shapes == old(world).shapes,
                    world.joints.len() == old(world).joints.len(),
                    stepped_n_s(
                        old(world).bodies@,
                        old(world).shapes@,
                        old(world).joints@,
                        gravity.0,
                        substeps.0,
                        pos_iters.0,
                        world.bodies@,
                        world.joints@,
                        steps as nat,
                    ),
                    forall|i: int|
                        0 <= i < old(world).bodies.len() ==> same_but_motion(
                            #[trigger] old(world).bodies@[i],
                            world.bodies@[i],
                        ),
                    forall|i: int|
                        0 <= i < old(world).bodies.len() && (
                        #[trigger] old(world).bodies@[i]).rigid_body != RigidBody::Dynamic
                            ==> world.bodies@[i] == old(world).bodies@[i],
                    forall|k: int|
                        0 <= k < old(world).joints.len() ==> same_but_lambda(
                            #[trigger] old(world).joints@[k],
                            world.joints@[k],
                        ),
                decreases self.queued_steps,
            {
                let ghost pre = world.bodies@;
                let ghost pre_joints = world.joints@;
                physics_step(world, gravity, substeps, pos_iters);
                proof {
                    lemma_stepped_n_extend(
                        old(world).bodies@,
                        old(world).shapes@,
                        old(world).joints@,
                        gravity.0,
                        substeps.0,
                        pos_iters.0,
                        pre,
                        pre_joints,
                        world.bodies@,
                        world.joints@,
                        steps as nat,
                    );
                    lemma_bodies_frame_composes(old(world).bodies@, pre, world.bodies@);
                    lemma_joints_frame_composes(old(world).joints@, pre_joints, world.joints@);
                }
                self.queued_steps = self.queued_steps - 1;
                steps = steps + 1;
            }
            return steps;
        }
        self.accumulator = fp_add(self.accumulator, elapsed);
        let ghost acc1 = self.accumulator as int;
        while self.accumulator >= DELTA_TIME_FP
            invariant
                world.wf(),
                substeps.0 >= 1,
                self.paused == old(self).paused,
                !self.paused,
                self.queued_steps == old(self).queued_steps,
                self.has_added_time == old(self).has_added_time,
                self.substepping == old(self).substepping,
                self.current_substep == old(self).current_substep,
                0 <= self.accumulator,
                0 <= acc1 <= i64::MAX as int,
                acc1 == self.accumulator + steps * DELTA_TIME_FP,
                world.bodies.len() == old(world).bodies.len(),
                world.shapes == old(world).shapes,
                world.joints.len() == old(world).joints.len(),
                stepped_n_s(
                    old(world).bodies@,
                    old(world).shapes@,
                    old(world).joints@,
                    gravity.0,
                    substeps.0,
                    pos_iters.0,
                    world.bodies@,
                    world.joints@,
                    steps as nat,
                ),
                forall|i: int|
                    0 <= i < old(world).bodies.len() ==> same_but_motion(
                        #[trigger] old(world).bodies@[i],
                        world.bodies@[i],
                    ),
                forall|i: int|
                    0 <= i < old(world).bodies.len() && (
                    #[trigger] old(world).bodies@[i]).rigid_body != RigidBody::Dynamic
                        ==> world.bodies@[i] == old(world).bodies@[i],
                forall|k: int|
                    0 <= k < old(world).joints.len() ==> same_but_lambda(
                        #[trigger] old(world).joints@[k],
                        world.joints@[k],
                    ),
            decreases self.accumulator,
        {
            let ghost pre = world.bodies@;
            let ghost pre_joints = world.joints@;
            physics_step(world, gravity, substeps, pos_iters);
            proof {
                lemma_stepped_n_extend(
                    old(world).bodies@,
                    old(world).shapes@,
                    old(world).joints@,
                    gravity.0,
                    substeps.0,
                    pos_iters.0,
                    pre,
                    pre_joints,
                    world.bodies@,
                    world.joints@,
                    steps as nat,
                );
                lemma_bodies_frame_composes(old(world).bodies@, pre, world.bodies@);
                lemma_joints_frame_composes(old(world).joints@, pre_joints, world.joints@);
            }
            self.accumulator = self.accumulator - DELTA_TIME_FP;
            proof {
                assert(DELTA_TIME_FP == 17476);
                assert(steps * DELTA_TIME_FP <= acc1);
                assert(steps <= acc1);
            }
            steps = steps + 1;
        }
        proof {
            if acc1 >= DELTA_TIME_FP {
                lemma_fundamental_div_mod_converse(
                    acc1,
                    DELTA_TIME_FP as int,
                    steps as int,
                    self.accumulator as int,
                );
                assert(steps == tdiv(acc1, DELTA_TIME_FP as int));
            }
            assert(steps == steps_due(acc1));
        }
        steps
    }
}

impl Default for XpbdLoop {
    /// A fresh loop: nothing accumulated, running.
    fn default() -> (r: Self)
        ensures
            r == (XpbdLoop {
                has_added_time: false,
                accumulator: 0,
                substepping: false,
                current_substep: 0,
                queued_steps: 0,
                paused: false,
            }),
    {
        XpbdLoop::new()
    }
}

} // verus!

//! The fixed-timestep loop and the broad phase.

use xpbd::body::Body;
use xpbd::broad_phase::broad_phase;
use xpbd::components::{ColliderAabb, RigidBody};
use xpbd::fp::FP_ONE;
use xpbd::resources::{Gravity, NumPosIters, NumSubsteps, DELTA_TIME_FP};
use xpbd::solver::World;
use xpbd::vec3::Vec3;
use xpbd::{ShouldRun, XpbdLoop};

fn aabb(x0: f64, x1: f64) -> ColliderAabb {
    let lo = (x0 * FP_ONE as f64) as i64;
    let hi = (x1 * FP_ONE as f64) as i64;
    ColliderAabb { mins: Vec3::new(lo, 0, 0), maxs: Vec3::new(hi, FP_ONE, FP_ONE) }
}

#[test]
fn broad_phase_reports_each_overlapping_pair_once_in_order() {
    let aabbs = vec![aabb(0.0, 1.0), aabb(0.5, 1.5), aabb(0.9, 2.0), aabb(5.0, 6.0)];
    let kinds = vec![
        RigidBody::Dynamic,
        RigidBody::Static,
        RigidBody::Dynamic,
        RigidBody::Dynamic,
    ];
    let pairs = broad_phase(&aabbs, &kinds);
    assert_eq!(pairs, vec![(0usize, 1usize), (0, 2), (1, 2)]);
}

#[test]
fn broad_phase_skips_pairs_of_non_dynamic_bodies() {
    let aabbs = vec![aabb(0.0, 1.0), aabb(0.5, 1.5), aabb(0.8, 1.2)];
    let kinds = vec![RigidBody::Static, RigidBody::Kinematic, RigidBody::Dynamic];
    let pairs = broad_phase(&aabbs, &kinds);
    // The static/kinematic pair is excluded; pairs with the dynamic body stay.
    assert_eq!(pairs, vec![(0usize, 2usize), (1, 2)]);
}

#[test]
fn advance_consumes_whole_fixed_steps() {
    let mut state = XpbdLoop::new();
    let mut world = World::new();
    let substeps = NumSubsteps::default();
    let iters = NumPosIters::default();
    let g = Gravity::default();
    // A thirtieth of a second holds exactly two sixtieths, plus change.
    let elapsed = 2 * DELTA_TIME_FP + 48;
    let steps = state.advance(&mut world, elapsed, &substeps, &iters, &g);
    assert_eq!(steps, 2);
    assert_eq!(state.accumulator, 48);
    // Less than one step's worth: nothing runs, the remainder accumulates.
    let steps2 = state.advance(&mut world, DELTA_TIME_FP - 100, &substeps, &iters, &g);
    assert_eq!(steps2, 0);
    assert_eq!(state.accumulator, DELTA_TIME_FP - 52);
}

#[test]
fn paused_loop_runs_only_queued_steps() {
    let mut state = XpbdLoop::new();
    let mut world = World::new();
    let ball = Body::new_dynamic().with_mass_props_from_shape(
        &xpbd::components::Shape::Sphere { radius: FP_ONE / 2 },
        FP_ONE,
    );
    let ib = world.add_body(ball, None);
    let substeps = NumSubsteps::default();
    let iters = NumPosIters::default();
    let g = Gravity::default();

    state.pause();
    let none = state.advance(&mut world, 10 * DELTA_TIME_FP, &substeps, &iters, &g);
    assert_eq!(none, 0);
    assert_eq!(world.bodies[ib].pos, Vec3::new(0, 0, 0));

    state.step();
    state.step();
    let two = state.advance(&mut world, 10 * DELTA_TIME_FP, &substeps, &iters, &g);
    assert_eq!(two, 2);
    assert_eq!(state.queued_steps, 0);
    // The queued steps really ran: gravity moved the ball.
    assert!(world.bodies[ib].pos.y < 0);

    state.resume();
    assert!(!state.paused);
}

#[test]
fn run_criteria_walks_the_substeps_of_one_step() {
    let mut state = XpbdLoop::new();
    let substeps = NumSubsteps(2);
    // One whole timestep arrives: a step begins.
    assert_eq!(state.run_criteria(DELTA_TIME_FP, &substeps), ShouldRun::YesAndCheckAgain);
    assert!(state.substepping);
    // Second substep of the same step.
    assert_eq!(state.run_criteria(0, &substeps), ShouldRun::YesAndCheckAgain);
    // The step completes, its timestep is consumed, and no further step
    // is due.
    assert_eq!(state.run_criteria(0, &substeps), ShouldRun::No);
    assert!(!state.substepping);
    assert_eq!(state.accumulator, 0);
}

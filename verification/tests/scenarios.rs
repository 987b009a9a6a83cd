//! End-to-end solver scenarios.

use xpbd::body::Body;
use xpbd::components::{Friction, Shape};
use xpbd::fp::FP_ONE;
use xpbd::joints::{Joint, JointKind};
use xpbd::resources::{Gravity, NumPosIters, NumSubsteps};
use xpbd::solver::{physics_step, World};
use xpbd::vec3::Vec3;

fn fp(x: f64) -> i64 {
    (x * FP_ONE as f64).round() as i64
}

fn to_f(x: i64) -> f64 {
    x as f64 / FP_ONE as f64
}

fn no_gravity() -> Gravity {
    Gravity(Vec3::new(0, 0, 0))
}

#[test]
fn fixed_joint_conserves_relative_configuration() {
    // Two dynamic bodies rigidly joined, both given the same initial
    // velocity, no external forces and zero compliance: their relative
    // position and orientation must not drift.
    let mut world = World::new();
    let shape = Shape::Sphere { radius: fp(0.5) };
    let v = Vec3::new(fp(1.5), fp(0.4), fp(-0.3));
    let b0 = Body::new_dynamic().with_mass_props_from_shape(&shape, FP_ONE).with_lin_vel(v);
    let b1 = Body::new_dynamic()
        .with_mass_props_from_shape(&shape, FP_ONE)
        .with_pos(Vec3::new(FP_ONE, 0, 0))
        .with_lin_vel(v);
    let i0 = world.add_body(b0, None);
    let i1 = world.add_body(b1, None);
    let joint = Joint::new_with_compliance(i0, i1, 0, JointKind::Fixed)
        .unwrap()
        .with_local_anchor_1(Vec3::new(fp(0.5), 0, 0))
        .with_local_anchor_2(Vec3::new(fp(-0.5), 0, 0));
    world.add_joint(joint);

    let substeps = NumSubsteps::default();
    let iters = NumPosIters::default();
    let g = no_gravity();
    for _ in 0..60 {
        physics_step(&mut world, &g, &substeps, &iters);
    }
    let d = world.bodies[i1].pos.minus(&world.bodies[i0].pos);
    assert!((to_f(d.x) - 1.0).abs() < 1e-3, "dx = {}", to_f(d.x));
    assert!(to_f(d.y).abs() < 1e-3);
    assert!(to_f(d.z).abs() < 1e-3);
    // Orientations stay aligned.
    let rel = world.bodies[i1].rot.mul(&world.bodies[i0].rot.inv());
    assert!(to_f(rel.x).abs() < 1e-2 && to_f(rel.y).abs() < 1e-2 && to_f(rel.z).abs() < 1e-2);
}

#[test]
fn fixed_joint_drags_its_partner_without_drift() {
    // Only the first body starts moving; the rigid joint shares the
    // motion, and after the pair reaches common velocity the anchors
    // stay together.
    let mut world = World::new();
    let shape = Shape::Sphere { radius: fp(0.5) };
    let b0 = Body::new_dynamic()
        .with_mass_props_from_shape(&shape, FP_ONE)
        .with_lin_vel(Vec3::new(fp(0.4), 0, 0));
    let b1 = Body::new_dynamic()
        .with_mass_props_from_shape(&shape, FP_ONE)
        .with_pos(Vec3::new(FP_ONE, 0, 0));
    let i0 = world.add_body(b0, None);
    let i1 = world.add_body(b1, None);
    let joint = Joint::new_with_compliance(i0, i1, 0, JointKind::Fixed)
        .unwrap()
        .with_local_anchor_1(Vec3::new(fp(0.5), 0, 0))
        .with_local_anchor_2(Vec3::new(fp(-0.5), 0, 0));
    world.add_joint(joint);

    let substeps = NumSubsteps::default();
    let iters = NumPosIters::default();
    let g = no_gravity();
    for _ in 0..120 {
        physics_step(&mut world, &g, &substeps, &iters);
    }
    let a1 = world.bodies[i0].pos.plus(&world.bodies[i0].rot.rotate(&Vec3::new(fp(0.5), 0, 0)));
    let a2 = world.bodies[i1].pos.plus(&world.bodies[i1].rot.rotate(&Vec3::new(fp(-0.5), 0, 0)));
    let drift = a2.minus(&a1).length();
    assert!(to_f(drift) < 0.02, "anchor drift {}", to_f(drift));
}

#[test]
fn satisfied_joint_is_a_fixed_point_of_the_solve() {
    // Two bodies already satisfying their joint, at rest, no external
    // forces: stepping changes nothing at all.
    let mut world = World::new();
    let shape = Shape::Sphere { radius: fp(0.5) };
    let b0 = Body::new_dynamic().with_mass_props_from_shape(&shape, FP_ONE);
    let b1 = Body::new_dynamic()
        .with_mass_props_from_shape(&shape, FP_ONE)
        .with_pos(Vec3::new(FP_ONE, 0, 0));
    let i0 = world.add_body(b0, None);
    let i1 = world.add_body(b1, None);
    let joint = Joint::new_with_compliance(i0, i1, 0, JointKind::Spherical)
        .unwrap()
        .with_local_anchor_1(Vec3::new(fp(0.5), 0, 0))
        .with_local_anchor_2(Vec3::new(fp(-0.5), 0, 0));
    world.add_joint(joint);
    let s0 = world.bodies[i0];
    let s1 = world.bodies[i1];
    let substeps = NumSubsteps::default();
    let iters = NumPosIters::default();
    let g = no_gravity();
    for _ in 0..10 {
        physics_step(&mut world, &g, &substeps, &iters);
    }
    assert_eq!(world.bodies[i0].pos, s0.pos);
    assert_eq!(world.bodies[i1].pos, s1.pos);
    assert_eq!(world.bodies[i0].rot, s0.rot);
    assert_eq!(world.bodies[i1].rot, s1.rot);
    assert_eq!(world.bodies[i0].lin_vel, s0.lin_vel);
    assert_eq!(world.bodies[i1].lin_vel, s1.lin_vel);
}

#[test]
fn kinematic_bodies_are_never_touched_by_the_solver() {
    // A kinematic body with incident joints and contacts keeps its
    // position and velocity bit-for-bit, however many steps run.
    let mut world = World::new();
    let shape = Shape::Sphere { radius: fp(0.5) };
    let kin = Body::new_kinematic()
        .with_pos(Vec3::new(0, fp(1.0), 0))
        .with_lin_vel(Vec3::new(fp(0.3), 0, 0))
        .with_ang_vel(Vec3::new(0, fp(0.2), 0));
    let ik = world.add_body(kin, Some(shape));
    // An overlapping dynamic ball, and a joint to it.
    let dyn_ball = Body::new_dynamic()
        .with_mass_props_from_shape(&shape, FP_ONE)
        .with_pos(Vec3::new(0, fp(1.6), 0));
    let id = world.add_body(dyn_ball, Some(shape));
    let joint = Joint::new_with_compliance(ik, id, 0, JointKind::Spherical)
        .unwrap()
        .with_local_anchor_1(Vec3::new(0, fp(0.5), 0))
        .with_local_anchor_2(Vec3::new(0, fp(-0.5), 0));
    world.add_joint(joint);

    let snapshot = world.bodies[ik];
    let substeps = NumSubsteps::default();
    let iters = NumPosIters::default();
    let g = Gravity::default();
    for _ in 0..30 {
        physics_step(&mut world, &g, &substeps, &iters);
    }
    assert_eq!(world.bodies[ik].pos, snapshot.pos);
    assert_eq!(world.bodies[ik].rot, snapshot.rot);
    assert_eq!(world.bodies[ik].lin_vel, snapshot.lin_vel);
    assert_eq!(world.bodies[ik].ang_vel, snapshot.ang_vel);
    // The dynamic partner, by contrast, did move.
    assert_ne!(world.bodies[id].pos, Vec3::new(0, fp(1.6), 0));
}

#[test]
fn hanging_chain_settles_at_rest_length() {
    // A chain of 100 dynamic links under a kinematic head, standard
    // gravity, zero compliance, 8 substeps and 4 position iterations:
    // after 300 fixed steps every consecutive anchor distance is within
    // one percent of the rest length and the kinetic energy is small.
    let mut world = World::new();
    let shape = Shape::Sphere { radius: fp(0.25) };
    let head = Body::new_kinematic();
    let mut prev = world.add_body(head, None);
    let n = 100usize;
    for k in 1..(n + 1) {
        let link = Body::new_dynamic()
            .with_mass_props_from_shape(&shape, FP_ONE)
            .with_pos(Vec3::new(0, -(k as i64) * FP_ONE, 0));
        let idx = world.add_body(link, None);
        // A little joint velocity damping lets the free oscillation die
        // out within the simulated five seconds.
        let joint = Joint::new_with_compliance(prev, idx, 0, JointKind::Spherical)
            .unwrap()
            .with_local_anchor_1(Vec3::new(0, fp(-0.5), 0))
            .with_local_anchor_2(Vec3::new(0, fp(0.5), 0))
            .with_lin_vel_damping(fp(20.0))
            .with_ang_vel_damping(fp(20.0));
        world.add_joint(joint);
        prev = idx;
    }

    let substeps = NumSubsteps::default();
    let iters = NumPosIters::default();
    let g = Gravity::default();
    for _ in 0..300 {
        physics_step(&mut world, &g, &substeps, &iters);
    }

    for k in 0..n {
        let upper = world.bodies[k].pos.plus(&world.bodies[k].rot.rotate(&Vec3::new(0, fp(-0.5), 0)));
        let lower = world.bodies[k + 1].pos.plus(
            &world.bodies[k + 1].rot.rotate(&Vec3::new(0, fp(0.5), 0)),
        );
        let gap = to_f(upper.minus(&lower).length());
        let center_dist = to_f(world.bodies[k + 1].pos.minus(&world.bodies[k].pos).length());
        assert!(gap < 0.01, "anchor gap {} at link {}", gap, k);
        assert!((center_dist - 1.0).abs() < 0.01, "distance {} at link {}", center_dist, k);
    }
    let mut kinetic = 0.0f64;
    for k in 1..(n + 1) {
        let b = &world.bodies[k];
        let m = to_f(b.mass.get());
        let v2 = to_f(b.lin_vel.x).powi(2) + to_f(b.lin_vel.y).powi(2) + to_f(b.lin_vel.z).powi(2);
        kinetic += 0.5 * m * v2;
    }
    assert!(kinetic < 0.05, "kinetic energy {}", kinetic);
}

#[test]
fn elastic_ball_rebounds_to_its_drop_height() {
    // A ball with restitution one, dropped from two units above a static
    // floor, must come back close to its drop height.
    let mut world = World::new();
    let floor = Body::new_static()
        .with_pos(Vec3::new(0, -FP_ONE, 0))
        .with_restitution(FP_ONE)
        .with_friction(Friction::zero());
    let ground_shape = Shape::Cuboid { hx: fp(10.0), hy: FP_ONE, hz: fp(10.0) };
    world.add_body(floor, Some(ground_shape));
    let ball_shape = Shape::Sphere { radius: fp(0.5) };
    let ball = Body::new_dynamic()
        .with_mass_props_from_shape(&ball_shape, FP_ONE)
        .with_pos(Vec3::new(0, fp(2.5), 0))
        .with_restitution(FP_ONE)
        .with_friction(Friction::zero());
    let ib = world.add_body(ball, Some(ball_shape));

    let substeps = NumSubsteps::default();
    let iters = NumPosIters::default();
    let g = Gravity::default();
    let mut apex = 0.0f64;
    for step in 0..160 {
        physics_step(&mut world, &g, &substeps, &iters);
        let y = to_f(world.bodies[ib].pos.y);
        if step >= 45 {
            if y > apex {
                apex = y;
            }
        }
    }
    assert!((apex - 2.5).abs() < 0.16, "rebound apex {}", apex);
}

#[test]
fn inelastic_ball_comes_to_rest_on_the_floor() {
    // With restitution zero the ball must settle on the plane: velocity
    // near zero, no penetration.
    let mut world = World::new();
    let floor = Body::new_static()
        .with_pos(Vec3::new(0, -FP_ONE, 0))
        .with_restitution(0)
        .with_friction(Friction::zero());
    let ground_shape = Shape::Cuboid { hx: fp(10.0), hy: FP_ONE, hz: fp(10.0) };
    world.add_body(floor, Some(ground_shape));
    let ball_shape = Shape::Sphere { radius: fp(0.5) };
    let ball = Body::new_dynamic()
        .with_mass_props_from_shape(&ball_shape, FP_ONE)
        .with_pos(Vec3::new(0, fp(2.5), 0))
        .with_restitution(0)
        .with_friction(Friction::zero());
    let ib = world.add_body(ball, Some(ball_shape));

    let substeps = NumSubsteps::default();
    let iters = NumPosIters::default();
    let g = Gravity::default();
    for _ in 0..300 {
        physics_step(&mut world, &g, &substeps, &iters);
    }
    let y = to_f(world.bodies[ib].pos.y);
    let vy = to_f(world.bodies[ib].lin_vel.y);
    assert!((y - 0.5).abs() < 0.03, "resting height {}", y);
    assert!(vy.abs() < 0.02, "resting velocity {}", vy);
}

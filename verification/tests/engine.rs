//! Tests that run the real physics engine on worlds the library plans.
//!
//! The glue here mirrors what a host does: build the plan, hand it to
//! rapier2d as one ephemeral world, advance exactly one fixed step under
//! zero gravity, read each body's final transform and velocity back, and
//! decode through the library. Model values are thousandths of an engine
//! unit.

use rapier2d::prelude::CCDSolver;
use rapier2d::prelude::ColliderBuilder;
use rapier2d::prelude::ColliderSet;
use rapier2d::prelude::DefaultBroadPhase;
use rapier2d::prelude::ImpulseJointSet;
use rapier2d::prelude::IntegrationParameters;
use rapier2d::prelude::IslandManager;
use rapier2d::prelude::MultibodyJointSet;
use rapier2d::prelude::NarrowPhase;
use rapier2d::prelude::PhysicsPipeline;
use rapier2d::prelude::RigidBodyBuilder;
use rapier2d::prelude::RigidBodySet;
use rapier2d::prelude::SoftBodySet;
use rapier2d::prelude::Vector;

use rapierex::codec::BodyResult;
use rapierex::codec::apply_results;
use rapierex::state::Ball;
use rapierex::state::Court;
use rapierex::state::Player;
use rapierex::state::Vec2;
use rapierex::world::build_world;

const SCALE: f64 = 1000.0;

fn to_engine(v: i64) -> f32 {
    (v as f64 / SCALE) as f32
}

fn to_model(x: f32) -> i64 {
    (x as f64 * SCALE).round() as i64
}

fn centi(c: i64) -> f32 {
    c as f32 / 100.0
}

/// One call of the step operation: plan, simulate one fixed tick, decode.
fn run_step(ball: &Ball, court: Option<&Court>, players: &Vec<Player>) -> (Ball, Vec<Player>) {
    let plan = build_world(ball, court, players).expect("valid input");

    let mut bodies = RigidBodySet::new();
    let mut colliders = ColliderSet::new();
    for chain in &plan.chains {
        let pts: Vec<Vector> =
            chain.points.iter().map(|p| Vector::new(to_engine(p.x), to_engine(p.y))).collect();
        let col = ColliderBuilder::polyline(pts, None)
            .restitution(centi(chain.restitution_centi))
            .build();
        colliders.insert(col);
    }
    let mut handles = Vec::new();
    for d in &plan.bodies {
        let rb = RigidBodyBuilder::dynamic()
            .translation(Vector::new(to_engine(d.position.x), to_engine(d.position.y)))
            .linvel(Vector::new(to_engine(d.lin_vel.x), to_engine(d.lin_vel.y)))
            .linear_damping(centi(d.damping_centi))
            .build();
        let h = bodies.insert(rb);
        let col = ColliderBuilder::ball(to_engine(d.radius))
            .restitution(centi(d.restitution_centi))
            .build();
        colliders.insert_with_parent(col, h, &mut bodies);
        handles.push(h);
    }

    let gravity = Vector::new(0.0, 0.0);
    let integration_parameters = IntegrationParameters::default();
    let mut physics_pipeline = PhysicsPipeline::new();
    let mut island_manager = IslandManager::new();
    let mut broad_phase = DefaultBroadPhase::new();
    let mut narrow_phase = NarrowPhase::new();
    let mut impulse_joint_set = ImpulseJointSet::new();
    let mut multibody_joint_set = MultibodyJointSet::new();
    let mut soft_body_set = SoftBodySet::new();
    let mut ccd_solver = CCDSolver::new();
    physics_pipeline.step(
        gravity,
        &integration_parameters,
        &mut island_manager,
        &mut broad_phase,
        &mut narrow_phase,
        &mut bodies,
        &mut colliders,
        &mut impulse_joint_set,
        &mut multibody_joint_set,
        &mut soft_body_set,
        &mut ccd_solver,
        &(),
        &(),
    );

    let mut results: Vec<BodyResult> = Vec::new();
    for h in &handles {
        let body = &bodies[*h];
        results.push(BodyResult {
            position: Vec2 { x: to_model(body.translation().x), y: to_model(body.translation().y) },
            lin_vel: Vec2 { x: to_model(body.linvel().x), y: to_model(body.linvel().y) },
        });
    }
    assert_eq!(results.len(), players.len() + 1);
    apply_results(ball, players, &results)
}

fn ball_at(pos: (i64, i64), vel: (i64, i64), shoot: (i64, i64)) -> Ball {
    Ball {
        position: Vec2 { x: pos.0, y: pos.1 },
        lin_vel: Vec2 { x: vel.0, y: vel.1 },
        shoot_dir: Vec2 { x: shoot.0, y: shoot.1 },
        scale: 1000,
    }
}

fn example_court() -> Court {
    Court { width: 20000, height: 10000, goal_width: 4000, goal_depth: 2000 }
}

fn speed2(v: &Vec2) -> i64 {
    v.x * v.x + v.y * v.y
}

#[test]
fn example_shot_moves_along_x() {
    // Court 20 by 10 with goals 4 wide and 2 deep; ball at the centre,
    // at rest, shot along +x.
    let ball = ball_at((0, 0), (0, 0), (1000, 0));
    let (out_ball, out_players) = run_step(&ball, Some(&example_court()), &Vec::new());
    assert!(out_players.is_empty());
    // Displaced along +x from the origin, still on the axis.
    assert!(out_ball.position.x > 0);
    assert_eq!(out_ball.position.y, 0);
    // Velocity is the shot speed 18, decayed by one tick of ball damping.
    assert!(out_ball.lin_vel.x > 17500 && out_ball.lin_vel.x <= 18000);
    assert_eq!(out_ball.lin_vel.y, 0);
    // The one-shot impulse is spent.
    assert_eq!((out_ball.shoot_dir.x, out_ball.shoot_dir.y), (0, 0));
    assert_eq!(out_ball.scale, 1000);
}

#[test]
fn damped_drift_never_speeds_up() {
    // No walls, no input, no collisions: speed may only decay, and no axis
    // flips sign.
    let ball = ball_at((0, 0), (5000, -3000), (0, 0));
    let (out_ball, _) = run_step(&ball, None, &Vec::new());
    assert!(speed2(&out_ball.lin_vel) <= speed2(&ball.lin_vel));
    assert!(out_ball.lin_vel.x > 0 && out_ball.lin_vel.x <= 5000);
    assert!(out_ball.lin_vel.y < 0 && out_ball.lin_vel.y >= -3000);
}

#[test]
fn ball_coasts_further_than_player() {
    let ball = ball_at((0, 0), (5000, 0), (0, 0));
    let player = Player {
        id: 1,
        position: Vec2 { x: 0, y: 3000 },
        lin_vel: Vec2 { x: 5000, y: 0 },
        movement: Vec2 { x: 0, y: 0 },
        scale: 1000,
    };
    let (out_ball, out_players) = run_step(&ball, None, &vec![player]);
    // Same start speed, but the player's heavier damping slows it more.
    assert!(out_players[0].lin_vel.x <= 5000);
    assert!(out_ball.lin_vel.x > out_players[0].lin_vel.x);
}

#[test]
fn wall_reflects_ball() {
    // Drive the ball upward at the middle of the top wall, ticking the
    // simulation as a host would, one call per frame.
    let mut ball = ball_at((0, 3000), (0, 6000), (0, 0));
    let court = example_court();
    let mut bounced = false;
    let mut max_centre_y: i64 = ball.position.y;
    for _ in 0..90 {
        let (next, _) = run_step(&ball, Some(&court), &Vec::new());
        if next.position.y > max_centre_y {
            max_centre_y = next.position.y;
        }
        if next.lin_vel.y < 0 {
            bounced = true;
            break;
        }
        ball = next;
    }
    // The normal component reverses sign instead of carrying through.
    assert!(bounced);
    // The ball never tunnels: its centre stays below the wall at y == 5.
    assert!(max_centre_y < 5000);
}

#[test]
fn goal_gap_lets_ball_through() {
    // Aim the ball at the middle of the right goal opening; it should cross
    // the goal line undeflected.
    let mut ball = ball_at((8000, 0), (6000, 0), (0, 0));
    let court = example_court();
    let mut crossed = false;
    for _ in 0..120 {
        let (next, _) = run_step(&ball, Some(&court), &Vec::new());
        assert_eq!(next.position.y, 0);
        assert_eq!(next.lin_vel.y, 0);
        assert!(next.lin_vel.x > 0);
        ball = next;
        if ball.position.x > 10500 {
            crossed = true;
            break;
        }
    }
    assert!(crossed);
}

#[test]
fn identical_inputs_give_identical_outputs() {
    let ball = ball_at((1200, -400), (3000, 2500), (700, -200));
    let player = Player {
        id: 9,
        position: Vec2 { x: -2000, y: 1000 },
        lin_vel: Vec2 { x: 500, y: 0 },
        movement: Vec2 { x: 0, y: -300 },
        scale: 800,
    };
    let court = example_court();
    let players = vec![player];
    let first = run_step(&ball, Some(&court), &players);
    let second = run_step(&ball, Some(&court), &players);
    assert_eq!(first.0, second.0);
    assert_eq!(first.1, second.1);
}

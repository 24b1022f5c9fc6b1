use magpen::integrator::{advance, advance_recording, step};
use magpen::sim::{Magnet, ParticleState, SimError, SimulationConfig};
use magpen::vector::{Vec2, Vec3};

fn fp(x: f64) -> i64 {
    (x * 1e12).round() as i64
}

fn plain_config() -> SimulationConfig {
    SimulationConfig::new(
        fp(10.0),
        fp(0.264),
        fp(0.3),
        Vec3 { x: 0, y: 0, z: fp(0.33) },
        fp(0.037),
        fp(0.0002),
        fp(0.001),
        fp(1.0),
        fp(1.0),
    )
    .unwrap()
}

#[test]
fn config_rejects_non_positive_constants() {
    let pivot = Vec3 { x: 0, y: 0, z: fp(0.33) };
    let bad_mass = SimulationConfig::new(fp(10.0), 0, fp(0.3), pivot, 0, 0, fp(0.001), fp(1.0), fp(1.0));
    assert_eq!(bad_mass.unwrap_err(), SimError::InvalidConfig);
    let bad_rope = SimulationConfig::new(fp(10.0), fp(1.0), -1, pivot, 0, 0, fp(0.001), fp(1.0), fp(1.0));
    assert_eq!(bad_rope.unwrap_err(), SimError::InvalidConfig);
    let bad_step = SimulationConfig::new(fp(10.0), fp(1.0), fp(0.3), pivot, 0, 0, 0, fp(1.0), fp(1.0));
    assert_eq!(bad_step.unwrap_err(), SimError::InvalidConfig);
    let bad_drag = SimulationConfig::new(fp(10.0), fp(1.0), fp(0.3), pivot, -1, 0, fp(0.001), fp(1.0), fp(1.0));
    assert_eq!(bad_drag.unwrap_err(), SimError::InvalidConfig);
    let bad_scale = SimulationConfig::new(fp(10.0), fp(1.0), fp(0.3), pivot, 0, 0, fp(0.001), 0, fp(1.0));
    assert_eq!(bad_scale.unwrap_err(), SimError::InvalidConfig);
    let bad_gravity = SimulationConfig::new(0, fp(1.0), fp(0.3), pivot, 0, 0, fp(0.001), fp(1.0), fp(1.0));
    assert_eq!(bad_gravity.unwrap_err(), SimError::InvalidConfig);
}

#[test]
fn config_keeps_the_constants_it_was_given() {
    let c = plain_config();
    assert_eq!(c.gravity, fp(10.0));
    assert_eq!(c.mass, fp(0.264));
    assert_eq!(c.rope_length, fp(0.3));
    assert_eq!(c.pivot.z, fp(0.33));
    assert_eq!(c.air_drag_coeff, fp(0.037));
    assert_eq!(c.magnet_coeff, fp(0.0002));
    assert_eq!(c.micro_step, fp(0.001));
}

#[test]
fn particle_rejects_position_beyond_tether() {
    let c = plain_config();
    let far = ParticleState::new(Vec2 { x: fp(0.31), y: 0 }, &c);
    assert_eq!(far.unwrap_err(), SimError::DomainViolation);
    let edge = ParticleState::new(Vec2 { x: fp(0.3), y: 0 }, &c).unwrap();
    assert_eq!(edge.horizontal_position.x, fp(0.3));
    assert_eq!(edge.velocity, Vec3 { x: 0, y: 0, z: 0 });
}

#[test]
fn height_is_the_lower_sphere_intersection() {
    let c = plain_config();
    // at the rest position the ball hangs one rope length below the pivot
    let p = ParticleState::new(Vec2 { x: 0, y: 0 }, &c).unwrap();
    assert_eq!(p.height(&c), fp(0.03));
    // at full stretch the ball is level with the pivot
    let q = ParticleState::new(Vec2 { x: fp(0.3), y: 0 }, &c).unwrap();
    assert_eq!(q.height(&c), fp(0.33));
}

#[test]
fn advance_zero_duration_is_identity() {
    let c = plain_config();
    let magnets = vec![Magnet { position: Vec3 { x: fp(0.02), y: 0, z: fp(0.03) }, tag: 1 }];
    let p = ParticleState::new(Vec2 { x: fp(0.1), y: fp(-0.05) }, &c).unwrap();
    let after = advance(&p, &c, &magnets, 0);
    assert_eq!(after, p);
    let negative = advance(&p, &c, &magnets, fp(-3.0));
    assert_eq!(negative, p);
}

#[test]
fn recording_has_one_entry_per_micro_step_and_ends_at_advance() {
    let c = plain_config();
    let magnets = vec![Magnet { position: Vec3 { x: fp(0.02), y: 0, z: fp(0.03) }, tag: 1 }];
    let p = ParticleState::new(Vec2 { x: fp(0.1), y: 0 }, &c).unwrap();
    // 0.01 s at micro-step 0.001 s and time scale 1: exactly 10 micro-steps
    let (end, trail) = advance_recording(&p, &c, &magnets, fp(0.01));
    assert_eq!(trail.len(), 10);
    assert_eq!(*trail.last().unwrap(), end.horizontal_position);
    assert_eq!(end, advance(&p, &c, &magnets, fp(0.01)));
    // the first trail entry is the position after one micro-step
    assert_eq!(trail[0], step(&p, &c, &magnets).horizontal_position);
}

#[test]
fn recording_respects_time_scale_floor() {
    // time scale 2.5: 0.01 s covers floor(0.01 * 2.5 / 0.001) = 25 micro-steps
    let c = SimulationConfig::new(
        fp(10.0),
        fp(0.264),
        fp(0.3),
        Vec3 { x: 0, y: 0, z: fp(0.33) },
        fp(0.037),
        0,
        fp(0.001),
        fp(2.5),
        fp(1.0),
    )
    .unwrap();
    let magnets: Vec<Magnet> = Vec::new();
    let p = ParticleState::new(Vec2 { x: fp(0.05), y: 0 }, &c).unwrap();
    let (_, trail) = advance_recording(&p, &c, &magnets, fp(0.01));
    assert_eq!(trail.len(), 25);
    // 0.0105 * 2.5 / 0.001 = 26.25, so 26 micro-steps
    let (_, longer) = advance_recording(&p, &c, &magnets, fp(0.0105));
    assert_eq!(longer.len(), 26);
}

#[test]
fn tether_constraint_survives_integration() {
    let c = plain_config();
    // a strong magnet beyond the rim drags the particle outward
    let magnets = vec![Magnet { position: Vec3 { x: fp(0.5), y: 0, z: fp(0.33) }, tag: 0 }];
    let strong = SimulationConfig::new(
        c.gravity,
        c.mass,
        c.rope_length,
        c.pivot,
        0,
        fp(0.01),
        fp(0.001),
        fp(1.0),
        fp(1.0),
    )
    .unwrap();
    let mut p = ParticleState::new(Vec2 { x: fp(0.25), y: 0 }, &strong).unwrap();
    let rope_sq = fp(0.09);
    for _ in 0..2000 {
        p = step(&p, &strong, &magnets);
        let d = p.horizontal_position.distance_squared(&Vec2 { x: 0, y: 0 });
        assert!(d <= rope_sq, "constraint violated: d_sq = {}", d);
    }
}

#[test]
fn particle_resting_on_a_magnet_stays_finite() {
    // the particle starts exactly on a magnet: the direction is zero by
    // policy and the inverse-square magnitude is clamped, so the run stays
    // finite and well-defined
    let c = plain_config();
    let start = Vec2 { x: fp(0.1), y: 0 };
    let p = ParticleState::new(start, &c).unwrap();
    let height = p.height(&c);
    let magnets = vec![Magnet { position: Vec3 { x: fp(0.1), y: 0, z: height }, tag: 0 }];
    let after = advance(&p, &c, &magnets, fp(0.5));
    let d = after.horizontal_position.distance_squared(&Vec2 { x: 0, y: 0 });
    assert!(d <= fp(0.09), "constraint violated after singular start: {}", d);
}

#[test]
fn advance_composes_across_calls() {
    // 1 s covers exactly 1000 micro-steps here, so two 1 s advances land
    // exactly where one 2 s advance does
    let c = plain_config();
    let magnets = vec![Magnet { position: Vec3 { x: fp(0.02), y: fp(0.01), z: fp(0.03) }, tag: 0 }];
    let p = ParticleState::new(Vec2 { x: fp(0.08), y: fp(0.03) }, &c).unwrap();
    let halfway = advance(&p, &c, &magnets, fp(1.0));
    let two_hops = advance(&halfway, &c, &magnets, fp(1.0));
    let one_run = advance(&p, &c, &magnets, fp(2.0));
    assert_eq!(two_hops, one_run);
}

#[test]
fn advance_is_deterministic() {
    let c = plain_config();
    let magnets = vec![
        Magnet { position: Vec3 { x: fp(0.03), y: fp(0.01), z: fp(0.03) }, tag: 0 },
        Magnet { position: Vec3 { x: fp(-0.02), y: fp(0.02), z: fp(0.03) }, tag: 1 },
    ];
    let p = ParticleState::new(Vec2 { x: fp(0.07), y: fp(-0.04) }, &c).unwrap();
    let a = advance(&p, &c, &magnets, fp(5.0));
    let b = advance(&p, &c, &magnets, fp(5.0));
    assert_eq!(a, b);
    assert_eq!(a.horizontal_position, b.horizontal_position);
    assert_eq!(a.velocity, b.velocity);
}

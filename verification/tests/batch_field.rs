use magpen::batch::{nearest_magnet_index, BatchField};
use magpen::integrator::advance;
use magpen::sim::{Magnet, ParticleState, SimError, SimulationConfig};
use magpen::vector::{Vec2, Vec3};

fn fpb(x: f64) -> i64 {
    (x * 1e12).round() as i64
}

fn batch_config() -> SimulationConfig {
    SimulationConfig::new(
        fpb(10.0),
        fpb(0.264),
        fpb(0.3),
        Vec3 { x: 0, y: 0, z: fpb(0.33) },
        fpb(0.037),
        fpb(0.0002),
        fpb(0.001),
        fpb(1.0),
        fpb(1.0),
    )
    .unwrap()
}

#[test]
fn nearest_magnet_breaks_ties_by_lowest_index() {
    let magnets = vec![
        Magnet { position: Vec3 { x: fpb(0.02), y: 0, z: 0 }, tag: 0 },
        Magnet { position: Vec3 { x: fpb(-0.02), y: 0, z: 0 }, tag: 1 },
    ];
    let centre = Vec2 { x: 0, y: 0 };
    assert_eq!(nearest_magnet_index(&centre, &magnets), 0);
    let nearer_to_second = Vec2 { x: fpb(-0.01), y: 0 };
    assert_eq!(nearest_magnet_index(&nearer_to_second, &magnets), 1);
}

#[test]
fn nearest_magnet_takes_first_strictly_smaller() {
    let magnets = vec![
        Magnet { position: Vec3 { x: fpb(0.05), y: 0, z: 0 }, tag: 0 },
        Magnet { position: Vec3 { x: fpb(0.01), y: 0, z: 0 }, tag: 1 },
        Magnet { position: Vec3 { x: fpb(-0.01), y: 0, z: 0 }, tag: 2 },
    ];
    // equidistant from magnets 1 and 2: the scan keeps the earlier one
    assert_eq!(nearest_magnet_index(&Vec2 { x: 0, y: 0 }, &magnets), 1);
}

#[test]
fn classify_labels_cells_by_initial_position_at_zero_settle() {
    let c = batch_config();
    let magnets = vec![
        Magnet { position: Vec3 { x: fpb(-0.05), y: fpb(-0.05), z: fpb(0.03) }, tag: 0 },
        Magnet { position: Vec3 { x: fpb(0.05), y: fpb(0.05), z: fpb(0.03) }, tag: 1 },
    ];
    let grid = BatchField::classify(
        c,
        magnets,
        Vec2 { x: fpb(-0.05), y: fpb(-0.05) },
        fpb(0.1),
        2,
        2,
        0,
    )
    .unwrap();
    // row-major with cell (x, y) at index x * height + y; ties go to index 0
    assert_eq!(grid, vec![0, 0, 0, 1]);
}

#[test]
fn classify_rejects_a_grid_beyond_the_tether() {
    let c = batch_config();
    let magnets = vec![Magnet { position: Vec3 { x: 0, y: 0, z: fpb(0.03) }, tag: 0 }];
    let r = BatchField::classify(
        c,
        magnets,
        Vec2 { x: fpb(0.29), y: 0 },
        fpb(0.1),
        2,
        1,
        0,
    );
    assert_eq!(r.unwrap_err(), SimError::DomainViolation);
}

#[test]
fn batch_cells_follow_the_single_particle_integrator() {
    let c = batch_config();
    let magnets = vec![
        Magnet { position: Vec3 { x: fpb(0.03), y: fpb(0.01), z: fpb(0.03) }, tag: 0 },
        Magnet { position: Vec3 { x: fpb(-0.03), y: fpb(0.01), z: fpb(0.03) }, tag: 1 },
    ];
    let origin = Vec2 { x: fpb(0.04), y: fpb(-0.02) };
    let mut field = BatchField::new(c, magnets.clone(), origin, fpb(0.01), 2, 3).unwrap();
    field.advance(fpb(0.25));
    // cell (1, 2) sits at origin + (0.01, 0.02) and evolves independently
    let start = ParticleState::new(
        Vec2 { x: fpb(0.05), y: fpb(0.0) },
        &c,
    )
    .unwrap();
    let lone = advance(&start, &c, &magnets, fpb(0.25));
    assert_eq!(field.cells[1 * 3 + 2], lone);
}

#[test]
fn batch_step_matches_one_micro_step_per_cell() {
    let c = batch_config();
    let magnets = vec![Magnet { position: Vec3 { x: fpb(0.02), y: fpb(0.01), z: fpb(0.03) }, tag: 0 }];
    let origin = Vec2 { x: fpb(0.03), y: fpb(-0.01) };
    let mut field = BatchField::new(c, magnets.clone(), origin, fpb(0.01), 1, 1).unwrap();
    field.step();
    let lone = ParticleState::new(origin, &c).unwrap();
    assert_eq!(field.cells[0], magpen::integrator::step(&lone, &c, &magnets));
}

#[test]
fn batch_field_keeps_its_grid_shape() {
    let c = batch_config();
    let magnets = vec![Magnet { position: Vec3 { x: 0, y: 0, z: fpb(0.03) }, tag: 0 }];
    let field = BatchField::new(
        c,
        magnets,
        Vec2 { x: fpb(-0.02), y: fpb(-0.02) },
        fpb(0.01),
        5,
        4,
    )
    .unwrap();
    assert_eq!(field.width, 5);
    assert_eq!(field.height, 4);
    assert_eq!(field.cells.len(), 20);
    let labels = field.classification();
    assert_eq!(labels.len(), 20);
    assert!(labels.iter().all(|&i| i == 0));
}

//! Simulation data model: configuration, magnets, particle state and errors.

use vstd::prelude::*;

use crate::fixed::{mul_fp, sqrt_fp, sub_fp};
use crate::fixed::{fp_mul, fp_sqrt, fp_sub};
use crate::vector::{dist_sq2, xy3, V2, V3, Vec2, Vec3};

verus! {

/// The two rejections the model knows; both are detected before integrating.
#[derive(Clone, Copy, PartialEq, Eq, Structural, Debug)]
pub enum SimError {
    /// A horizontal position lies farther from the pivot than the tether reaches.
    DomainViolation,
    /// A physical constant that must be positive is not.
    InvalidConfig,
}

/// A fixed attractor: a position and an opaque classification tag.
#[derive(Clone, Copy, PartialEq, Eq, Structural, Debug)]
pub struct Magnet {
    pub position: Vec3,
    pub tag: u32,
}

/// Immutable physical constants of one simulation run, all fixed-point.
#[derive(Clone, Copy, PartialEq, Eq, Structural, Debug)]
pub struct SimulationConfig {
    /// Gravitational acceleration, positive.
    pub gravity: i64,
    /// Mass of the ball, positive.
    pub mass: i64,
    /// Tether length, positive.
    pub rope_length: i64,
    /// The fixed point the tether hangs from.
    pub pivot: Vec3,
    /// Quadratic air-drag coefficient, non-negative.
    pub air_drag_coeff: i64,
    /// Magnetic strength; the sign selects attraction or repulsion.
    pub magnet_coeff: i64,
    /// Fixed integration micro-step, positive.
    pub micro_step: i64,
    /// Simulated seconds per real second, positive.
    pub time_scale: i64,
    /// World-to-display scale, positive; used only by presentation code.
    pub length_scale: i64,
}

impl SimulationConfig {
    /// The constants a run may be made with: positive gravity, mass, tether
    /// length, micro-step and scales, and non-negative drag.
    pub open spec fn wf(&self) -> bool {
        &&& self.gravity > 0
        &&& self.mass > 0
        &&& self.rope_length > 0
        &&& self.air_drag_coeff >= 0
        &&& self.micro_step > 0
        &&& self.time_scale > 0
        &&& self.length_scale > 0
    }

    /// The squared tether length.
    pub open spec fn rope_sq(&self) -> int {
        mul_fp(self.rope_length as int, self.rope_length as int)
    }

    /// Build a configuration, rejecting constants the model cannot run with.
    pub fn new(
        gravity: i64,
        mass: i64,
        rope_length: i64,
        pivot: Vec3,
        air_drag_coeff: i64,
        magnet_coeff: i64,
        micro_step: i64,
        time_scale: i64,
        length_scale: i64,
    ) -> (r: Result<SimulationConfig, SimError>)
        ensures
            ({
                let c = SimulationConfig {
                    gravity,
                    mass,
                    rope_length,
                    pivot,
                    air_drag_coeff,
                    magnet_coeff,
                    micro_step,
                    time_scale,
                    length_scale,
                };
                if c.wf() {
                    r == Ok::<SimulationConfig, SimError>(c)
                } else {
                    r == Err::<SimulationConfig, SimError>(SimError::InvalidConfig)
                }
            }),
    {
        let c = SimulationConfig {
            gravity,
            mass,
            rope_length,
            pivot,
            air_drag_coeff,
            magnet_coeff,
            micro_step,
            time_scale,
            length_scale,
        };
        if gravity > 0 && mass > 0 && rope_length > 0 && air_drag_coeff >= 0 && micro_step > 0
            && time_scale > 0 && length_scale > 0 {
            Ok(c)
        } else {
            Err(SimError::InvalidConfig)
        }
    }
}

/// Mathematical model of a particle: horizontal position and 3D velocity.
pub ghost struct ParticleModel {
    pub pos: V2,
    pub vel: V3,
}

impl ParticleModel {
    /// The tether constraint: the horizontal position stays within
    /// `rope_length` of the point below the pivot.
    pub open spec fn valid(self, c: SimulationConfig) -> bool {
        dist_sq2(self.pos, xy3(c.pivot@)) <= c.rope_sq()
    }
}

/// Per-particle kinematic state. The vertical coordinate is never stored: it
/// is recomputed from the horizontal position by the tether-sphere equation.
#[derive(Clone, Copy, PartialEq, Eq, Structural, Debug)]
pub struct ParticleState {
    /// The only independent degree of freedom.
    pub horizontal_position: Vec2,
    /// Mutated every micro-step.
    pub velocity: Vec3,
}

impl View for ParticleState {
    type V = ParticleModel;

    open spec fn view(&self) -> ParticleModel {
        ParticleModel { pos: self.horizontal_position@, vel: self.velocity@ }
    }
}

/// The vertical coordinate the tether forces at horizontal position `pos`:
/// the lower intersection of the tether sphere with the vertical line there.
pub open spec fn height_at(pos: V2, c: SimulationConfig) -> int {
    sub_fp(c.pivot.z as int, sqrt_fp(sub_fp(c.rope_sq(), dist_sq2(pos, xy3(c.pivot@)))))
}

/// The full 3D position of a particle at horizontal position `pos`.
pub open spec fn ball_at(pos: V2, c: SimulationConfig) -> V3 {
    V3 { x: pos.x, y: pos.y, z: height_at(pos, c) }
}

impl ParticleState {
    /// Start a particle at `position` with zero velocity, rejecting a
    /// position the tether cannot reach.
    pub fn new(position: Vec2, c: &SimulationConfig) -> (r: Result<ParticleState, SimError>)
        requires
            c.wf(),
        ensures
            dist_sq2(position@, xy3(c.pivot@)) <= c.rope_sq() ==> r == Ok::<
                ParticleState,
                SimError,
            >(ParticleState { horizontal_position: position, velocity: Vec3 { x: 0, y: 0, z: 0 } }),
            dist_sq2(position@, xy3(c.pivot@)) > c.rope_sq() ==> r == Err::<
                ParticleState,
                SimError,
            >(SimError::DomainViolation),
    {
        let d = position.distance_squared(&c.pivot.xy());
        if d <= fp_mul(c.rope_length, c.rope_length) {
            Ok(ParticleState { horizontal_position: position, velocity: Vec3::zero() })
        } else {
            Err(SimError::DomainViolation)
        }
    }

    /// The vertical coordinate of the ball, from the tether-sphere equation.
    pub fn height(&self, c: &SimulationConfig) -> (r: i64)
        ensures
            r as int == height_at(self@.pos, *c),
    {
        let d = self.horizontal_position.distance_squared(&c.pivot.xy());
        let radicand = fp_sub(fp_mul(c.rope_length, c.rope_length), d);
        fp_sub(c.pivot.z, fp_sqrt(radicand))
    }

    /// The full 3D position of the ball.
    pub fn ball_position(&self, c: &SimulationConfig) -> (r: Vec3)
        ensures
            r@ == ball_at(self@.pos, *c),
    {
        Vec3 { x: self.horizontal_position.x, y: self.horizontal_position.y, z: self.height(c) }
    }
}

} // verus!

//! The batch field: a grid of independent particles, advanced together and
//! classified by the magnet each one settles nearest to.
//!
//! Cells do not interact: each grid cell holds its own particle, started at
//! the cell's world position with zero velocity, stepped by the integrator
//! under one shared configuration and magnet set, and finally labelled with
//! the index of the nearest magnet (ties go to the lowest index).

use vstd::prelude::*;

use crate::fixed::{from_uint_fp, mul_fp};
use crate::fixed::{fp_from_uint, fp_mul};
use crate::integrator::{advance_model, steps_of};
use crate::sim::{Magnet, ParticleModel, ParticleState, SimError, SimulationConfig};
use crate::vector::{add2, dist_sq2, xy3, V2, V3, Vec2};

verus! {

/// The world position of grid cell `(x, y)`: the origin plus `x` and `y`
/// steps of `spacing`.
pub open spec fn cell_pos(origin: V2, spacing: int, x: int, y: int) -> V2 {
    add2(origin, V2 { x: mul_fp(from_uint_fp(x), spacing), y: mul_fp(from_uint_fp(y), spacing) })
}

/// The particle grid cell `(x, y)` starts with: at the cell's world
/// position, at rest.
pub open spec fn cell_particle(origin: V2, spacing: int, x: int, y: int) -> ParticleModel {
    ParticleModel { pos: cell_pos(origin, spacing, x, y), vel: V3 { x: 0, y: 0, z: 0 } }
}

/// The index of the magnet nearest to `pos` among the first `n`, scanning
/// left to right and moving only for a strictly smaller squared distance,
/// so ties keep the lowest index.
pub open spec fn nearest_upto(pos: V2, ms: Seq<Magnet>, n: int) -> int
    decreases n,
{
    if n <= 1 {
        0
    } else {
        let best = nearest_upto(pos, ms, n - 1);
        if dist_sq2(pos, xy3(ms[n - 1].position@)) < dist_sq2(pos, xy3(ms[best].position@)) {
            n - 1
        } else {
            best
        }
    }
}

/// The index of the magnet nearest to `pos`; ties go to the lowest index.
pub open spec fn nearest_magnet(pos: V2, ms: Seq<Magnet>) -> int {
    nearest_upto(pos, ms, ms.len() as int)
}

proof fn lemma_nearest_upto_argmin(pos: V2, ms: Seq<Magnet>, n: int)
    requires
        1 <= n <= ms.len(),
    ensures
        0 <= nearest_upto(pos, ms, n) < n,
        forall|j: int|
            0 <= j < n ==> dist_sq2(pos, xy3(ms[nearest_upto(pos, ms, n)].position@)) <= #[trigger] dist_sq2(
                pos,
                xy3(ms[j].position@),
            ),
        forall|j: int|
            0 <= j < nearest_upto(pos, ms, n) ==> #[trigger] dist_sq2(pos, xy3(ms[j].position@))
                > dist_sq2(pos, xy3(ms[nearest_upto(pos, ms, n)].position@)),
    decreases n,
{
    if n > 1 {
        lemma_nearest_upto_argmin(pos, ms, n - 1);
    }
}

/// The nearest-magnet index is a true first argmin: it is in range, no
/// magnet is strictly nearer, and every earlier magnet is strictly farther.
pub proof fn lemma_nearest_magnet_argmin(pos: V2, ms: Seq<Magnet>)
    requires
        ms.len() > 0,
    ensures
        0 <= nearest_magnet(pos, ms) < ms.len(),
        forall|j: int|
            0 <= j < ms.len() ==> dist_sq2(pos, xy3(ms[nearest_magnet(pos, ms)].position@))
                <= #[trigger] dist_sq2(pos, xy3(ms[j].position@)),
        forall|j: int|
            0 <= j < nearest_magnet(pos, ms) ==> #[trigger] dist_sq2(pos, xy3(ms[j].position@))
                > dist_sq2(pos, xy3(ms[nearest_magnet(pos, ms)].position@)),
{
    lemma_nearest_upto_argmin(pos, ms, ms.len() as int);
}

/// The index of the magnet whose horizontal position is nearest to `pos`.
pub fn nearest_magnet_index(pos: &Vec2, magnets: &Vec<Magnet>) -> (r: usize)
    requires
        magnets@.len() > 0,
    ensures
        r as int == nearest_magnet(pos@, magnets@),
        r < magnets@.len(),
{
    let mut best: usize = 0;
    let mut best_d = pos.distance_squared(&magnets[0].position.xy());
    let mut i: usize = 1;
    while i < magnets.len()
        invariant
            magnets@.len() > 0,
            1 <= i <= magnets@.len(),
            best < i,
            best as int == nearest_upto(pos@, magnets@, i as int),
            best_d as int == dist_sq2(pos@, xy3(magnets@[best as int].position@)),
        decreases magnets@.len() - i,
    {
        let d = pos.distance_squared(&magnets[i].position.xy());
        if d < best_d {
            best = i;
            best_d = d;
        }
        i = i + 1;
    }
    best
}

/// A grid of independent particles sharing one configuration and magnet set.
pub struct BatchField {
    /// The constants every cell runs under.
    pub config: SimulationConfig,
    /// The shared, read-only magnet set; never empty.
    pub magnets: Vec<Magnet>,
    /// World position of cell `(0, 0)`.
    pub origin: Vec2,
    /// World distance between neighbouring cells.
    pub spacing: i64,
    /// Number of grid columns.
    pub width: usize,
    /// Number of grid rows.
    pub height: usize,
    /// One particle per cell, row-major: cell `(x, y)` is entry `x·height + y`.
    pub cells: Vec<ParticleState>,
}

impl BatchField {
    /// A usable field: valid configuration, at least one magnet, one valid
    /// particle per cell.
    pub open spec fn wf(&self) -> bool {
        &&& self.config.wf()
        &&& self.magnets@.len() > 0
        &&& self.cells@.len() == self.width as int * self.height as int
        &&& forall|k: int|
            0 <= k < self.cells@.len() ==> (#[trigger] self.cells@[k])@.valid(self.config)
    }

    /// Build a field with one resting particle per cell, rejecting any grid
    /// whose cells the tether cannot all reach.
    pub fn new(
        config: SimulationConfig,
        magnets: Vec<Magnet>,
        origin: Vec2,
        spacing: i64,
        width: usize,
        height: usize,
    ) -> (r: Result<BatchField, SimError>)
        requires
            config.wf(),
            magnets@.len() > 0,
            width as int * height as int <= usize::MAX as int,
        ensures
            match r {
                Ok(b) => {
                    &&& b.wf()
                    &&& b.config == config
                    &&& b.magnets == magnets
                    &&& b.origin == origin
                    &&& b.spacing == spacing
                    &&& b.width == width
                    &&& b.height == height
                    &&& forall|x: int, y: int|
                        0 <= x < width as int && 0 <= y < height as int ==> (
                        #[trigger] b.cells@[x * height as int + y])@ == cell_particle(
                            origin@,
                            spacing as int,
                            x,
                            y,
                        )
                },
                Err(e) => {
                    &&& e == SimError::DomainViolation
                    &&& exists|x: int, y: int|
                        0 <= x < width as int && 0 <= y < height as int && !(
                        #[trigger] cell_particle(origin@, spacing as int, x, y)).valid(config)
                },
            },
    {
        let total = width * height;
        let mut cells: Vec<ParticleState> = Vec::new();
        let mut k: usize = 0;
        while k < total
            invariant
                config.wf(),
                k <= total,
                total == width as int * height as int,
                cells@.len() == k as int,
                forall|kk: int|
                    0 <= kk < k as int ==> (#[trigger] cells@[kk])@ == cell_particle(
                        origin@,
                        spacing as int,
                        kk / height as int,
                        kk % height as int,
                    ),
                forall|kk: int| 0 <= kk < cells@.len() ==> (#[trigger] cells@[kk])@.valid(config),
            decreases total - k,
        {
            proof {
                assert(height as int > 0) by (nonlinear_arith)
                    requires
                        0 <= k as int,
                        (k as int) < (width as int) * (height as int),
                        height as int >= 0,
                ;
            }
            let x = k / height;
            let y = k % height;
            proof {
                vstd::arithmetic::div_mod::lemma_mod_bound(k as int, height as int);
                assert((x as int) < width as int) by (nonlinear_arith)
                    requires
                        x as int == k as int / height as int,
                        0 <= k as int,
                        (k as int) < (width as int) * (height as int),
                        height as int > 0,
                ;
            }
            let pos = origin.plus(
                &Vec2 { x: fp_mul(fp_from_uint(x), spacing), y: fp_mul(fp_from_uint(y), spacing) },
            );
            assert(pos@ == cell_pos(origin@, spacing as int, x as int, y as int));
            match ParticleState::new(pos, &config) {
                Ok(p) => {
                    cells.push(p);
                },
                Err(_) => {
                    assert(!cell_particle(origin@, spacing as int, x as int, y as int).valid(
                        config,
                    ));
                    return Err(SimError::DomainViolation);
                },
            }
            k = k + 1;
        }
        let field = BatchField { config, magnets, origin, spacing, width, height, cells };
        proof {
            assert forall|x: int, y: int|
                0 <= x < width as int && 0 <= y < height as int implies (#[trigger] field.cells@[x
                * height as int + y])@ == cell_particle(origin@, spacing as int, x, y) by {
                let hi = height as int;
                let kk = x * hi + y;
                assert(0 <= kk < width as int * hi) by (nonlinear_arith)
                    requires
                        kk == x * hi + y,
                        0 <= x < width as int,
                        0 <= y < hi,
                ;
                vstd::arithmetic::div_mod::lemma_fundamental_div_mod_converse(kk, hi, x, y);
            }
        }
        Ok(field)
    }

    /// Advance every cell's particle by one micro-step, independently.
    pub fn step(&mut self)
        requires
            old(self).wf(),
        ensures
            final(self).wf(),
            final(self).config == old(self).config,
            final(self).magnets == old(self).magnets,
            final(self).origin == old(self).origin,
            final(self).spacing == old(self).spacing,
            final(self).width == old(self).width,
            final(self).height == old(self).height,
            final(self).cells@.len() == old(self).cells@.len(),
            forall|k: int|
                0 <= k < old(self).cells@.len() ==> (#[trigger] final(self).cells@[k])@
                    == crate::integrator::step_model(
                    old(self).cells@[k]@,
                    old(self).config,
                    old(self).magnets@,
                ),
    {
        let n = self.cells.len();
        let mut out: Vec<ParticleState> = Vec::new();
        let mut k: usize = 0;
        while k < n
            invariant
                *self == *old(self),
                self.wf(),
                k <= n,
                n == self.cells@.len(),
                out@.len() == k as int,
                forall|j: int|
                    0 <= j < k as int ==> (#[trigger] out@[j])@ == crate::integrator::step_model(
                        self.cells@[j]@,
                        self.config,
                        self.magnets@,
                    ),
                forall|j: int| 0 <= j < k as int ==> (#[trigger] out@[j])@.valid(self.config),
            decreases n - k,
        {
            let p = crate::integrator::step(&self.cells[k], &self.config, &self.magnets);
            out.push(p);
            k = k + 1;
        }
        self.cells = out;
    }

    /// Advance every cell's particle by the same duration, independently.
    pub fn advance(&mut self, duration: i64)
        requires
            old(self).wf(),
        ensures
            final(self).wf(),
            final(self).config == old(self).config,
            final(self).magnets == old(self).magnets,
            final(self).origin == old(self).origin,
            final(self).spacing == old(self).spacing,
            final(self).width == old(self).width,
            final(self).height == old(self).height,
            final(self).cells@.len() == old(self).cells@.len(),
            forall|k: int|
                0 <= k < old(self).cells@.len() ==> (#[trigger] final(self).cells@[k])@
                    == advance_model(
                    old(self).cells@[k]@,
                    old(self).config,
                    old(self).magnets@,
                    steps_of(old(self).config, duration as int),
                ),
    {
        let n = self.cells.len();
        let mut out: Vec<ParticleState> = Vec::new();
        let mut k: usize = 0;
        while k < n
            invariant
                *self == *old(self),
                self.wf(),
                k <= n,
                n == self.cells@.len(),
                out@.len() == k as int,
                forall|j: int|
                    0 <= j < k as int ==> (#[trigger] out@[j])@ == advance_model(
                        self.cells@[j]@,
                        self.config,
                        self.magnets@,
                        steps_of(self.config, duration as int),
                    ),
                forall|j: int| 0 <= j < k as int ==> (#[trigger] out@[j])@.valid(self.config),
            decreases n - k,
        {
            let p = crate::integrator::advance(&self.cells[k], &self.config, &self.magnets, duration);
            out.push(p);
            k = k + 1;
        }
        self.cells = out;
    }

    /// The classification of every cell: the index of the magnet nearest to
    /// the cell's current horizontal position, row-major.
    pub fn classification(&self) -> (r: Vec<usize>)
        requires
            self.wf(),
        ensures
            r@.len() == self.cells@.len(),
            forall|k: int|
                0 <= k < r@.len() ==> #[trigger] r@[k] as int == nearest_magnet(
                    self.cells@[k]@.pos,
                    self.magnets@,
                ),
            forall|k: int| 0 <= k < r@.len() ==> #[trigger] r@[k] < self.magnets@.len(),
    {
        let n = self.cells.len();
        let mut out: Vec<usize> = Vec::new();
        let mut k: usize = 0;
        while k < n
            invariant
                self.wf(),
                k <= n,
                n == self.cells@.len(),
                out@.len() == k as int,
                forall|j: int|
                    0 <= j < k as int ==> #[trigger] out@[j] as int == nearest_magnet(
                        self.cells@[j]@.pos,
                        self.magnets@,
                    ),
                forall|j: int| 0 <= j < k as int ==> #[trigger] out@[j] < self.magnets@.len(),
            decreases n - k,
        {
            let idx = nearest_magnet_index(&self.cells[k].horizontal_position, &self.magnets);
            out.push(idx);
            k = k + 1;
        }
        out
    }

    /// The whole pipeline of a fractal image: start one resting particle per
    /// grid cell, let every cell settle for the same duration, and return the
    /// row-major grid of nearest-magnet indices. Fails exactly when some
    /// cell's position lies beyond the tether.
    pub fn classify(
        config: SimulationConfig,
        magnets: Vec<Magnet>,
        origin: Vec2,
        spacing: i64,
        width: usize,
        height: usize,
        settle_duration: i64,
    ) -> (r: Result<Vec<usize>, SimError>)
        requires
            config.wf(),
            magnets@.len() > 0,
            width as int * height as int <= usize::MAX as int,
        ensures
            match r {
                Ok(g) => {
                    &&& g@.len() == width as int * height as int
                    &&& forall|x: int, y: int|
                        0 <= x < width as int && 0 <= y < height as int ==> (#[trigger] g@[x
                            * height as int + y]) as int == nearest_magnet(
                            advance_model(
                                cell_particle(origin@, spacing as int, x, y),
                                config,
                                magnets@,
                                steps_of(config, settle_duration as int),
                            ).pos,
                            magnets@,
                        )
                    &&& forall|k: int| 0 <= k < g@.len() ==> #[trigger] g@[k] < magnets@.len()
                },
                Err(e) => {
                    &&& e == SimError::DomainViolation
                    &&& exists|x: int, y: int|
                        0 <= x < width as int && 0 <= y < height as int && !(
                        #[trigger] cell_particle(origin@, spacing as int, x, y)).valid(config)
                },
            },
    {
        let mut field = match BatchField::new(config, magnets, origin, spacing, width, height) {
            Ok(f) => f,
            Err(e) => {
                return Err(e);
            },
        };
        field.advance(settle_duration);
        let g = field.classification();
        proof {
            assert forall|x: int, y: int|
                0 <= x < width as int && 0 <= y < height as int implies (#[trigger] g@[x * height
                as int + y]) as int == nearest_magnet(
                advance_model(
                    cell_particle(origin@, spacing as int, x, y),
                    config,
                    magnets@,
                    steps_of(config, settle_duration as int),
                ).pos,
                magnets@,
            ) by {
                let wi = width as int;
                let hi = height as int;
                assert(0 <= x * hi + y < wi * hi) by (nonlinear_arith)
                    requires
                        0 <= x < wi,
                        0 <= y < hi,
                ;
            }
        }
        Ok(g)
    }
}

} // verus!

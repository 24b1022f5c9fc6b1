//! The integrator: advances a particle by fixed micro-steps.
//!
//! Per micro-step the forces are gravity, quadratic air drag and an
//! inverse-square pull toward each magnet; the tether is enforced by
//! projecting the net force onto the rope direction and folding the radial
//! part back in, a deliberate projection-based approximation of the rigid
//! constraint. Two deliberate regularizations keep the arithmetic finite:
//! a particle exactly on a magnet feels no pull in an undefined direction
//! (`normalize_or_zero`), and the squared magnet distance is floored at
//! [`MIN_DIST_SQ`] before the inverse-square law, so the force magnitude
//! cannot diverge. If a position update would leave the tether disk, the
//! position is pulled back onto it, so the constraint survives every step.

use vstd::prelude::*;

use crate::fixed::{div_fp, mul_fp, neg_fp, sqrt_fp};
use crate::fixed::{fp_div, fp_mul, fp_neg, fp_sqrt};
use crate::sim::{ball_at, Magnet, ParticleModel, ParticleState, SimulationConfig};
use crate::vector::{add2, add3, dist_sq2, dot3, len_sq2, len_sq3, neg3, norm3, project3, scale3,
    sub2, sub3, xy3, V2, V3, Vec2, Vec3};

verus! {

/// Floor for the squared magnet distance fed to the inverse-square law
/// (10⁻⁶ in world units, i.e. a minimum distance of 10⁻³): the deliberate
/// clamp that keeps the magnet force finite near a singularity.
pub const MIN_DIST_SQ: i64 = 1_000_000;

/// The gravity force vector: straight down, `mass · gravity` strong.
pub open spec fn gravity_force(c: SimulationConfig) -> V3 {
    V3 { x: 0, y: 0, z: neg_fp(mul_fp(c.mass as int, c.gravity as int)) }
}

/// Quadratic air drag: `|v|²` times the drag coefficient, opposing `v`.
pub open spec fn drag_force(vel: V3, c: SimulationConfig) -> V3 {
    neg3(scale3(scale3(norm3(vel), len_sq3(vel)), c.air_drag_coeff as int))
}

/// The pull of one magnet on a ball at `ball`: an inverse-square central
/// force, with the squared distance floored at `MIN_DIST_SQ`.
pub open spec fn magnet_pull(ball: V3, c: SimulationConfig, m: Magnet) -> V3 {
    let d = sub3(m.position@, ball);
    let dsq = len_sq3(d);
    let dsq_floored = if dsq < MIN_DIST_SQ as int {
        MIN_DIST_SQ as int
    } else {
        dsq
    };
    scale3(norm3(d), div_fp(c.magnet_coeff as int, dsq_floored))
}

/// The pulls of the first `n` magnets, summed in order (superposition).
pub open spec fn magnet_sum(ball: V3, c: SimulationConfig, ms: Seq<Magnet>, n: int) -> V3
    decreases n,
{
    if n <= 0 {
        V3 { x: 0, y: 0, z: 0 }
    } else {
        add3(magnet_sum(ball, c, ms, n - 1), magnet_pull(ball, c, ms[n - 1]))
    }
}

/// The net force before the tether acts: gravity, then every magnet, then drag.
pub open spec fn raw_force(p: ParticleModel, c: SimulationConfig, ms: Seq<Magnet>) -> V3 {
    add3(
        add3(gravity_force(c), magnet_sum(ball_at(p.pos, c), c, ms, ms.len() as int)),
        drag_force(p.vel, c),
    )
}

/// The tether reaction folded into the net force: the radial component of
/// `raw` along the rope is negated when it points with the net force (the
/// rope can only pull), then added back, which cancels the outward-radial
/// part and keeps the tangential part.
pub open spec fn constrained_force(p: ParticleModel, c: SimulationConfig, ms: Seq<Magnet>) -> V3 {
    let raw = raw_force(p, c, ms);
    let rope_v = sub3(c.pivot@, ball_at(p.pos, c));
    let proj = project3(raw, rope_v);
    let reaction = if dot3(proj, raw) > 0 {
        neg3(proj)
    } else {
        proj
    };
    add3(raw, reaction)
}

/// Where a candidate position ends up under the tether constraint: itself if
/// the tether reaches it, else pulled radially back onto the tether disk,
/// and if rounding still leaves that outside, the previous position.
pub open spec fn constrain_pos(prev: V2, cand: V2, c: SimulationConfig) -> V2 {
    if dist_sq2(cand, xy3(c.pivot@)) <= c.rope_sq() {
        cand
    } else {
        let off = sub2(cand, xy3(c.pivot@));
        let d = sqrt_fp(len_sq2(off));
        let scaled = if d == 0 {
            xy3(c.pivot@)
        } else {
            add2(
                xy3(c.pivot@),
                V2 {
                    x: div_fp(mul_fp(off.x, c.rope_length as int), d),
                    y: div_fp(mul_fp(off.y, c.rope_length as int), d),
                },
            )
        };
        if dist_sq2(scaled, xy3(c.pivot@)) <= c.rope_sq() {
            scaled
        } else {
            prev
        }
    }
}

/// One micro-step: integrate the constrained acceleration into the velocity,
/// then the velocity into the horizontal position (semi-implicit Euler),
/// guarding the tether constraint. Opaque: proofs that need the body reveal it.
#[verifier::opaque]
pub open spec fn step_model(p: ParticleModel, c: SimulationConfig, ms: Seq<Magnet>) -> ParticleModel {
    let acc = div3(constrained_force(p, c, ms), c.mass as int);
    let vel = add3(p.vel, scale3(acc, c.micro_step as int));
    let cand = add2(
        p.pos,
        V2 { x: mul_fp(vel.x, c.micro_step as int), y: mul_fp(vel.y, c.micro_step as int) },
    );
    ParticleModel { pos: constrain_pos(p.pos, cand, c), vel: vel }
}

/// A 3D vector divided component-wise by a fixed-point scalar.
pub open spec fn div3(a: V3, k: int) -> V3 {
    V3 { x: div_fp(a.x, k), y: div_fp(a.y, k), z: div_fp(a.z, k) }
}

/// `n` micro-steps in sequence.
pub open spec fn advance_model(p: ParticleModel, c: SimulationConfig, ms: Seq<Magnet>, n: int) -> ParticleModel
    decreases n,
{
    if n <= 0 {
        p
    } else {
        step_model(advance_model(p, c, ms, n - 1), c, ms)
    }
}

/// How many micro-steps a duration covers: `⌊duration · time_scale / micro_step⌋`,
/// in fixed-point arithmetic; a non-positive duration covers none.
pub open spec fn steps_of(c: SimulationConfig, duration: int) -> int {
    if duration <= 0 {
        0
    } else {
        mul_fp(duration, c.time_scale as int) / (c.micro_step as int)
    }
}

/// One micro-step keeps a valid particle valid: the position guard never
/// lets the horizontal position leave the tether disk.
pub proof fn lemma_step_preserves_tether(p: ParticleModel, c: SimulationConfig, ms: Seq<Magnet>)
    requires
        p.valid(c),
    ensures
        step_model(p, c, ms).valid(c),
{
    reveal(step_model);
    crate::fixed::lemma_mul_fp_self_nonneg(c.rope_length as int);
    let vel = add3(p.vel, scale3(div3(constrained_force(p, c, ms), c.mass as int), c.micro_step as int));
    let cand = add2(
        p.pos,
        V2 { x: mul_fp(vel.x, c.micro_step as int), y: mul_fp(vel.y, c.micro_step as int) },
    );
    if dist_sq2(cand, xy3(c.pivot@)) <= c.rope_sq() {
    } else {
        let off = sub2(cand, xy3(c.pivot@));
        let d = sqrt_fp(len_sq2(off));
        if d == 0 {
            crate::fixed::lemma_mul_fp_zero(0);
            assert(dist_sq2(xy3(c.pivot@), xy3(c.pivot@)) == 0);
        }
    }
}

/// The tether constraint is an invariant of the integrator: however many
/// micro-steps run, a valid particle stays within rope reach of the pivot.
pub proof fn lemma_tether_never_violated(
    p: ParticleModel,
    c: SimulationConfig,
    ms: Seq<Magnet>,
    n: int,
)
    requires
        p.valid(c),
    ensures
        advance_model(p, c, ms, n).valid(c),
    decreases n,
{
    if n > 0 {
        lemma_tether_never_violated(p, c, ms, n - 1);
        lemma_step_preserves_tether(advance_model(p, c, ms, n - 1), c, ms);
    }
}

/// Advancing by a non-positive duration runs no micro-step and is the
/// identity on the particle.
pub proof fn lemma_advance_zero_is_identity(
    p: ParticleModel,
    c: SimulationConfig,
    ms: Seq<Magnet>,
    duration: int,
)
    requires
        duration <= 0,
    ensures
        steps_of(c, duration) == 0,
        advance_model(p, c, ms, steps_of(c, duration)) == p,
{
}

/// Advancing composes: `n` micro-steps and then `m` more land where `n + m`
/// micro-steps land, so chained `advance` calls behave as one longer run.
pub proof fn lemma_advance_composes(
    p: ParticleModel,
    c: SimulationConfig,
    ms: Seq<Magnet>,
    n: int,
    m: int,
)
    requires
        n >= 0,
        m >= 0,
    ensures
        advance_model(advance_model(p, c, ms, n), c, ms, m) == advance_model(p, c, ms, n + m),
    decreases m,
{
    if m > 0 {
        lemma_advance_composes(p, c, ms, n, m - 1);
    }
}

/// A recorded trail ends where `advance` ends: a sequence with one entry per
/// micro-step, the `i`-th being the position after `i + 1` micro-steps, has
/// as its last entry the position after all `n` micro-steps.
pub proof fn lemma_trail_ends_at_advance(
    p: ParticleModel,
    c: SimulationConfig,
    ms: Seq<Magnet>,
    trail: Seq<V2>,
    n: int,
)
    requires
        n > 0,
        trail.len() == n,
        forall|i: int| 0 <= i < n ==> (#[trigger] trail[i]) == advance_model(p, c, ms, i + 1).pos,
    ensures
        trail.last() == advance_model(p, c, ms, n).pos,
{
    assert(trail[n - 1] == advance_model(p, c, ms, (n - 1) + 1).pos);
}

/// The pull of one magnet on the ball at `ball`.
fn magnet_pull_e(ball: &Vec3, c: &SimulationConfig, m: &Magnet) -> (r: Vec3)
    ensures
        r@ == magnet_pull(ball@, *c, *m),
{
    let d = m.position.minus(ball);
    let dsq = d.length_squared();
    let dsq_floored = if dsq < MIN_DIST_SQ {
        MIN_DIST_SQ
    } else {
        dsq
    };
    let magnitude = fp_div(c.magnet_coeff, dsq_floored);
    d.normalize_or_zero().scaled(magnitude)
}

/// The summed pull of all magnets on the ball at `ball`.
fn magnet_sum_e(ball: &Vec3, c: &SimulationConfig, magnets: &Vec<Magnet>) -> (r: Vec3)
    ensures
        r@ == magnet_sum(ball@, *c, magnets@, magnets@.len() as int),
{
    let mut total = Vec3::zero();
    let mut i: usize = 0;
    while i < magnets.len()
        invariant
            i <= magnets@.len(),
            total@ == magnet_sum(ball@, *c, magnets@, i as int),
        decreases magnets@.len() - i,
    {
        let pull = magnet_pull_e(ball, c, &magnets[i]);
        total = total.plus(&pull);
        i = i + 1;
    }
    total
}

/// The candidate position constrained to the tether disk.
fn constrain_pos_e(prev: &Vec2, cand: &Vec2, c: &SimulationConfig) -> (r: Vec2)
    ensures
        r@ == constrain_pos(prev@, cand@, *c),
{
    let rope_sq = fp_mul(c.rope_length, c.rope_length);
    let pivot_xy = c.pivot.xy();
    if cand.distance_squared(&pivot_xy) <= rope_sq {
        return *cand;
    }
    let off = cand.minus(&pivot_xy);
    let d = fp_sqrt(off.length_squared());
    let scaled = if d == 0 {
        pivot_xy
    } else {
        pivot_xy.plus(
            &Vec2 {
                x: fp_div(fp_mul(off.x, c.rope_length), d),
                y: fp_div(fp_mul(off.y, c.rope_length), d),
            },
        )
    };
    if scaled.distance_squared(&pivot_xy) <= rope_sq {
        scaled
    } else {
        *prev
    }
}

/// Advance one particle by one micro-step.
pub fn step(p: &ParticleState, c: &SimulationConfig, magnets: &Vec<Magnet>) -> (r: ParticleState)
    requires
        c.wf(),
        p@.valid(*c),
    ensures
        r@ == step_model(p@, *c, magnets@),
        r@.valid(*c),
{
    let ball = p.ball_position(c);
    let grav = Vec3 { x: 0, y: 0, z: fp_neg(fp_mul(c.mass, c.gravity)) };
    assert(grav@ == gravity_force(*c));
    let magnetic = magnet_sum_e(&ball, c, magnets);
    let drag = p.velocity.normalize_or_zero().scaled(p.velocity.length_squared()).scaled(
        c.air_drag_coeff,
    ).negate();
    assert(drag@ == drag_force(p@.vel, *c));
    let raw = grav.plus(&magnetic).plus(&drag);
    assert(raw@ == raw_force(p@, *c, magnets@));
    let rope_v = c.pivot.minus(&ball);
    let proj = raw.project_onto(&rope_v);
    let reaction = if proj.dot(&raw) > 0 {
        proj.negate()
    } else {
        proj
    };
    let constrained = raw.plus(&reaction);
    assert(constrained@ == constrained_force(p@, *c, magnets@));
    let acc = Vec3 {
        x: fp_div(constrained.x, c.mass),
        y: fp_div(constrained.y, c.mass),
        z: fp_div(constrained.z, c.mass),
    };
    let vel = p.velocity.plus(&acc.scaled(c.micro_step));
    let cand = p.horizontal_position.plus(
        &Vec2 { x: fp_mul(vel.x, c.micro_step), y: fp_mul(vel.y, c.micro_step) },
    );
    let pos = constrain_pos_e(&p.horizontal_position, &cand, c);
    let r = ParticleState { horizontal_position: pos, velocity: vel };
    proof {
        reveal(step_model);
        assert(r@ == step_model(p@, *c, magnets@));
        lemma_step_preserves_tether(p@, *c, magnets@);
    }
    r
}

/// How many micro-steps `duration` covers under `c`.
fn steps_count(c: &SimulationConfig, duration: i64) -> (r: u64)
    requires
        c.wf(),
    ensures
        r as int == steps_of(*c, duration as int),
{
    if duration <= 0 {
        return 0;
    }
    let t = fp_mul(duration, c.time_scale);
    proof {
        vstd::arithmetic::mul::lemma_mul_nonnegative(
            crate::fixed::abs_val(duration as int),
            crate::fixed::abs_val(c.time_scale as int),
        );
        vstd::arithmetic::div_mod::lemma_div_pos_is_pos(
            crate::fixed::abs_val(duration as int) * crate::fixed::abs_val(c.time_scale as int),
            crate::fixed::SCALE as int,
        );
    }
    (t as u64) / (c.micro_step as u64)
}

/// Advance a particle by a duration: run `⌊duration · time_scale / micro_step⌋`
/// micro-steps, discarding intermediate positions. A pure function of its
/// inputs; the tether constraint holds on the result.
pub fn advance(
    p: &ParticleState,
    c: &SimulationConfig,
    magnets: &Vec<Magnet>,
    duration: i64,
) -> (r: ParticleState)
    requires
        c.wf(),
        p@.valid(*c),
    ensures
        r@ == advance_model(p@, *c, magnets@, steps_of(*c, duration as int)),
        r@.valid(*c),
{
    let steps = steps_count(c, duration);
    let mut cur = *p;
    let mut k: u64 = 0;
    while k < steps
        invariant
            c.wf(),
            k <= steps,
            steps as int == steps_of(*c, duration as int),
            cur@ == advance_model(p@, *c, magnets@, k as int),
            cur@.valid(*c),
        decreases steps - k,
    {
        cur = step(&cur, c, magnets);
        k = k + 1;
    }
    cur
}

/// Advance a particle by a duration, recording the horizontal position after
/// every micro-step: the trail has one entry per micro-step, in order, and
/// its last entry is where `advance` would have left the particle.
pub fn advance_recording(
    p: &ParticleState,
    c: &SimulationConfig,
    magnets: &Vec<Magnet>,
    duration: i64,
) -> (r: (ParticleState, Vec<Vec2>))
    requires
        c.wf(),
        p@.valid(*c),
    ensures
        r.0@ == advance_model(p@, *c, magnets@, steps_of(*c, duration as int)),
        r.0@.valid(*c),
        r.1@.len() == steps_of(*c, duration as int),
        forall|i: int|
            0 <= i < r.1@.len() ==> (#[trigger] r.1@[i])@ == advance_model(p@, *c, magnets@, i + 1).pos,
{
    let steps = steps_count(c, duration);
    let mut cur = *p;
    let mut trail: Vec<Vec2> = Vec::new();
    let mut k: u64 = 0;
    while k < steps
        invariant
            c.wf(),
            k <= steps,
            steps as int == steps_of(*c, duration as int),
            cur@ == advance_model(p@, *c, magnets@, k as int),
            cur@.valid(*c),
            trail@.len() == k as int,
            forall|i: int|
                0 <= i < k as int ==> (#[trigger] trail@[i])@ == advance_model(p@, *c, magnets@, i + 1).pos,
        decreases steps - k,
    {
        cur = step(&cur, c, magnets);
        trail.push(cur.horizontal_position);
        k = k + 1;
    }
    (cur, trail)
}

} // verus!

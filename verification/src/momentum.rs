//! The exact-arithmetic laws behind the integrator.
//!
//! Floating-point values cannot be reasoned about here, so these laws are
//! stated over the idealized model in which positions, velocities and masses
//! are exact quantities (integers stand in for the reals: the identities below
//! are ring identities, true in any commutative ring). The executor's
//! double-precision arithmetic realizes each identity to within rounding.

use vstd::prelude::*;
use crate::schedule::{lemma_pair_plan_complete, pair_plan, N_BODIES};

verus! {

/// A three-component vector in the exact model.
pub ghost struct V3 {
    pub x: int,
    pub y: int,
    pub z: int,
}

/// One body in the exact model: its velocity and its mass ratio (mass
/// relative to the reference "solar mass" unit).
pub ghost struct ExactBody {
    pub vel: V3,
    pub mass_ratio: int,
}

pub open spec fn v3_zero() -> V3 {
    V3 { x: 0, y: 0, z: 0 }
}

pub open spec fn v3_add(a: V3, b: V3) -> V3 {
    V3 { x: a.x + b.x, y: a.y + b.y, z: a.z + b.z }
}

pub open spec fn v3_neg(a: V3) -> V3 {
    V3 { x: -a.x, y: -a.y, z: -a.z }
}

pub open spec fn v3_scale(c: int, a: V3) -> V3 {
    V3 { x: c * a.x, y: c * a.y, z: c * a.z }
}

/// The total momentum of a body sequence: the vector sum over all bodies of
/// velocity times mass ratio.
pub open spec fn total_momentum(bodies: Seq<ExactBody>) -> V3
    decreases bodies.len(),
{
    if bodies.len() == 0 {
        v3_zero()
    } else {
        v3_add(
            v3_scale(bodies[0].mass_ratio, bodies[0].vel),
            total_momentum(bodies.drop_first()),
        )
    }
}

/// Momentum normalization: the reference body (index 0) has its velocity
/// replaced by the negated momentum of all the other bodies; every other
/// body is unchanged.
pub open spec fn normalize_momentum(bodies: Seq<ExactBody>) -> Seq<ExactBody>
    recommends
        bodies.len() > 0,
{
    bodies.update(
        0,
        ExactBody {
            vel: v3_neg(total_momentum(bodies.drop_first())),
            mass_ratio: bodies[0].mass_ratio,
        },
    )
}

/// The velocity change one member of an interacting pair receives: the
/// position delta, scaled by the other member's mass and by the shared
/// magnitude factor of the pair.
pub open spec fn kick(delta: V3, other_mass: int, mag: int) -> V3 {
    v3_scale(other_mass * mag, delta)
}

/// One pair interaction in the exact model: a kick event between bodies `i`
/// and `j`. The position delta and the magnitude factor are arbitrary here —
/// the magnitude absorbs the time step and the solar-mass scale — so every
/// law proved over events holds whatever values the executor's arithmetic
/// produces for them.
pub ghost struct KickEvent {
    pub i: int,
    pub j: int,
    pub delta: V3,
    pub mag: int,
}

/// Applies one kick event: body `i` receives the kick scaled by `j`'s mass
/// negatively, body `j` receives the kick scaled by `i`'s mass positively;
/// mass ratios and every other body are untouched.
pub open spec fn apply_kick(bodies: Seq<ExactBody>, e: KickEvent) -> Seq<ExactBody>
    recommends
        0 <= e.i < bodies.len(),
        0 <= e.j < bodies.len(),
        e.i != e.j,
{
    bodies.update(
        e.i,
        ExactBody {
            vel: v3_add(bodies[e.i].vel, v3_neg(kick(e.delta, bodies[e.j].mass_ratio, e.mag))),
            mass_ratio: bodies[e.i].mass_ratio,
        },
    ).update(
        e.j,
        ExactBody {
            vel: v3_add(bodies[e.j].vel, kick(e.delta, bodies[e.i].mass_ratio, e.mag)),
            mass_ratio: bodies[e.j].mass_ratio,
        },
    )
}

/// Applies a sequence of kick events in order.
pub open spec fn apply_kicks(bodies: Seq<ExactBody>, events: Seq<KickEvent>) -> Seq<ExactBody>
    decreases events.len(),
{
    if events.len() == 0 {
        bodies
    } else {
        apply_kicks(apply_kick(bodies, events[0]), events.drop_first())
    }
}

/// Whether every event of a sequence names two distinct bodies of a system
/// of the given size.
pub open spec fn events_in_range(events: Seq<KickEvent>, n: int) -> bool {
    forall|k: int|
        0 <= k < events.len() ==> 0 <= (#[trigger] events[k]).i < n && 0 <= events[k].j < n
            && events[k].i != events[k].j
}

/// Scaling by a unit mass ratio is the identity.
proof fn lemma_v3_scale_one(a: V3)
    ensures
        v3_scale(1, a) == a,
{
}

/// Total momentum splits into the head body's contribution plus the rest.
proof fn lemma_momentum_head(bodies: Seq<ExactBody>)
    requires
        bodies.len() > 0,
    ensures
        total_momentum(bodies) == v3_add(
            v3_scale(bodies[0].mass_ratio, bodies[0].vel),
            total_momentum(bodies.drop_first()),
        ),
{
}

/// Momentum normalization replaces the reference body's velocity — it does
/// not accumulate into it — and touches nothing else: every other body is
/// unchanged, and every mass ratio is unchanged.
pub proof fn lemma_normalize_touches_only_reference(bodies: Seq<ExactBody>)
    requires
        bodies.len() > 0,
    ensures
        normalize_momentum(bodies).len() == bodies.len(),
        forall|k: int| 1 <= k < bodies.len() ==> normalize_momentum(bodies)[k] == bodies[k],
        normalize_momentum(bodies)[0].mass_ratio == bodies[0].mass_ratio,
        normalize_momentum(bodies)[0].vel == v3_neg(total_momentum(bodies.drop_first())),
{
}

/// Momentum closure: after momentum normalization of a system whose reference
/// body has mass ratio one, the total momentum — the vector sum over all
/// bodies of velocity times mass ratio — is exactly the zero vector.
pub proof fn lemma_momentum_closure(bodies: Seq<ExactBody>)
    requires
        bodies.len() > 0,
        bodies[0].mass_ratio == 1,
    ensures
        total_momentum(normalize_momentum(bodies)) == v3_zero(),
{
    let after = normalize_momentum(bodies);
    assert(after.drop_first() =~= bodies.drop_first());
    let rest = total_momentum(bodies.drop_first());
    lemma_momentum_head(after);
    lemma_v3_scale_one(after[0].vel);
    assert(total_momentum(after) == v3_add(v3_neg(rest), rest));
}

/// Scaling distributes over vector addition.
proof fn lemma_v3_scale_add(c: int, a: V3, b: V3)
    ensures
        v3_scale(c, v3_add(a, b)) == v3_add(v3_scale(c, a), v3_scale(c, b)),
{
    assert(c * (a.x + b.x) == c * a.x + c * b.x) by (nonlinear_arith);
    assert(c * (a.y + b.y) == c * a.y + c * b.y) by (nonlinear_arith);
    assert(c * (a.z + b.z) == c * a.z + c * b.z) by (nonlinear_arith);
}

/// Replacing one body changes the total momentum by exactly that body's
/// change of contribution.
proof fn lemma_momentum_update(bodies: Seq<ExactBody>, k: int, nb: ExactBody)
    requires
        0 <= k < bodies.len(),
    ensures
        total_momentum(bodies.update(k, nb)) == v3_add(
            total_momentum(bodies),
            v3_add(
                v3_scale(nb.mass_ratio, nb.vel),
                v3_neg(v3_scale(bodies[k].mass_ratio, bodies[k].vel)),
            ),
        ),
    decreases bodies.len(),
{
    if k == 0 {
        assert(bodies.update(0, nb).drop_first() =~= bodies.drop_first());
    } else {
        assert(bodies.update(k, nb).drop_first() =~= bodies.drop_first().update(k - 1, nb));
        lemma_momentum_update(bodies.drop_first(), k - 1, nb);
    }
}

/// One kick event conserves total momentum exactly: what one body loses, the
/// other gains, whatever the position delta and magnitude factor are.
pub proof fn lemma_kick_conserves_momentum(bodies: Seq<ExactBody>, e: KickEvent)
    requires
        0 <= e.i < bodies.len(),
        0 <= e.j < bodies.len(),
        e.i != e.j,
    ensures
        total_momentum(apply_kick(bodies, e)) == total_momentum(bodies),
{
    let mi: int = bodies[e.i].mass_ratio;
    let mj: int = bodies[e.j].mass_ratio;
    let ki = v3_neg(kick(e.delta, mj, e.mag));
    let kj = kick(e.delta, mi, e.mag);
    let bi = ExactBody { vel: v3_add(bodies[e.i].vel, ki), mass_ratio: mi };
    let bj = ExactBody { vel: v3_add(bodies[e.j].vel, kj), mass_ratio: mj };
    let mid = bodies.update(e.i, bi);
    lemma_momentum_update(bodies, e.i, bi);
    lemma_momentum_update(mid, e.j, bj);
    lemma_v3_scale_add(mi, bodies[e.i].vel, ki);
    lemma_v3_scale_add(mj, bodies[e.j].vel, kj);
    lemma_pair_momentum_antisymmetric(e.delta, mi, mj, e.mag);
}

/// Momentum conservation over a whole step: applying any sequence of kick
/// events — in particular the ten of the verified advance plan — leaves the
/// total momentum exactly unchanged. Position drifts touch no velocity, so
/// this is the momentum balance of the entire step.
pub proof fn lemma_step_conserves_momentum(bodies: Seq<ExactBody>, events: Seq<KickEvent>)
    requires
        events_in_range(events, bodies.len() as int),
    ensures
        total_momentum(apply_kicks(bodies, events)) == total_momentum(bodies),
    decreases events.len(),
{
    if events.len() > 0 {
        let after = apply_kick(bodies, events[0]);
        lemma_kick_conserves_momentum(bodies, events[0]);
        assert(after.len() == bodies.len());
        assert(events_in_range(events.drop_first(), after.len() as int)) by {
            assert(forall|k: int|
                0 <= k < events.drop_first().len() ==> events.drop_first()[k] == events[k + 1]);
        }
        lemma_step_conserves_momentum(after, events.drop_first());
    }
}

/// Any kick events that walk the verified pair plan — one event per planned
/// pair, whatever their deltas and magnitudes — name two distinct bodies of
/// the five-body system, so `lemma_step_conserves_momentum` applies to every
/// step the executor performs.
pub proof fn lemma_plan_events_in_range(events: Seq<KickEvent>)
    requires
        events.len() == pair_plan().len(),
        forall|k: int|
            0 <= k < events.len() ==> (#[trigger] events[k]).i == pair_plan()[k].0 as int
                && events[k].j == pair_plan()[k].1 as int,
    ensures
        events_in_range(events, N_BODIES as int),
{
    lemma_pair_plan_complete();
}

/// Pairwise antisymmetry: within one pair interaction, the momentum imparted
/// to one body is exactly the negation of the momentum imparted to the other.
/// Body `i` receives the kick negatively and body `j` positively, computed
/// from the same position delta and the same magnitude factor, so momentum is
/// exchanged, never created.
pub proof fn lemma_pair_momentum_antisymmetric(delta: V3, mass_i: int, mass_j: int, mag: int)
    ensures
        v3_add(
            v3_scale(mass_i, v3_neg(kick(delta, mass_j, mag))),
            v3_scale(mass_j, kick(delta, mass_i, mag)),
        ) == v3_zero(),
        v3_scale(mass_i, v3_neg(kick(delta, mass_j, mag))) == v3_neg(
            v3_scale(mass_j, kick(delta, mass_i, mag)),
        ),
{
    assert(mass_i * (-((mass_j * mag) * delta.x)) + mass_j * ((mass_i * mag) * delta.x) == 0)
        by (nonlinear_arith);
    assert(mass_i * (-((mass_j * mag) * delta.y)) + mass_j * ((mass_i * mag) * delta.y) == 0)
        by (nonlinear_arith);
    assert(mass_i * (-((mass_j * mag) * delta.z)) + mass_j * ((mass_i * mag) * delta.z) == 0)
        by (nonlinear_arith);
}

} // verus!

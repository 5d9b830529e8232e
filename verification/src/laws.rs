//! The laws of the kernel, each proved once and for all: symmetry of a
//! pair's deltas, layer gating, the minimum-separation guard, the
//! zero-time tick, falloff with distance, and superposition.

use vstd::prelude::*;
use vstd::arithmetic::div_mod::{
    lemma_div_is_ordered_by_denominator, lemma_div_of0, lemma_div_pos_is_pos,
};
use crate::body::Body;
use crate::config::{G_SCALE, MIN_DIST};
use crate::integrator::{
    dist_squared, force_num, net_delta, pair_delta, pair_mag, scaled_toward, separation,
};
use crate::layers::interacts;

verus! {

/// Swapping the two bodies of a pair changes neither the squared
/// distance, the separation, the force numerator nor the delta
/// magnitude.
pub proof fn lemma_pair_symmetric(a: Body, b: Body, dt: int)
    ensures
        dist_squared(a, b) == dist_squared(b, a),
        separation(a, b) == separation(b, a),
        force_num(a, b, dt) == force_num(b, a, dt),
        pair_mag(a, b, dt) == pair_mag(b, a, dt),
{
    let dx = b.position.x - a.position.x;
    let dy = b.position.y - a.position.y;
    assert(dx * dx == (-dx) * (-dx) && dy * dy == (-dy) * (-dy)) by (nonlinear_arith);
    assert(G_SCALE * a.mass * b.mass * dt == G_SCALE * b.mass * a.mass * dt) by (nonlinear_arith);
}

/// Pointing a delta along the opposite difference negates it exactly.
proof fn lemma_scaled_toward_negated(mag: int, c: int, d: int)
    requires
        d > 0,
    ensures
        scaled_toward(mag, -c, d) == -scaled_toward(mag, c, d),
{
    if c == 0 {
        assert(mag * 0 == 0);
        lemma_div_of0(d);
    }
}

/// Symmetry: the velocity deltas the two bodies of a pair receive in
/// one tick are exact negations of each other, whatever the masses,
/// layers, positions and time delta.
pub proof fn lemma_pair_deltas_opposite(a: Body, b: Body, dt: int)
    ensures
        pair_delta(a, b, dt).0 == -pair_delta(b, a, dt).0,
        pair_delta(a, b, dt).1 == -pair_delta(b, a, dt).1,
{
    lemma_pair_symmetric(a, b, dt);
    if interacts(a.layers, b.layers) && separation(a, b) > MIN_DIST {
        let d = separation(a, b);
        let m = pair_mag(a, b, dt);
        lemma_scaled_toward_negated(m, b.position.x - a.position.x, d);
        lemma_scaled_toward_negated(m, b.position.y - a.position.y, d);
    }
}

/// Momentum balance of one pair with equal masses: the mass-weighted
/// deltas of the two bodies cancel exactly over one tick.
pub proof fn lemma_pair_momentum_balance(a: Body, b: Body, dt: int)
    requires
        a.mass == b.mass,
    ensures
        a.mass * pair_delta(a, b, dt).0 + b.mass * pair_delta(b, a, dt).0 == 0,
        a.mass * pair_delta(a, b, dt).1 + b.mass * pair_delta(b, a, dt).1 == 0,
{
    lemma_pair_deltas_opposite(a, b, dt);
    let x = pair_delta(a, b, dt).0;
    let y = pair_delta(a, b, dt).1;
    assert(a.mass * x + b.mass * (-x) == 0 && a.mass * y + b.mass * (-y) == 0) by (nonlinear_arith)
        requires
            a.mass == b.mass,
    ;
}

/// Layer gating: when the mutual-consent rule refuses a pair, neither
/// body receives any velocity delta from the other, at any distance and
/// for any time delta.
pub proof fn lemma_layer_gating(a: Body, b: Body, dt: int)
    requires
        !interacts(a.layers, b.layers),
    ensures
        pair_delta(a, b, dt) == (0int, 0int),
        pair_delta(b, a, dt) == (0int, 0int),
{
}

/// A component scaled from a nonnegative magnitude keeps the sign of
/// the difference it points along.
proof fn lemma_scaled_toward_sign(mag: int, c: int, d: int)
    requires
        mag >= 0,
        d > 0,
    ensures
        c >= 0 ==> scaled_toward(mag, c, d) >= 0,
        c <= 0 ==> scaled_toward(mag, c, d) <= 0,
{
    if c >= 0 {
        assert(mag * c >= 0) by (nonlinear_arith)
            requires
                mag >= 0,
                c >= 0,
        ;
        lemma_div_pos_is_pos(mag * c, d);
    } else {
        assert(mag * (-c) >= 0) by (nonlinear_arith)
            requires
                mag >= 0,
                c < 0,
        ;
        lemma_div_pos_is_pos(mag * (-c), d);
    }
}

/// Attraction: for nonnegative masses and time delta, the delta a body
/// receives from a pair points toward the other body, component by
/// component.
pub proof fn lemma_attraction_direction(a: Body, b: Body, dt: int)
    requires
        a.mass >= 0,
        b.mass >= 0,
        dt >= 0,
    ensures
        b.position.x >= a.position.x ==> pair_delta(a, b, dt).0 >= 0,
        b.position.x <= a.position.x ==> pair_delta(a, b, dt).0 <= 0,
        b.position.y >= a.position.y ==> pair_delta(a, b, dt).1 >= 0,
        b.position.y <= a.position.y ==> pair_delta(a, b, dt).1 <= 0,
{
    if interacts(a.layers, b.layers) && separation(a, b) > MIN_DIST {
        let d = separation(a, b);
        let num = force_num(a, b, dt);
        assert(num >= 0) by (nonlinear_arith)
            requires
                num == G_SCALE * a.mass * b.mass * dt,
                a.mass >= 0,
                b.mass >= 0,
                dt >= 0,
        ;
        assert(d * d > 0) by (nonlinear_arith)
            requires
                d > 0,
        ;
        lemma_div_pos_is_pos(num, d * d);
        lemma_scaled_toward_sign(pair_mag(a, b, dt), b.position.x - a.position.x, d);
        lemma_scaled_toward_sign(pair_mag(a, b, dt), b.position.y - a.position.y, d);
    }
}

/// A body that interacts with no other body of the set accumulates no
/// delta at all over the tick: the integrator leaves its velocity
/// unchanged.
pub proof fn lemma_gated_body_undisturbed(bodies: Seq<Body>, i: int, dt: int, k: int)
    requires
        forall|j: int| 0 <= j < k && j != i ==> !interacts(bodies[i].layers, bodies[j].layers),
    ensures
        net_delta(bodies, i, dt, k) == (0int, 0int),
    decreases k,
{
    if k > 0 {
        lemma_gated_body_undisturbed(bodies, i, dt, k - 1);
        if k - 1 != i {
            lemma_layer_gating(bodies[i], bodies[k - 1], dt);
        }
    }
}

/// Minimum-distance guard: a pair whose separation does not exceed the
/// guard contributes exactly zero velocity delta to both bodies,
/// whatever the masses.
pub proof fn lemma_min_distance_guard(a: Body, b: Body, dt: int)
    requires
        separation(a, b) <= MIN_DIST,
    ensures
        pair_delta(a, b, dt) == (0int, 0int),
        pair_delta(b, a, dt) == (0int, 0int),
{
    lemma_pair_symmetric(a, b, dt);
}

/// A pair contributes nothing in a zero-time tick.
pub proof fn lemma_pair_zero_dt(a: Body, b: Body)
    ensures
        pair_delta(a, b, 0) == (0int, 0int),
{
    if interacts(a.layers, b.layers) && separation(a, b) > MIN_DIST {
        let d = separation(a, b);
        assert(force_num(a, b, 0) == 0);
        assert(d * d > 0) by (nonlinear_arith)
            requires
                d > 0,
        ;
        lemma_div_of0(d * d);
        assert(pair_mag(a, b, 0) == 0);
        let cx = b.position.x - a.position.x;
        let cy = b.position.y - a.position.y;
        assert(scaled_toward(0, cx, d) == 0 && scaled_toward(0, cy, d) == 0) by {
            lemma_div_of0(d);
            assert(0 * cx == 0 && 0 * (-cx) == 0 && 0 * cy == 0 && 0 * (-cy) == 0);
        }
    }
}

/// Zero-dt idempotence: with a zero time delta every accumulated delta
/// is zero, so the integrator leaves all velocities unchanged.
pub proof fn lemma_zero_dt(bodies: Seq<Body>, i: int, k: int)
    ensures
        net_delta(bodies, i, 0, k) == (0int, 0int),
    decreases k,
{
    if k > 0 {
        lemma_zero_dt(bodies, i, k - 1);
        if k - 1 != i {
            lemma_pair_zero_dt(bodies[i], bodies[k - 1]);
        }
    }
}

/// Monotonic falloff of the computed magnitude: holding the masses and
/// the time delta fixed, a pair at a larger separation never receives a
/// larger delta magnitude. (The floor division quantizes: the decrease
/// need not be strict; the exact fraction's strict decrease is
/// `lemma_falloff_exact`.)
pub proof fn lemma_falloff(a: Body, b: Body, c: Body, dt: int)
    requires
        b.mass == c.mass,
        a.mass >= 0,
        b.mass >= 0,
        dt >= 0,
        0 < separation(a, b) <= separation(a, c),
    ensures
        pair_mag(a, c, dt) <= pair_mag(a, b, dt),
{
    let d1 = separation(a, b);
    let d2 = separation(a, c);
    let num = force_num(a, b, dt);
    assert(force_num(a, c, dt) == num);
    assert(num >= 0) by (nonlinear_arith)
        requires
            num == G_SCALE * a.mass * b.mass * dt,
            a.mass >= 0,
            b.mass >= 0,
            dt >= 0,
    ;
    assert(1 <= d1 * d1 <= d2 * d2) by (nonlinear_arith)
        requires
            0 < d1 <= d2,
    ;
    lemma_div_is_ordered_by_denominator(num, d1 * d1, d2 * d2);
}

/// Strict falloff of the exact force fraction: holding the masses and
/// a positive time delta fixed, the exact rational force
/// `num / separation^2` strictly decreases as the separation grows.
/// Stated cross-multiplied, so no rational values appear: the fraction
/// at the nearer separation exceeds the one at the farther separation
/// iff `num * d2^2 > num * d1^2`.
pub proof fn lemma_falloff_exact(a: Body, b: Body, c: Body, dt: int)
    requires
        b.mass == c.mass,
        a.mass >= 1,
        b.mass >= 1,
        dt >= 1,
        0 < separation(a, b) < separation(a, c),
    ensures
        force_num(a, c, dt) == force_num(a, b, dt),
        force_num(a, b, dt) * (separation(a, c) * separation(a, c)) > force_num(a, b, dt) * (
        separation(a, b) * separation(a, b)),
{
    let num = force_num(a, b, dt);
    let d1 = separation(a, b);
    let d2 = separation(a, c);
    assert(num >= 1) by (nonlinear_arith)
        requires
            num == G_SCALE * a.mass * b.mass * dt,
            a.mass >= 1,
            b.mass >= 1,
            dt >= 1,
    ;
    assert(num * (d2 * d2) > num * (d1 * d1)) by (nonlinear_arith)
        requires
            num >= 1,
            0 < d1 < d2,
    ;
}

/// Three-body superposition: the delta the last body of a three-body
/// tick accumulates is the sum of the deltas it accumulates in the two
/// two-body ticks taken separately.
pub proof fn lemma_three_body_superposition(a: Body, b: Body, c: Body, dt: int)
    ensures
        net_delta(seq![a, b, c], 2, dt, 3).0 == net_delta(seq![a, c], 1, dt, 2).0 + net_delta(
            seq![b, c],
            1,
            dt,
            2,
        ).0,
        net_delta(seq![a, b, c], 2, dt, 3).1 == net_delta(seq![a, c], 1, dt, 2).1 + net_delta(
            seq![b, c],
            1,
            dt,
            2,
        ).1,
{
    reveal_with_fuel(net_delta, 4);
}

} // verus!

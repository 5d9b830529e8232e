//! The gravity integrator: per tick, every unordered pair of bodies
//! that passes the layer rule and the minimum-separation guard
//! contributes equal and opposite inverse-square velocity deltas.

use vstd::prelude::*;
use vstd::pervasive::VecAdditionalExecFns;
use vstd::arithmetic::div_mod::{
    lemma_div_is_ordered, lemma_div_is_ordered_by_denominator, lemma_div_multiples_vanish,
};
use vstd::arithmetic::mul::lemma_mul_inequality;
use crate::body::{Body, Vec2};
use crate::config::{DT_LIMIT, G_SCALE, MAX_BODIES, MIN_DIST, PAIR_DELTA_LIMIT};
use crate::layers::interacts;
use crate::math::{abs_val, isqrt, lemma_sqrt_floor_bounds, sqrt_floor};

verus! {

/// Squared distance between two bodies, exact.
pub open spec fn dist_squared(a: Body, b: Body) -> int {
    let dx = b.position.x - a.position.x;
    let dy = b.position.y - a.position.y;
    dx * dx + dy * dy
}

/// Separation of two bodies: the floor square root of their squared
/// distance, in raw units.
pub open spec fn separation(a: Body, b: Body) -> int {
    sqrt_floor(dist_squared(a, b))
}

/// The force numerator of a pair: `G_SCALE * mass_a * mass_b * dt`,
/// exact.
pub open spec fn force_num(a: Body, b: Body, dt: int) -> int {
    G_SCALE * a.mass * b.mass * dt
}

/// The magnitude of the velocity delta either body of an interacting
/// pair receives: the force numerator over the squared separation,
/// floor division.
pub open spec fn pair_mag(a: Body, b: Body, dt: int) -> int
    recommends
        separation(a, b) > 0,
{
    let d = separation(a, b);
    force_num(a, b, dt) / (d * d)
}

/// One component of a delta of magnitude `mag` pointed along a
/// difference whose component is `c`, at separation `d`: the magnitude
/// is scaled by `|c| / d` and carries the sign of `c`.
pub open spec fn scaled_toward(mag: int, c: int, d: int) -> int
    recommends
        d > 0,
        mag >= 0,
{
    if c >= 0 {
        (mag * c) / d
    } else {
        -((mag * (-c)) / d)
    }
}

/// The velocity delta body `a` receives from body `b` this tick: zero
/// unless the layer rule consents and the separation is above the
/// guard, else the pair magnitude pointed from `a` toward `b`.
pub open spec fn pair_delta(a: Body, b: Body, dt: int) -> (int, int) {
    if !interacts(a.layers, b.layers) {
        (0, 0)
    } else {
        let d = separation(a, b);
        if d <= MIN_DIST {
            (0, 0)
        } else {
            let m = pair_mag(a, b, dt);
            (
                scaled_toward(m, b.position.x - a.position.x, d),
                scaled_toward(m, b.position.y - a.position.y, d),
            )
        }
    }
}

/// The velocity delta body `i` accumulates from the bodies at indices
/// below `k`: the sum of its pair deltas, the body itself skipped.
pub open spec fn net_delta(bodies: Seq<Body>, i: int, dt: int, k: int) -> (int, int)
    decreases k,
{
    if k <= 0 {
        (0, 0)
    } else {
        let rest = net_delta(bodies, i, dt, k - 1);
        if k - 1 == i {
            rest
        } else {
            let pd = pair_delta(bodies[i], bodies[k - 1], dt);
            (rest.0 + pd.0, rest.1 + pd.1)
        }
    }
}

/// The velocity delta body `a` receives from body `b` this tick.
pub fn pair_velocity_delta(a: &Body, b: &Body, dt: i128) -> (dv: Vec2)
    requires
        a.is_valid(),
        b.is_valid(),
        0 <= dt <= DT_LIMIT,
    ensures
        dv.x == pair_delta(*a, *b, dt as int).0,
        dv.y == pair_delta(*a, *b, dt as int).1,
        -PAIR_DELTA_LIMIT < dv.x < PAIR_DELTA_LIMIT,
        -PAIR_DELTA_LIMIT < dv.y < PAIR_DELTA_LIMIT,
{
    if !a.layers.interacts_with(b.layers) {
        return Vec2 { x: 0, y: 0 };
    }
    let dx: i128 = b.position.x - a.position.x;
    let dy: i128 = b.position.y - a.position.y;
    let adx: u128 = if dx >= 0 {
        dx as u128
    } else {
        (-dx) as u128
    };
    let ady: u128 = if dy >= 0 {
        dy as u128
    } else {
        (-dy) as u128
    };
    proof {
        assert(adx == abs_val(dx as int));
        assert(ady == abs_val(dy as int));
        assert(adx * adx <= 40_000_000_000_000_000_000_000 && adx * adx == (dx as int) * (
        dx as int)) by (nonlinear_arith)
            requires
                adx <= 200_000_000_000u128,
                adx == abs_val(dx as int),
        ;
        assert(ady * ady <= 40_000_000_000_000_000_000_000 && ady * ady == (dy as int) * (
        dy as int)) by (nonlinear_arith)
            requires
                ady <= 200_000_000_000u128,
                ady == abs_val(dy as int),
        ;
    }
    let d2: u128 = adx * adx + ady * ady;
    assert(d2 == dist_squared(*a, *b));
    let d: u128 = isqrt(d2);
    assert(d == separation(*a, *b));
    if d <= 10_000 {
        assert(separation(*a, *b) <= MIN_DIST);
        return Vec2 { x: 0, y: 0 };
    }
    proof {
        lemma_sqrt_floor_bounds(d2 as int);
        assert(adx <= d && ady <= d) by (nonlinear_arith)
            requires
                0 <= adx,
                0 <= ady,
                0 <= d,
                adx * adx + ady * ady == d2,
                d * d <= d2 < (d + 1) * (d + 1),
        ;
    }
    let gm: u128 = 10_000 * (a.mass as u128);
    proof {
        assert(gm * (b.mass as u128) <= 1_000_000_000_000_000_000_000_000) by (nonlinear_arith)
            requires
                gm <= 100_000_000_000_000u128,
                b.mass as u128 <= 10_000_000_000u128,
        ;
    }
    let gmm: u128 = gm * (b.mass as u128);
    proof {
        assert(gmm * (dt as u128) <= 10_000_000_000_000_000_000_000_000_000_000) by (
        nonlinear_arith)
            requires
                gmm <= 1_000_000_000_000_000_000_000_000u128,
                dt as u128 <= 10_000_000u128,
        ;
    }
    let num: u128 = gmm * (dt as u128);
    assert(num == force_num(*a, *b, dt as int));
    proof {
        assert(d * d <= d2 && d * d >= 100_020_001) by (nonlinear_arith)
            requires
                10_000 < d,
                d * d <= d2,
        ;
    }
    let dd: u128 = d * d;
    let mag: u128 = num / dd;
    assert(mag == pair_mag(*a, *b, dt as int));
    proof {
        lemma_div_is_ordered(num as int, 10_000_000_000_000_000_000_000_000_000_000, dd as int);
        lemma_div_is_ordered_by_denominator(
            10_000_000_000_000_000_000_000_000_000_000,
            100_020_001,
            dd as int,
        );
        assert(10_000_000_000_000_000_000_000_000_000_000int / 100_020_001int
            < PAIR_DELTA_LIMIT);
        assert(mag < PAIR_DELTA_LIMIT);
        assert(mag * adx <= mag * d && mag * ady <= mag * d) by {
            lemma_mul_inequality(adx as int, d as int, mag as int);
            lemma_mul_inequality(ady as int, d as int, mag as int);
            assert(mag * adx == adx * mag && mag * d == d * mag && mag * ady == ady * mag) by (
            nonlinear_arith);
        }
        assert(mag * d < PAIR_DELTA_LIMIT * 300_000_000_000) by (nonlinear_arith)
            requires
                0 <= mag < PAIR_DELTA_LIMIT,
                0 < d,
                d * d <= 80_000_000_000_000_000_000_000,
                300_000_000_000 * 300_000_000_000 > 80_000_000_000_000_000_000_000,
        ;
    }
    let mx: u128 = mag * adx;
    let my: u128 = mag * ady;
    proof {
        lemma_div_is_ordered(mx as int, (mag * d) as int, d as int);
        lemma_div_is_ordered(my as int, (mag * d) as int, d as int);
        lemma_div_multiples_vanish(mag as int, d as int);
        assert(d * mag == mag * d) by (nonlinear_arith);
    }
    let cx: u128 = mx / d;
    let cy: u128 = my / d;
    assert(cx <= mag && cy <= mag);
    let dvx: i128 = if dx >= 0 {
        cx as i128
    } else {
        -(cx as i128)
    };
    let dvy: i128 = if dy >= 0 {
        cy as i128
    } else {
        -(cy as i128)
    };
    assert(dvx == scaled_toward(pair_mag(*a, *b, dt as int), dx as int, d as int));
    assert(dvy == scaled_toward(pair_mag(*a, *b, dt as int), dy as int, d as int));
    Vec2 { x: dvx, y: dvy }
}

/// One tick, snapshot discipline: the velocity delta every body should
/// receive, as a list the host applies. Entry `k` is the sum of body
/// `k`'s pair deltas over all other bodies.
pub fn velocity_deltas(bodies: &Vec<Body>, dt: i128) -> (deltas: Vec<Vec2>)
    requires
        forall|k: int| 0 <= k < bodies@.len() ==> bodies@[k].is_valid(),
        0 <= dt <= DT_LIMIT,
        bodies@.len() <= MAX_BODIES,
    ensures
        deltas@.len() == bodies@.len(),
        forall|k: int|
            0 <= k < bodies@.len() ==> deltas@[k].x == net_delta(
                bodies@,
                k,
                dt as int,
                bodies@.len() as int,
            ).0 && deltas@[k].y == net_delta(bodies@, k, dt as int, bodies@.len() as int).1,
        forall|k: int|
            0 <= k < bodies@.len() ==> -(MAX_BODIES * PAIR_DELTA_LIMIT) <= (#[trigger] deltas@[k]).x
                <= MAX_BODIES * PAIR_DELTA_LIMIT && -(MAX_BODIES * PAIR_DELTA_LIMIT)
                <= deltas@[k].y <= MAX_BODIES * PAIR_DELTA_LIMIT,
{
    let n: usize = bodies.len();
    let mut deltas: Vec<Vec2> = Vec::new();
    let mut i: usize = 0;
    while i < n
        invariant
            n == bodies@.len() <= MAX_BODIES,
            forall|k: int| 0 <= k < bodies@.len() ==> bodies@[k].is_valid(),
            0 <= dt <= DT_LIMIT,
            i <= n,
            deltas@.len() == i,
            forall|k: int|
                0 <= k < i ==> deltas@[k].x == net_delta(bodies@, k, dt as int, n as int).0
                    && deltas@[k].y == net_delta(bodies@, k, dt as int, n as int).1,
            forall|k: int|
                0 <= k < i ==> -(MAX_BODIES * PAIR_DELTA_LIMIT) <= (#[trigger] deltas@[k]).x
                    <= MAX_BODIES * PAIR_DELTA_LIMIT && -(MAX_BODIES * PAIR_DELTA_LIMIT)
                    <= deltas@[k].y <= MAX_BODIES * PAIR_DELTA_LIMIT,
        decreases n - i,
    {
        let mut acc_x: i128 = 0;
        let mut acc_y: i128 = 0;
        let mut j: usize = 0;
        while j < n
            invariant
                n == bodies@.len() <= MAX_BODIES,
                forall|k: int| 0 <= k < bodies@.len() ==> bodies@[k].is_valid(),
                0 <= dt <= DT_LIMIT,
                i < n,
                j <= n,
                acc_x == net_delta(bodies@, i as int, dt as int, j as int).0,
                acc_y == net_delta(bodies@, i as int, dt as int, j as int).1,
                -(j * PAIR_DELTA_LIMIT) <= acc_x <= j * PAIR_DELTA_LIMIT,
                -(j * PAIR_DELTA_LIMIT) <= acc_y <= j * PAIR_DELTA_LIMIT,
            decreases n - j,
        {
            if j != i {
                let dv = pair_velocity_delta(&bodies[i], &bodies[j], dt);
                acc_x = acc_x + dv.x;
                acc_y = acc_y + dv.y;
            }
            j = j + 1;
        }
        deltas.push(Vec2 { x: acc_x, y: acc_y });
        i = i + 1;
    }
    deltas
}

/// One tick, in-place discipline: rewrites every body's velocity by its
/// accumulated delta, leaving mass, position and layers untouched.
pub fn apply_gravity(bodies: &mut Vec<Body>, dt: i128)
    requires
        forall|k: int|
            0 <= k < old(bodies)@.len() ==> old(bodies)@[k].is_valid() && old(
                bodies,
            )@[k].velocity_bounded(),
        0 <= dt <= DT_LIMIT,
        old(bodies)@.len() <= MAX_BODIES,
    ensures
        final(bodies)@.len() == old(bodies)@.len(),
        forall|k: int|
            0 <= k < old(bodies)@.len() ==> {
                &&& final(bodies)@[k].mass == old(bodies)@[k].mass
                &&& final(bodies)@[k].position == old(bodies)@[k].position
                &&& final(bodies)@[k].layers == old(bodies)@[k].layers
                &&& final(bodies)@[k].velocity.x == old(bodies)@[k].velocity.x + net_delta(
                    old(bodies)@,
                    k,
                    dt as int,
                    old(bodies)@.len() as int,
                ).0
                &&& final(bodies)@[k].velocity.y == old(bodies)@[k].velocity.y + net_delta(
                    old(bodies)@,
                    k,
                    dt as int,
                    old(bodies)@.len() as int,
                ).1
            },
{
    let deltas = velocity_deltas(bodies, dt);
    let n: usize = bodies.len();
    let mut i: usize = 0;
    while i < n
        invariant
            n == bodies@.len() == old(bodies)@.len() <= MAX_BODIES,
            deltas@.len() == n,
            i <= n,
            forall|k: int|
                0 <= k < old(bodies)@.len() ==> old(bodies)@[k].is_valid() && old(
                    bodies,
                )@[k].velocity_bounded(),
            forall|k: int|
                0 <= k < n ==> deltas@[k].x == net_delta(old(bodies)@, k, dt as int, n as int).0
                    && deltas@[k].y == net_delta(old(bodies)@, k, dt as int, n as int).1,
            forall|k: int|
                0 <= k < n ==> -(MAX_BODIES * PAIR_DELTA_LIMIT) <= (#[trigger] deltas@[k]).x
                    <= MAX_BODIES * PAIR_DELTA_LIMIT && -(MAX_BODIES * PAIR_DELTA_LIMIT)
                    <= deltas@[k].y <= MAX_BODIES * PAIR_DELTA_LIMIT,
            forall|k: int| i <= k < n ==> bodies@[k] == old(bodies)@[k],
            forall|k: int|
                0 <= k < i ==> {
                    &&& bodies@[k].mass == old(bodies)@[k].mass
                    &&& bodies@[k].position == old(bodies)@[k].position
                    &&& bodies@[k].layers == old(bodies)@[k].layers
                    &&& bodies@[k].velocity.x == old(bodies)@[k].velocity.x + net_delta(
                        old(bodies)@,
                        k,
                        dt as int,
                        n as int,
                    ).0
                    &&& bodies@[k].velocity.y == old(bodies)@[k].velocity.y + net_delta(
                        old(bodies)@,
                        k,
                        dt as int,
                        n as int,
                    ).1
                },
        decreases n - i,
    {
        let b = bodies[i];
        let d = deltas[i];
        let updated = Body {
            velocity: Vec2 { x: b.velocity.x + d.x, y: b.velocity.y + d.y },
            ..b
        };
        bodies.set(i, updated);
        i = i + 1;
    }
}

} // verus!

use layered_gravity::body::{Body, BodyError, Vec2};
use layered_gravity::config::{MASS_LIMIT, POS_LIMIT, VEL_LIMIT};
use layered_gravity::integrator::{apply_gravity, pair_velocity_delta, velocity_deltas};
use layered_gravity::layers::{GravityLayer, GravityLayers, LayerMask};
use layered_gravity::math::isqrt;

/// A body with default layers, no initial velocity, in raw micro-units.
fn body_at(mass: i128, x: i128, y: i128) -> Body {
    Body::new(mass, Vec2::new(x, y), Vec2::zero(), GravityLayers::default()).unwrap()
}

#[test]
fn isqrt_exact_values() {
    assert_eq!(isqrt(0), 0);
    assert_eq!(isqrt(1), 1);
    assert_eq!(isqrt(2), 1);
    assert_eq!(isqrt(3), 1);
    assert_eq!(isqrt(4), 2);
    assert_eq!(isqrt(99), 9);
    assert_eq!(isqrt(100), 10);
    assert_eq!(isqrt(10_000_000_000_000_000), 100_000_000);
    assert_eq!(isqrt(u128::MAX), 18_446_744_073_709_551_615);
}

#[test]
fn body_construction_errors() {
    let pos = Vec2::new(0, 0);
    let vel = Vec2::zero();
    let layers = GravityLayers::default();
    assert_eq!(Body::new(0, pos, vel, layers), Err(BodyError::NonPositiveMass));
    assert_eq!(Body::new(-5, pos, vel, layers), Err(BodyError::NonPositiveMass));
    assert_eq!(Body::new(MASS_LIMIT + 1, pos, vel, layers), Err(BodyError::MassTooLarge));
    assert_eq!(
        Body::new(1, Vec2::new(POS_LIMIT + 1, 0), vel, layers),
        Err(BodyError::PositionOutOfRange)
    );
    assert_eq!(
        Body::new(1, Vec2::new(0, -POS_LIMIT - 1), vel, layers),
        Err(BodyError::PositionOutOfRange)
    );
    assert_eq!(
        Body::new(1, pos, Vec2::new(0, VEL_LIMIT + 1), layers),
        Err(BodyError::VelocityOutOfRange)
    );
    let b = Body::new(MASS_LIMIT, Vec2::new(POS_LIMIT, -POS_LIMIT), vel, layers).unwrap();
    assert_eq!(b.mass, MASS_LIMIT);
}

// Two bodies of mass 5, at (0, 0) and (100, 0) world units, default
// layers, dt one sixtieth of a second: each receives a delta of
// magnitude 10000 * 5 * 5 / 100^2 / 60 of a world unit per second along
// the x axis, the body at the origin pulled toward +x. In raw
// micro-units with dt = 16666 the exact kernel value is 416650.
#[test]
fn reference_two_body_scenario() {
    let mut bodies = vec![body_at(5_000_000, 0, 0), body_at(5_000_000, 100_000_000, 0)];
    apply_gravity(&mut bodies, 16_666);
    assert_eq!(bodies[0].velocity, Vec2::new(416_650, 0));
    assert_eq!(bodies[1].velocity, Vec2::new(-416_650, 0));
    // Positions, masses and layers are untouched.
    assert_eq!(bodies[0].position, Vec2::new(0, 0));
    assert_eq!(bodies[1].position, Vec2::new(100_000_000, 0));
    assert_eq!(bodies[0].mass, 5_000_000);
}

// Same two bodies, but the second body's filters exclude the first
// body's memberships entirely: no velocity change on either side.
#[test]
fn layer_exclusion_scenario() {
    let excluded = GravityLayers::new(LayerMask::default_layer(), LayerMask::empty());
    let a = body_at(5_000_000, 0, 0);
    let b = Body::new(
        5_000_000,
        Vec2::new(100_000_000, 0),
        Vec2::zero(),
        excluded,
    )
    .unwrap();
    let mut bodies = vec![a, b];
    apply_gravity(&mut bodies, 16_666);
    assert_eq!(bodies[0].velocity, Vec2::zero());
    assert_eq!(bodies[1].velocity, Vec2::zero());
}

#[test]
fn minimum_distance_guard() {
    // Exactly one guard distance apart (0.01 world units): no force,
    // however heavy the bodies.
    let mut bodies = vec![body_at(MASS_LIMIT, 0, 0), body_at(MASS_LIMIT, 10_000, 0)];
    apply_gravity(&mut bodies, 10_000_000);
    assert_eq!(bodies[0].velocity, Vec2::zero());
    assert_eq!(bodies[1].velocity, Vec2::zero());

    // Coincident bodies: still no force.
    let mut twins = vec![body_at(MASS_LIMIT, 77, -3), body_at(MASS_LIMIT, 77, -3)];
    apply_gravity(&mut twins, 10_000_000);
    assert_eq!(twins[0].velocity, Vec2::zero());
    assert_eq!(twins[1].velocity, Vec2::zero());

    // Just past the guard the pair does attract.
    let mut near = vec![body_at(MASS_LIMIT, 0, 0), body_at(MASS_LIMIT, 10_001, 0)];
    apply_gravity(&mut near, 10_000_000);
    assert!(near[0].velocity.x > 0);
    assert!(near[1].velocity.x < 0);
}

#[test]
fn zero_dt_leaves_velocities_unchanged() {
    let mut a = body_at(5_000_000, 0, 0);
    let mut b = body_at(9_000_000, 100_000_000, 40_000_000);
    a.velocity = Vec2::new(123, -456);
    b.velocity = Vec2::new(-789, 1011);
    let mut bodies = vec![a, b];
    apply_gravity(&mut bodies, 0);
    assert_eq!(bodies[0].velocity, Vec2::new(123, -456));
    assert_eq!(bodies[1].velocity, Vec2::new(-789, 1011));
}

// Holding masses and layers fixed, a pair twice as far apart receives a
// smaller delta: 416650 at 100 world units against 104162 at 200.
#[test]
fn falloff_with_distance() {
    let near = vec![body_at(5_000_000, 0, 0), body_at(5_000_000, 100_000_000, 0)];
    let far = vec![body_at(5_000_000, 0, 0), body_at(5_000_000, 200_000_000, 0)];
    let dn = velocity_deltas(&near, 16_666);
    let df = velocity_deltas(&far, 16_666);
    assert_eq!(dn[0], Vec2::new(416_650, 0));
    assert_eq!(df[0], Vec2::new(104_162, 0));
    assert!(df[0].x < dn[0].x);
}

// The deltas of a pair are exact negations of each other even for
// unequal masses, and point along the difference of positions: here a
// 3-4-5 triangle, 30 by 40 world units, where every division is exact.
#[test]
fn pair_deltas_exactly_opposite() {
    let a = body_at(2_000_000, 0, 0);
    let b = body_at(2_000_000, 30_000_000, 40_000_000);
    let dv_a = pair_velocity_delta(&a, &b, 1_000_000);
    let dv_b = pair_velocity_delta(&b, &a, 1_000_000);
    assert_eq!(dv_a, Vec2::new(9_600_000, 12_800_000));
    assert_eq!(dv_b, Vec2::new(-9_600_000, -12_800_000));

    let c = body_at(3_000_000, -50_000_000, 20_000_000);
    let d = body_at(8_000_000, 123_456_789, -42_000_000);
    let dv_c = pair_velocity_delta(&c, &d, 16_666);
    let dv_d = pair_velocity_delta(&d, &c, 16_666);
    assert_eq!(dv_c.x, -dv_d.x);
    assert_eq!(dv_c.y, -dv_d.y);
}

// A middle body placed symmetrically between two equal masses
// accumulates cancelling contributions, and a three-body tick gives
// each body exactly the sum of its two-body deltas.
#[test]
fn three_body_superposition() {
    let a = body_at(5_000_000, 0, 0);
    let b = body_at(5_000_000, 200_000_000, 0);
    let c = body_at(7_000_000, 100_000_000, 0);

    let three = velocity_deltas(&vec![a, b, c], 16_666);
    assert_eq!(three[2], Vec2::zero());

    let ac = velocity_deltas(&vec![a, c], 16_666);
    let bc = velocity_deltas(&vec![b, c], 16_666);
    assert_eq!(three[2].x, ac[1].x + bc[1].x);
    assert_eq!(three[2].y, ac[1].y + bc[1].y);

    // The outer bodies feel the middle body and each other.
    assert_eq!(three[0].x, ac[0].x + velocity_deltas(&vec![a, b], 16_666)[0].x);
    assert_eq!(three[1].x, bc[0].x + velocity_deltas(&vec![a, b], 16_666)[1].x);
}

// A "level" layer that pulls on the "main" layer but excludes other
// level bodies: level bodies filter to main only, so the two level
// bodies ignore each other while both attract the main body.
#[test]
fn level_layer_excludes_other_statics() {
    let level = GravityLayers::new(GravityLayer::Level.mask(), GravityLayer::Main.mask());
    let main = GravityLayers::new(GravityLayer::Main.mask(), LayerMask::all());
    let s1 = Body::new(5_000_000, Vec2::new(-100_000_000, 0), Vec2::zero(), level).unwrap();
    let s2 = Body::new(5_000_000, Vec2::new(100_000_000, 0), Vec2::zero(), level).unwrap();
    let m = Body::new(5_000_000, Vec2::new(0, 50_000_000), Vec2::zero(), main).unwrap();

    // The two level bodies alone: nothing moves.
    let mut statics = vec![s1, s2];
    apply_gravity(&mut statics, 16_666);
    assert_eq!(statics[0].velocity, Vec2::zero());
    assert_eq!(statics[1].velocity, Vec2::zero());

    // With the main body present, it is pulled by both level bodies
    // (downward by symmetry), and each level body is pulled toward it.
    let mut scene = vec![s1, s2, m];
    apply_gravity(&mut scene, 16_666);
    assert_eq!(scene[2].velocity.x, 0);
    assert!(scene[2].velocity.y < 0);
    assert!(scene[0].velocity.x > 0 && scene[0].velocity.y > 0);
    assert!(scene[1].velocity.x < 0 && scene[1].velocity.y > 0);
}

#[test]
fn degenerate_inputs_are_no_ops() {
    let mut empty: Vec<Body> = vec![];
    apply_gravity(&mut empty, 16_666);
    assert_eq!(empty.len(), 0);
    assert_eq!(velocity_deltas(&empty, 16_666).len(), 0);

    let mut single = vec![body_at(5_000_000, 10, 20)];
    apply_gravity(&mut single, 16_666);
    assert_eq!(single[0].velocity, Vec2::zero());
    assert_eq!(velocity_deltas(&single, 16_666)[0], Vec2::zero());
}

#[test]
fn deltas_and_in_place_tick_agree() {
    let mut a = body_at(5_000_000, -30_000_000, 10_000_000);
    a.velocity = Vec2::new(1_000, 2_000);
    let b = body_at(2_000_000, 90_000_000, -64_000_000);
    let bodies = vec![a, b];
    let deltas = velocity_deltas(&bodies, 500_000);
    let mut ticked = bodies.clone();
    apply_gravity(&mut ticked, 500_000);
    assert_eq!(ticked[0].velocity.x, bodies[0].velocity.x + deltas[0].x);
    assert_eq!(ticked[0].velocity.y, bodies[0].velocity.y + deltas[0].y);
    assert_eq!(ticked[1].velocity.x, bodies[1].velocity.x + deltas[1].x);
    assert_eq!(ticked[1].velocity.y, bodies[1].velocity.y + deltas[1].y);
}

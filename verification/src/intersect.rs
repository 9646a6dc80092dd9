//! Whether a ray's meeting with a shape counts as a hit.
//!
//! The geometry of a ray and a shape comes down to a few numbers. For a sphere
//! they are the squared distance at which the ray passes the centre and the two
//! distances along the ray at which it crosses the surface. For a triangle they
//! are a determinant, the weights of the crossing point and its distance along the
//! ray. The rules that turn those numbers into a hit or a miss are stated here.
//!
//! Whatever the shape, a hit has a distance that is a finite number and at least
//! `MIN_DISTANCE`, and every number that the decision reads is a number: where the
//! geometry breaks down and yields something that is none, there is no hit.
use vstd::prelude::*;
use crate::binary32::{below, is_nan, is_number, is_sign_negative, less_than, rank, INFINITY, SIGN_BIT};
use crate::tolerance::{is_negative, EPSILON, NEGATIVE_EPSILON};

verus! {

/// The nearest distance at which a hit counts, for a sphere and for a triangle
/// alike: the encoding of 0.001. A ray that leaves a surface would otherwise hit
/// that same surface again at once, and a shape behind the ray's start is no hit.
pub const MIN_DISTANCE: u32 = 0x3a83_126f;

/// One widened by the margin: the encoding of the sum of 1 and 0.0005.
pub const ONE_PLUS_EPSILON: u32 = 0x3f80_1062;

/// Whether a number can be the distance of a hit: it is finite and at least
/// `MIN_DISTANCE`.
pub open spec fn hit_distance(bits: u32) -> bool {
    is_number(bits) && MIN_DISTANCE <= rank(bits) < INFINITY
}

/// The lesser of two numbers; the second where the first is not below it.
pub open spec fn lesser(a: u32, b: u32) -> u32 {
    if below(a, b) {
        a
    } else {
        b
    }
}

/// The distance at which a ray hits a sphere, if it does.
///
/// `opposite_squared` is the squared distance between the centre and the point of
/// the ray nearest to it, `reach` the squared radius widened by the margin, `near`
/// and `far` the two distances at which the ray crosses the surface.
///
/// There is a hit where all four are numbers, the ray passes the centre no farther
/// off than `reach`, and the lesser crossing can be the distance of a hit. The hit
/// is at the lesser crossing.
pub open spec fn sphere_distance(opposite_squared: u32, reach: u32, near: u32, far: u32) -> Option<
    u32,
> {
    if is_number(opposite_squared) && is_number(reach) && is_number(near) && is_number(far)
        && rank(opposite_squared) <= rank(reach) && hit_distance(lesser(near, far)) {
        Some(lesser(near, far))
    } else {
        None
    }
}

/// Whether a crossing of a ray with a triangle's plane lies on the triangle's
/// front and within its edges.
///
/// `determinant` tells the side from which the ray meets the plane, `u` and `v` are
/// the weights of the second and third vertex at the crossing point, and `sum` is
/// the sum of `u` and `v`.
///
/// All four must be numbers. The determinant must be at least the margin: a ray
/// that meets the triangle from behind or runs along its plane is outside. Neither
/// weight may lie below the negated margin, and neither `u` nor the sum may lie
/// above one widened by the margin.
pub open spec fn inside_triangle(determinant: u32, u: u32, v: u32, sum: u32) -> bool {
    &&& is_number(determinant) && rank(determinant) >= EPSILON
    &&& is_number(u) && rank(NEGATIVE_EPSILON) <= rank(u) <= rank(ONE_PLUS_EPSILON)
    &&& is_number(v) && rank(NEGATIVE_EPSILON) <= rank(v)
    &&& is_number(sum) && rank(sum) <= rank(ONE_PLUS_EPSILON)
}

/// The distance at which a ray hits a triangle, if it does: `distance`, where the
/// crossing lies inside the triangle and `distance` can be the distance of a hit.
pub open spec fn triangle_distance(
    determinant: u32,
    u: u32,
    v: u32,
    sum: u32,
    distance: u32,
) -> Option<u32> {
    if inside_triangle(determinant, u, v, sum) && hit_distance(distance) {
        Some(distance)
    } else {
        None
    }
}

/// Decides whether a number can be the distance of a hit.
pub fn is_hit_distance(bits: u32) -> (fit: bool)
    ensures
        fit == hit_distance(bits),
{
    !less_than(bits, MIN_DISTANCE) && less_than(bits, INFINITY)
}

/// Decides whether a ray hits a sphere, and at which distance.
///
/// The ray misses where one of the four numbers is none, where it passes the
/// centre farther off than `reach`, where both crossings carry a negative sign, so
/// that the sphere lies behind the ray's start, and where the lesser crossing lies
/// nearer than `MIN_DISTANCE`, which is the case of a ray that starts inside the
/// sphere or on it, or is infinite. Otherwise the hit is at the lesser crossing.
///
/// So the distance of a hit is always a finite number, at least `MIN_DISTANCE`.
/// And where the ray passes within reach and the crossings are numbers in their
/// order, the near one fit to be the distance of a hit, the hit is at the near
/// crossing.
pub fn sphere_hit(opposite_squared: u32, reach: u32, near: u32, far: u32) -> (hit: Option<u32>)
    ensures
        hit == sphere_distance(opposite_squared, reach, near, far),
        hit matches Some(d) ==> (d == near || d == far) && hit_distance(d),
        near >= SIGN_BIT && far >= SIGN_BIT ==> hit is None,
        is_number(opposite_squared) && is_number(reach) && rank(opposite_squared) <= rank(reach)
            && hit_distance(near) && is_number(far) && rank(near) <= rank(far) ==> hit == Some(
            near,
        ),
{
    if is_nan(opposite_squared) || is_nan(reach) || is_nan(near) || is_nan(far) {
        return None;
    }
    if less_than(reach, opposite_squared) {
        return None;
    }
    if is_sign_negative(near) && is_sign_negative(far) {
        return None;
    }
    let distance: u32 = if less_than(near, far) {
        near
    } else {
        far
    };
    if !is_hit_distance(distance) {
        return None;
    }
    Some(distance)
}

/// Decides whether a ray hits a triangle, and hands back the distance if it does.
///
/// A triangle has one side: a ray that meets it from behind misses, and so does
/// one that runs along the plane; the determinant of a hit is at least the margin.
/// The crossing point must lie within the edges, up to the margin: neither weight
/// below the negated margin, and neither `u` nor the sum of both above one widened
/// by the margin. The distance must be finite and at least `MIN_DISTANCE`, the same
/// floor as for a sphere, so a triangle behind the ray's start is missed. Where any
/// of the five is no number there is no hit.
pub fn triangle_hit(determinant: u32, u: u32, v: u32, sum: u32, distance: u32) -> (hit: Option<
    u32,
>)
    ensures
        hit == triangle_distance(determinant, u, v, sum, distance),
        hit matches Some(d) ==> d == distance && hit_distance(d),
        hit is Some ==> is_number(determinant) && rank(determinant) >= EPSILON,
        hit is Some ==> is_number(u) && rank(NEGATIVE_EPSILON) <= rank(u) <= rank(
            ONE_PLUS_EPSILON,
        ),
        hit is Some ==> is_number(v) && rank(NEGATIVE_EPSILON) <= rank(v),
        hit is Some ==> is_number(sum) && rank(sum) <= rank(ONE_PLUS_EPSILON),
{
    if is_nan(determinant) || is_nan(u) || is_nan(v) || is_nan(sum) {
        return None;
    }
    if less_than(determinant, EPSILON) {
        return None;
    }
    if is_negative(u) || less_than(ONE_PLUS_EPSILON, u) {
        return None;
    }
    if is_negative(v) || less_than(ONE_PLUS_EPSILON, sum) {
        return None;
    }
    if !is_hit_distance(distance) {
        return None;
    }
    Some(distance)
}

} // verus!

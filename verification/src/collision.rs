//! Axis-aligned bounding-box overlap.
//!
//! A bounding box is never stored: it is derived on demand from an
//! entity's declared sprite size, its current scale and its position,
//! since scale and position can change every frame.  Overlap is strict:
//! boxes that touch exactly at an edge do not collide.

use vstd::prelude::*;

use crate::world::Entity;

verus! {

/// Half-extent of a scaled sprite along one axis: size (micro-units)
/// times scale (milli), halved.  The divisor folds the milli scale and
/// the halving together.
pub open spec fn half_extent(size: i64, scale: i64) -> int {
    size * scale / 2000
}

/// Strict axis-aligned overlap of the boxes of `a` and `b`: on both axes
/// the distance of the centres is less than the sum of the half-extents.
pub open spec fn overlaps(a: Entity, b: Entity) -> bool {
    let dx = a.transform.translation.x - b.transform.translation.x;
    let dy = a.transform.translation.y - b.transform.translation.y;
    let ax = half_extent(a.sprite_size.x, a.transform.scale.x);
    let ay = half_extent(a.sprite_size.y, a.transform.scale.y);
    let bx = half_extent(b.sprite_size.x, b.transform.scale.x);
    let by = half_extent(b.sprite_size.y, b.transform.scale.y);
    &&& vstd::math::abs(dx) < ax + bx
    &&& vstd::math::abs(dy) < ay + by
}

/// One axis of the overlap test: centre distance against summed
/// half-extents, widened so that no intermediate value overflows.
fn axis_overlap(pa: i64, sa: i64, ca: i64, pb: i64, sb: i64, cb: i64) -> (r: bool)
    requires
        1 <= sa <= crate::world::SIZE_MAX,
        1 <= sb <= crate::world::SIZE_MAX,
        1 <= ca <= crate::world::SCALE_MAX,
        1 <= cb <= crate::world::SCALE_MAX,
    ensures
        r == (vstd::math::abs(pa - pb) < half_extent(sa, ca) + half_extent(sb, cb)),
{
    let d: i128 = pa as i128 - pb as i128;
    let ad: u128 = if d < 0 {
        (-d) as u128
    } else {
        d as u128
    };
    proof {
        assert(sa * ca <= crate::world::SIZE_MAX * crate::world::SCALE_MAX) by (nonlinear_arith)
            requires
                1 <= sa <= crate::world::SIZE_MAX,
                1 <= ca <= crate::world::SCALE_MAX,
        ;
        assert(sb * cb <= crate::world::SIZE_MAX * crate::world::SCALE_MAX) by (nonlinear_arith)
            requires
                1 <= sb <= crate::world::SIZE_MAX,
                1 <= cb <= crate::world::SCALE_MAX,
        ;
        assert(sa * ca >= 1) by (nonlinear_arith)
            requires
                sa >= 1,
                ca >= 1,
        ;
        assert(sb * cb >= 1) by (nonlinear_arith)
            requires
                sb >= 1,
                cb >= 1,
        ;
    }
    let ha: u128 = (sa as u128) * (ca as u128) / 2000;
    let hb: u128 = (sb as u128) * (cb as u128) / 2000;
    ad < ha + hb
}

/// Whether the boxes of `a` and `b` strictly overlap.
pub fn aabb_overlap(a: &Entity, b: &Entity) -> (r: bool)
    requires
        a.wf(),
        b.wf(),
    ensures
        r == overlaps(*a, *b),
{
    let on_x = axis_overlap(
        a.transform.translation.x,
        a.sprite_size.x,
        a.transform.scale.x,
        b.transform.translation.x,
        b.sprite_size.x,
        b.transform.scale.x,
    );
    let on_y = axis_overlap(
        a.transform.translation.y,
        a.sprite_size.y,
        a.transform.scale.y,
        b.transform.translation.y,
        b.sprite_size.y,
        b.transform.scale.y,
    );
    on_x && on_y
}

} // verus!

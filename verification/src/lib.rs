//! A library for storing viewport information.
//!
//! A [`Viewport`] records a viewport rectangle in pixels together with the
//! physical frame-buffer size and the logical window size, and derives from
//! them the row-major 2x3 affine transform that carries points of the
//! viewport into a normalized coordinate system whose origin is at the
//! center, with the upper left corner of the viewport at `(-1, 1)` and the
//! lower right corner at `(1, -1)`.
//!
//! The transform entries are exact rationals (see [`frac`]): the x scale is
//! `2 * (dw / ww) / rw` and the y scale is `-2 * (dh / wh) / rh`, where
//! `dw, dh` is the frame-buffer size, `ww, wh` the window size, and `rw, rh`
//! the width and height of the viewport rectangle. Degenerate geometry (a
//! zero width or height anywhere) yields entries with a zero denominator
//! rather than an error, mirroring the silent non-finite values that a
//! floating-point pipeline would produce.

pub mod frac;

use vstd::prelude::*;

verus! {

use crate::frac::{Frac, Rat, rat_int, rat_is_finite, rat_eqv, rat_mul, rat_add, rat_recip};

/// Stores viewport information.
#[derive(Copy, Clone)]
pub struct Viewport {
    /// Viewport in pixels.
    /// `[x, y, width, height]` where `(x, y)` is lower left corner.
    pub rect: [i32; 4],
    /// The size of frame buffer in pixels.
    pub draw_size: [u32; 2],
    /// The size of window in points.
    pub window_size: [u32; 2],
}

impl Viewport {
    /// The x scale of the transform, `2 * (dw / ww) / rw`, as an exact
    /// rational.
    pub open spec fn sx_rat(self) -> Rat {
        Rat {
            num: 2 * self.draw_size[0],
            den: self.window_size[0] * self.rect[2],
        }
    }

    /// The y scale of the transform, `-2 * (dh / wh) / rh`, as an exact
    /// rational.
    pub open spec fn sy_rat(self) -> Rat {
        Rat {
            num: -2 * self.draw_size[1],
            den: self.window_size[1] * self.rect[3],
        }
    }

    /// Where the transform sends an x coordinate `px` (in points):
    /// `sx * px - 1`.
    pub open spec fn map_x(self, px: Rat) -> Rat {
        rat_add(rat_mul(self.sx_rat(), px), rat_int(-1))
    }

    /// Where the transform sends a y coordinate `py` (in points):
    /// `sy * py + 1`.
    pub open spec fn map_y(self, py: Rat) -> Rat {
        rat_add(rat_mul(self.sy_rat(), py), rat_int(1))
    }

    /// Computes absolute transform for 2D graphics, which uses a row major
    /// 2x3 matrix of exact rational entries.
    ///
    /// The origin is in the upper left corner of the viewport rectangle.
    /// The x axis points to the right, and the y axis points down.
    /// The units are in points (window coordinates).
    ///
    /// It is assumed that the underlying coordinate system is normalized
    /// with the origin in the center, such that `(-1.0, 1.0)` in the
    /// underlying coordinate system corresponds to the upper left corner of
    /// the viewport.
    pub fn abs_transform(&self) -> (m: [[Frac; 3]; 2])
        ensures
            m[0][0]@ == self.sx_rat(),
            m[0][1]@ == rat_int(0),
            m[0][2]@ == rat_int(-1),
            m[1][0]@ == rat_int(0),
            m[1][1]@ == self.sy_rat(),
            m[1][2]@ == rat_int(1),
    {
        let dw = self.draw_size[0] as i64;
        let dh = self.draw_size[1] as i64;
        let ww = self.window_size[0] as i64;
        let wh = self.window_size[1] as i64;
        let rw = self.rect[2] as i64;
        let rh = self.rect[3] as i64;
        proof {
            assert(i64::MIN <= ww * rw <= i64::MAX && i64::MIN <= wh * rh <= i64::MAX)
                by (nonlinear_arith)
                requires
                    0 <= ww <= 0xffff_ffff,
                    0 <= wh <= 0xffff_ffff,
                    -0x8000_0000 <= rw <= 0x7fff_ffff,
                    -0x8000_0000 <= rh <= 0x7fff_ffff,
            ;
        }
        let sx = Frac { num: 2 * dw, den: ww * rw };
        let sy = Frac { num: -(2 * dh), den: wh * rh };
        [
            [sx, Frac { num: 0, den: 1 }, Frac { num: -1, den: 1 }],
            [Frac { num: 0, den: 1 }, sy, Frac { num: 1, den: 1 }],
        ]
    }

    /// An aligned viewport: rectangle at the origin, rectangle size equal to
    /// both the frame-buffer size and the window size (no DPI mismatch).
    pub open spec fn is_aligned(self) -> bool {
        &&& self.rect[0] == 0
        &&& self.rect[1] == 0
        &&& self.rect[2] == self.draw_size[0]
        &&& self.rect[3] == self.draw_size[1]
        &&& self.draw_size[0] == self.window_size[0]
        &&& self.draw_size[1] == self.window_size[1]
    }
}

/// Whether a matrix has the shape that `abs_transform` produces:
/// `[s, 0, -1; 0, t, 1]` for some scales `s` and `t`.
pub open spec fn is_abs_shape(m: [[Frac; 3]; 2]) -> bool {
    &&& m[0][1]@ == rat_int(0)
    &&& m[0][2]@ == rat_int(-1)
    &&& m[1][0]@ == rat_int(0)
    &&& m[1][2]@ == rat_int(1)
}

/// Applies a transform of the shape `abs_transform` produces to a point
/// `(px, py)` in points, returning exactly the normalized coordinates
/// `(s * px - 1, t * py + 1)` it sends the point to.
pub fn apply(m: &[[Frac; 3]; 2], px: Frac, py: Frac) -> (r: (Frac, Frac))
    requires
        is_abs_shape(*m),
        i64::MIN <= m[0][0]@.num * px@.num <= i64::MAX,
        i64::MIN <= m[0][0]@.den * px@.den <= i64::MAX,
        i64::MIN <= m[0][0]@.num * px@.num - m[0][0]@.den * px@.den <= i64::MAX,
        i64::MIN <= m[1][1]@.num * py@.num <= i64::MAX,
        i64::MIN <= m[1][1]@.den * py@.den <= i64::MAX,
        i64::MIN <= m[1][1]@.num * py@.num + m[1][1]@.den * py@.den <= i64::MAX,
    ensures
        r.0@ == rat_add(rat_mul(m[0][0]@, px@), rat_int(-1)),
        r.1@ == rat_add(rat_mul(m[1][1]@, py@), rat_int(1)),
{
    let s = m[0][0];
    let t = m[1][1];
    let x = Frac { num: s.num * px.num - s.den * px.den, den: s.den * px.den };
    let y = Frac { num: t.num * py.num + t.den * py.den, den: t.den * py.den };
    proof {
        assert(x@ == rat_add(rat_mul(s@, px@), rat_int(-1))
            && y@ == rat_add(rat_mul(t@, py@), rat_int(1)))
            by (nonlinear_arith)
            requires
                x@.num == s@.num * px@.num - s@.den * px@.den,
                x@.den == s@.den * px@.den,
                y@.num == t@.num * py@.num + t@.den * py@.den,
                y@.den == t@.den * py@.den,
        ;
    }
    (x, y)
}

/// Inverts [`apply`]: carries a normalized coordinate pair `(x, y)` back to
/// the point that was mapped there, exactly `((x + 1) / s, (y - 1) / t)`.
/// When a scale is zero the result is non-finite (zero denominator).
pub fn invert(m: &[[Frac; 3]; 2], x: Frac, y: Frac) -> (r: (Frac, Frac))
    requires
        is_abs_shape(*m),
        i64::MIN <= x@.num + x@.den <= i64::MAX,
        i64::MIN <= (x@.num + x@.den) * m[0][0]@.den <= i64::MAX,
        i64::MIN <= x@.den * m[0][0]@.num <= i64::MAX,
        i64::MIN <= y@.num - y@.den <= i64::MAX,
        i64::MIN <= (y@.num - y@.den) * m[1][1]@.den <= i64::MAX,
        i64::MIN <= y@.den * m[1][1]@.num <= i64::MAX,
    ensures
        r.0@ == rat_mul(rat_add(x@, rat_int(1)), rat_recip(m[0][0]@)),
        r.1@ == rat_mul(rat_add(y@, rat_int(-1)), rat_recip(m[1][1]@)),
{
    let s = m[0][0];
    let t = m[1][1];
    let px = Frac { num: (x.num + x.den) * s.den, den: x.den * s.num };
    let py = Frac { num: (y.num - y.den) * t.den, den: y.den * t.num };
    proof {
        assert(px@ == rat_mul(rat_add(x@, rat_int(1)), rat_recip(s@))
            && py@ == rat_mul(rat_add(y@, rat_int(-1)), rat_recip(t@)))
            by (nonlinear_arith)
            requires
                px@.num == (x@.num + x@.den) * s@.den,
                px@.den == x@.den * s@.num,
                py@.num == (y@.num - y@.den) * t@.den,
                py@.den == y@.den * t@.num,
        ;
    }
    (px, py)
}

/// For an aligned viewport with positive size, the transform sends the
/// center of the rectangle, `(w/2, h/2)`, to the origin `(0, 0)`.
pub proof fn lemma_center_maps_to_origin(v: Viewport) by (nonlinear_arith)
    requires
        v.is_aligned(),
        v.rect[2] > 0,
        v.rect[3] > 0,
    ensures
        rat_eqv(v.map_x(Rat { num: v.rect[2] as int, den: 2 }), rat_int(0)),
        rat_eqv(v.map_y(Rat { num: v.rect[3] as int, den: 2 }), rat_int(0)),
        rat_is_finite(v.map_x(Rat { num: v.rect[2] as int, den: 2 })),
        rat_is_finite(v.map_y(Rat { num: v.rect[3] as int, den: 2 })),
{
}

/// For an aligned viewport with positive size, the transform sends the
/// upper left corner `(0, 0)` to `(-1, 1)` and the lower right corner
/// `(w, h)` to `(1, -1)`.
pub proof fn lemma_corner_mapping(v: Viewport) by (nonlinear_arith)
    requires
        v.is_aligned(),
        v.rect[2] > 0,
        v.rect[3] > 0,
    ensures
        rat_eqv(v.map_x(rat_int(0)), rat_int(-1)),
        rat_eqv(v.map_y(rat_int(0)), rat_int(1)),
        rat_eqv(v.map_x(rat_int(v.rect[2] as int)), rat_int(1)),
        rat_eqv(v.map_y(rat_int(v.rect[3] as int)), rat_int(-1)),
{
}

/// Scaling the frame-buffer size by a factor `k` while holding the window
/// size and the rectangle fixed scales both scale entries by `k`: the
/// transform is linear in the device-pixel ratio.
pub proof fn lemma_draw_size_scaling(v1: Viewport, v2: Viewport, k: int) by (nonlinear_arith)
    requires
        v2.draw_size[0] == k * v1.draw_size[0],
        v2.draw_size[1] == k * v1.draw_size[1],
        v2.window_size[0] == v1.window_size[0],
        v2.window_size[1] == v1.window_size[1],
        v2.rect[2] == v1.rect[2],
        v2.rect[3] == v1.rect[3],
    ensures
        rat_eqv(v2.sx_rat(), rat_mul(rat_int(k), v1.sx_rat())),
        rat_eqv(v2.sy_rat(), rat_mul(rat_int(k), v1.sy_rat())),
{
}

/// Scaling the rectangle's width and height by a factor `k` while holding
/// the other fields fixed scales the scale entries by `1/k`.
pub proof fn lemma_rect_scaling(v1: Viewport, v2: Viewport, k: int) by (nonlinear_arith)
    requires
        v2.rect[2] == k * v1.rect[2],
        v2.rect[3] == k * v1.rect[3],
        v2.draw_size[0] == v1.draw_size[0],
        v2.draw_size[1] == v1.draw_size[1],
        v2.window_size[0] == v1.window_size[0],
        v2.window_size[1] == v1.window_size[1],
    ensures
        rat_eqv(v2.sx_rat(), rat_mul(v1.sx_rat(), rat_recip(rat_int(k)))),
        rat_eqv(v2.sy_rat(), rat_mul(v1.sy_rat(), rat_recip(rat_int(k)))),
{
}

/// For positive dimensions everywhere, the x scale is non-negative and the
/// y scale is non-positive: the x axis is not flipped, the y axis is.
pub proof fn lemma_scale_signs(v: Viewport) by (nonlinear_arith)
    requires
        v.rect[2] > 0,
        v.rect[3] > 0,
        v.draw_size[0] > 0,
        v.draw_size[1] > 0,
        v.window_size[0] > 0,
        v.window_size[1] > 0,
    ensures
        v.sx_rat().num >= 0,
        v.sx_rat().den > 0,
        v.sy_rat().num <= 0,
        v.sy_rat().den > 0,
{
}

/// Round trip: applying the inverse affine map, `(x + 1) / sx` for the
/// first coordinate and `(y - 1) / sy` for the second, to the transform's
/// own output recovers the original point exactly, whenever the scales are
/// finite and non-zero and the point is finite.
pub proof fn lemma_round_trip(v: Viewport, p: Rat, q: Rat) by (nonlinear_arith)
    requires
        rat_is_finite(p),
        rat_is_finite(q),
        v.draw_size[0] != 0,
        v.draw_size[1] != 0,
        v.window_size[0] != 0,
        v.window_size[1] != 0,
        v.rect[2] != 0,
        v.rect[3] != 0,
    ensures
        rat_eqv(rat_mul(rat_add(v.map_x(p), rat_int(1)), rat_recip(v.sx_rat())), p),
        rat_eqv(rat_mul(rat_add(v.map_y(q), rat_int(-1)), rat_recip(v.sy_rat())), q),
        rat_is_finite(rat_mul(rat_add(v.map_x(p), rat_int(1)), rat_recip(v.sx_rat()))),
        rat_is_finite(rat_mul(rat_add(v.map_y(q), rat_int(-1)), rat_recip(v.sy_rat()))),
{
}

} // verus!

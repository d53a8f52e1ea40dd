//! Integer rectangles and their pure value transformations.

use vstd::prelude::*;
use crate::ratio::{round_ratio, round_ratio_exec, lemma_round_ratio_err, Ratio};

verus! {

/// Mathematical model of a rectangle: four unbounded edge coordinates.
pub ghost struct RectModel {
    pub left: int,
    pub top: int,
    pub right: int,
    pub bottom: int,
}

impl RectModel {
    pub open spec fn width(self) -> int {
        self.right - self.left
    }

    pub open spec fn height(self) -> int {
        self.bottom - self.top
    }

    /// All four edges shifted by the same deltas.
    pub open spec fn translated(self, dx: int, dy: int) -> RectModel {
        RectModel {
            left: self.left + dx,
            top: self.top + dy,
            right: self.right + dx,
            bottom: self.bottom + dy,
        }
    }

    /// Each edge moved independently: a positive offset shrinks the
    /// rectangle at that edge, a negative offset enlarges it.
    pub open spec fn extended(self, left_offset: int, top_offset: int, right_offset: int, bottom_offset: int) -> RectModel {
        RectModel {
            left: self.left + left_offset,
            top: self.top + top_offset,
            right: self.right - right_offset,
            bottom: self.bottom - bottom_offset,
        }
    }

    /// Width and height rescaled by the exact factors `hn / hd` and
    /// `vn / vd`, each rounded to the nearest integer (ties away from
    /// zero). The left and top edges stay fixed as the anchor; only the
    /// right and bottom edges move.
    pub open spec fn scaled(self, hn: int, hd: int, vn: int, vd: int) -> RectModel
        recommends
            hd >= 1,
            vd >= 1,
    {
        RectModel {
            left: self.left,
            top: self.top,
            right: self.right + round_ratio(self.width() * (hn - hd), hd),
            bottom: self.bottom + round_ratio(self.height() * (vn - vd), vd),
        }
    }

    /// Every edge coordinate fits in a signed 32-bit machine word.
    pub open spec fn in_bounds(self) -> bool {
        &&& i32::MIN <= self.left <= i32::MAX
        &&& i32::MIN <= self.top <= i32::MAX
        &&& i32::MIN <= self.right <= i32::MAX
        &&& i32::MIN <= self.bottom <= i32::MAX
    }
}

/// A rectangle `{left, top, right, bottom}` in some integer coordinate
/// space (logical-window, device-pixel, or screen). Width and height are
/// derived; degenerate zero-size rectangles are tolerated everywhere.
#[derive(Debug, Clone, Copy, PartialEq, Eq, Structural)]
pub struct Rect {
    pub left: i32,
    pub top: i32,
    pub right: i32,
    pub bottom: i32,
}

impl View for Rect {
    type V = RectModel;

    open spec fn view(&self) -> RectModel {
        RectModel {
            left: self.left as int,
            top: self.top as int,
            right: self.right as int,
            bottom: self.bottom as int,
        }
    }
}

impl Rect {
    pub fn new(left: i32, top: i32, right: i32, bottom: i32) -> (r: Rect)
        ensures
            r@ == (RectModel { left: left as int, top: top as int, right: right as int, bottom: bottom as int }),
    {
        Rect { left, top, right, bottom }
    }

    pub fn width(&self) -> (w: i32)
        requires
            i32::MIN <= self@.width() <= i32::MAX,
        ensures
            w == self@.width(),
    {
        self.right - self.left
    }

    pub fn height(&self) -> (h: i32)
        requires
            i32::MIN <= self@.height() <= i32::MAX,
        ensures
            h == self@.height(),
    {
        self.bottom - self.top
    }

    /// Shift all four edges by `(dx, dy)`.
    pub fn translate(&mut self, dx: i32, dy: i32)
        requires
            old(self)@.translated(dx as int, dy as int).in_bounds(),
        ensures
            final(self)@ == old(self)@.translated(dx as int, dy as int),
    {
        self.left = self.left + dx;
        self.top = self.top + dy;
        self.right = self.right + dx;
        self.bottom = self.bottom + dy;
    }

    /// Move each edge independently by its own offset; a negative offset
    /// enlarges the rectangle at that edge, a positive one shrinks it.
    pub fn extend(&mut self, left_offset: i32, top_offset: i32, right_offset: i32, bottom_offset: i32)
        requires
            old(self)@.extended(left_offset as int, top_offset as int, right_offset as int, bottom_offset as int).in_bounds(),
        ensures
            final(self)@ == old(self)@.extended(left_offset as int, top_offset as int, right_offset as int, bottom_offset as int),
    {
        self.left = self.left + left_offset;
        self.top = self.top + top_offset;
        self.right = self.right - right_offset;
        self.bottom = self.bottom - bottom_offset;
    }

    /// Grow the width and height from the right/bottom edges by the exact
    /// rational factors `horizontal` and `vertical`, rounding each grown
    /// dimension to the nearest integer. Left and top stay fixed.
    pub fn scale(&mut self, horizontal: Ratio, vertical: Ratio)
        requires
            horizontal.wf(),
            vertical.wf(),
            old(self)@.scaled(horizontal.num as int, horizontal.den as int, vertical.num as int, vertical.den as int).in_bounds(),
        ensures
            final(self)@ == old(self)@.scaled(horizontal.num as int, horizontal.den as int, vertical.num as int, vertical.den as int),
    {
        let w: i128 = self.right as i128 - self.left as i128;
        let h: i128 = self.bottom as i128 - self.top as i128;
        let hdiff: i128 = horizontal.num as i128 - horizontal.den as i128;
        let vdiff: i128 = vertical.num as i128 - vertical.den as i128;
        proof {
            assert(-0x1_0000_0000_0000_0000 <= w * hdiff <= 0x1_0000_0000_0000_0000) by (nonlinear_arith)
                requires
                    -0x1_0000_0000 <= w <= 0x1_0000_0000,
                    -0x1_0000_0000 <= hdiff <= 0x1_0000_0000,
            ;
            assert(-0x1_0000_0000_0000_0000 <= h * vdiff <= 0x1_0000_0000_0000_0000) by (nonlinear_arith)
                requires
                    -0x1_0000_0000 <= h <= 0x1_0000_0000,
                    -0x1_0000_0000 <= vdiff <= 0x1_0000_0000,
            ;
        }
        let dr: i128 = round_ratio_exec(w * hdiff, horizontal.den as i128);
        let db: i128 = round_ratio_exec(h * vdiff, vertical.den as i128);
        self.right = (self.right as i128 + dr) as i32;
        self.bottom = (self.bottom as i128 + db) as i32;
    }
}

/// One axis of the scale round-trip: a dimension `w` scaled by the factor
/// `n / d >= 1` and then by the inverse factor `d / n` lands within one
/// unit of `w`. (Integer rounding makes the round-trip inexact; with a
/// factor below one the error can exceed one unit, so that case is left
/// out.)
pub proof fn lemma_scale_axis_round_trip(w: int, n: int, d: int)
    requires
        1 <= d <= n,
    ensures
        ({
            let w1 = w + round_ratio(w * (n - d), d);
            let w2 = w1 + round_ratio(w1 * (d - n), n);
            -1 <= w2 - w <= 1
        }),
{
    let rr1 = round_ratio(w * (n - d), d);
    let w1 = w + rr1;
    lemma_round_ratio_err(w * (n - d), d);
    assert(2 * (w1 * d - w * n) == 2 * (rr1 * d - w * (n - d))) by (nonlinear_arith)
        requires
            w1 == w + rr1,
    ;
    let rr2 = round_ratio(w1 * (d - n), n);
    let w2 = w1 + rr2;
    lemma_round_ratio_err(w1 * (d - n), n);
    assert(2 * (w2 * n - w1 * d) == 2 * (rr2 * n - w1 * (d - n))) by (nonlinear_arith)
        requires
            w2 == w1 + rr2,
    ;
    assert(2 * ((w2 - w) * n) == 2 * (w2 * n - w1 * d) + 2 * (w1 * d - w * n)) by (nonlinear_arith);
    assert(-2 * n <= 2 * ((w2 - w) * n) <= 2 * n);
    assert(-1 <= w2 - w <= 1) by (nonlinear_arith)
        requires
            -2 * n <= 2 * ((w2 - w) * n) <= 2 * n,
            n >= 1,
    ;
}

/// Scaling by factors `hn/hd, vn/vd` (each at least one) and then by the
/// inverse factors does not in general restore the rectangle exactly —
/// integer rounding is lossy — but it lands within one pixel: the left
/// and top edges are exact and the right and bottom edges are off by at
/// most one.
pub proof fn lemma_scale_inverse_round_trip(r: RectModel, hn: int, hd: int, vn: int, vd: int)
    requires
        1 <= hd <= hn,
        1 <= vd <= vn,
    ensures
        ({
            let back = r.scaled(hn, hd, vn, vd).scaled(hd, hn, vd, vn);
            &&& back.left == r.left
            &&& back.top == r.top
            &&& -1 <= back.right - r.right <= 1
            &&& -1 <= back.bottom - r.bottom <= 1
        }),
{
    lemma_scale_axis_round_trip(r.width(), hn, hd);
    lemma_scale_axis_round_trip(r.height(), vn, vd);
    let s = r.scaled(hn, hd, vn, vd);
    assert(s.width() == r.width() + round_ratio(r.width() * (hn - hd), hd));
    assert(s.height() == r.height() + round_ratio(r.height() * (vn - vd), vd));
}

/// Translating by `(dx, dy)` and back by `(-dx, -dy)` is an exact
/// round-trip for every rectangle and all integer deltas.
pub proof fn lemma_translate_round_trip(r: RectModel, dx: int, dy: int)
    ensures
        r.translated(dx, dy).translated(-dx, -dy) == r,
{
}

} // verus!

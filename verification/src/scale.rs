//! Scale correction: rescale logical rectangles to framebuffer pixel
//! resolution, keeping a nested rectangle's relative offset consistent.

use vstd::prelude::*;
use crate::ratio::{lemma_round_ratio_exact, trunc_ratio, trunc_ratio_exec, Ratio};
use crate::rect::{Rect, RectModel};

verus! {

/// The corrective translation for a rectangle nested at `offset` inside
/// an outer rectangle rescaled by `num / den`: because scaling anchors on
/// the top-left corner, the nested rectangle must additionally move by
/// `offset * (num/den - 1)`, truncated toward zero.
pub open spec fn nested_offset_shift(offset: int, num: int, den: int) -> int
    recommends
        den >= 1,
{
    trunc_ratio(offset * (num - den), den)
}

/// Both rectangles after scale correction with factors
/// `bitmap_width / original.width()` and `bitmap_height / original.height()`:
/// each rectangle rescaled, and the cropped one translated so that its
/// offset inside the original stays numerically consistent.
pub open spec fn scale_corrected(original: RectModel, cropped: RectModel, bitmap_width: int, bitmap_height: int) -> (RectModel, RectModel)
    recommends
        original.width() >= 1,
        original.height() >= 1,
{
    let hd = original.width();
    let vd = original.height();
    let scaled_original = original.scaled(bitmap_width, hd, bitmap_height, vd);
    let scaled_cropped = cropped.scaled(bitmap_width, hd, bitmap_height, vd);
    let dx = nested_offset_shift(cropped.left - original.left, bitmap_width, hd);
    let dy = nested_offset_shift(cropped.top - original.top, bitmap_height, vd);
    (scaled_original, scaled_cropped.translated(dx, dy))
}

/// Every intermediate and final coordinate of the correction stays
/// within the 32-bit range.
pub open spec fn scale_correction_fits(original: RectModel, cropped: RectModel, bitmap_width: int, bitmap_height: int) -> bool {
    let hd = original.width();
    let vd = original.height();
    let dx = nested_offset_shift(cropped.left - original.left, bitmap_width, hd);
    let dy = nested_offset_shift(cropped.top - original.top, bitmap_height, vd);
    &&& original.scaled(bitmap_width, hd, bitmap_height, vd).in_bounds()
    &&& cropped.scaled(bitmap_width, hd, bitmap_height, vd).in_bounds()
    &&& scale_corrected(original, cropped, bitmap_width, bitmap_height).1.in_bounds()
    &&& i32::MIN <= dx <= i32::MAX
    &&& i32::MIN <= dy <= i32::MAX
}

/// Scale correction sizes the outer rectangle exactly: rescaled by its
/// own framebuffer-over-logical factors, the original rectangle's width
/// and height become exactly the bitmap dimensions — rounding loses
/// nothing on the rectangle the factors were derived from.
pub proof fn lemma_scale_correction_is_exact_on_original(original: RectModel, cropped: RectModel, bitmap_width: int, bitmap_height: int)
    requires
        original.width() >= 1,
        original.height() >= 1,
    ensures
        scale_corrected(original, cropped, bitmap_width, bitmap_height).0.width() == bitmap_width,
        scale_corrected(original, cropped, bitmap_width, bitmap_height).0.height() == bitmap_height,
{
    let w = original.width();
    let h = original.height();
    assert(w * (bitmap_width - w) == (bitmap_width - w) * w) by (nonlinear_arith);
    assert(h * (bitmap_height - h) == (bitmap_height - h) * h) by (nonlinear_arith);
    lemma_round_ratio_exact(bitmap_width - w, w);
    lemma_round_ratio_exact(bitmap_height - h, h);
}

/// Rescale `original_rect` and `cropped_rect` from logical coordinates
/// to framebuffer pixel coordinates, given the framebuffer dimensions of
/// the window's current bitmap, and translate the cropped rectangle so
/// that its position within the original remains accurate after scaling.
pub fn correct_scale(original_rect: &mut Rect, cropped_rect: &mut Rect, bitmap_width: i32, bitmap_height: i32)
    requires
        1 <= old(original_rect)@.width() <= i32::MAX,
        1 <= old(original_rect)@.height() <= i32::MAX,
        scale_correction_fits(old(original_rect)@, old(cropped_rect)@, bitmap_width as int, bitmap_height as int),
    ensures
        final(original_rect)@ == scale_corrected(old(original_rect)@, old(cropped_rect)@, bitmap_width as int, bitmap_height as int).0,
        final(cropped_rect)@ == scale_corrected(old(original_rect)@, old(cropped_rect)@, bitmap_width as int, bitmap_height as int).1,
{
    let hd: i32 = original_rect.width();
    let vd: i32 = original_rect.height();
    let horizontal = Ratio::new(bitmap_width, hd);
    let vertical = Ratio::new(bitmap_height, vd);
    let ghost cropped0 = cropped_rect@;
    let offset_x: i128 = cropped_rect.left as i128 - original_rect.left as i128;
    let offset_y: i128 = cropped_rect.top as i128 - original_rect.top as i128;
    original_rect.scale(horizontal, vertical);
    cropped_rect.scale(horizontal, vertical);
    proof {
        assert(-0x1_0000_0000_0000_0000 <= offset_x * (bitmap_width - hd) <= 0x1_0000_0000_0000_0000)
            by (nonlinear_arith)
            requires
                -0x1_0000_0000 <= offset_x <= 0x1_0000_0000,
                -0x1_0000_0000 <= bitmap_width - hd <= 0x1_0000_0000,
        ;
        assert(-0x1_0000_0000_0000_0000 <= offset_y * (bitmap_height - vd) <= 0x1_0000_0000_0000_0000)
            by (nonlinear_arith)
            requires
                -0x1_0000_0000 <= offset_y <= 0x1_0000_0000,
                -0x1_0000_0000 <= bitmap_height - vd <= 0x1_0000_0000,
        ;
    }
    let translate_left: i128 = trunc_ratio_exec(
        offset_x * (bitmap_width as i128 - hd as i128),
        hd as i128,
    );
    let translate_top: i128 = trunc_ratio_exec(
        offset_y * (bitmap_height as i128 - vd as i128),
        vd as i128,
    );
    proof {
        assert(translate_left == nested_offset_shift(cropped0.left - old(original_rect)@.left, bitmap_width as int, hd as int));
        assert(translate_top == nested_offset_shift(cropped0.top - old(original_rect)@.top, bitmap_height as int, vd as int));
    }
    cropped_rect.translate(translate_left as i32, translate_top as i32);
}

} // verus!

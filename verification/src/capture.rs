//! The per-call capture pipeline: reconcile the window's rectangles,
//! plan the capture strategies, and compose the final image out of the
//! raw bitmap bytes.

use vstd::prelude::*;
use crate::border::{cropped_rect_fits, cropped_window_rect, get_cropped_window_rect, PlatformSnapshot};
use crate::error::{XCapError, XCapResult};
use crate::image_buf::{crop_spec, RgbaImage};
use crate::pixel::{normalize_pixels, normalized_seq};
use crate::ratio::{round_ratio_exec, trunc_ratio_exec, Ratio};
use crate::rect::{Rect, RectModel};
use crate::scale::{correct_scale, scale_corrected, scale_correction_fits};
use crate::strategy::{strategy_plan, strategy_plan_spec, CaptureStrategy};

verus! {

/// The framebuffer rescaling step runs only when the window's bitmap
/// dimensions could be obtained and the outer rectangle has positive,
/// machine-representable width and height; otherwise the factor is one
/// and the rectangles pass through unchanged.
pub open spec fn scale_step_applies(original: RectModel, bitmap_dimensions: Option<(i32, i32)>) -> bool {
    &&& bitmap_dimensions.is_some()
    &&& 1 <= original.width() <= i32::MAX
    &&& 1 <= original.height() <= i32::MAX
}

/// The `(original_rect, cropped_rect)` pair a capture call works with:
/// the outer rectangle and its border-compensated crop, both rescaled to
/// framebuffer resolution when the bitmap dimensions are known.
pub open spec fn context_rects(outer: RectModel, s: PlatformSnapshot, bitmap_dimensions: Option<(i32, i32)>, avoid_cropping_border: bool) -> (RectModel, RectModel) {
    let cropped = cropped_window_rect(outer, s, avoid_cropping_border);
    if scale_step_applies(outer, bitmap_dimensions) {
        scale_corrected(outer, cropped, bitmap_dimensions.unwrap().0 as int, bitmap_dimensions.unwrap().1 as int)
    } else {
        (outer, cropped)
    }
}

/// Every coordinate the reconciliation produces stays in 32-bit range.
pub open spec fn context_fits(outer: RectModel, s: PlatformSnapshot, bitmap_dimensions: Option<(i32, i32)>, avoid_cropping_border: bool) -> bool {
    &&& cropped_window_rect(outer, s, avoid_cropping_border).in_bounds()
    &&& scale_step_applies(outer, bitmap_dimensions) ==> scale_correction_fits(
        outer,
        cropped_window_rect(outer, s, avoid_cropping_border),
        bitmap_dimensions.unwrap().0 as int,
        bitmap_dimensions.unwrap().1 as int,
    )
}

/// The executable form of `context_fits`: whether a capture call's
/// whole rectangle reconciliation stays within the 32-bit range. An
/// unverified caller tests this before `WindowCaptureContext::new`,
/// whose precondition it decides exactly.
pub fn reconciliation_fits(window_rect: Rect, snapshot: &PlatformSnapshot, bitmap_dimensions: Option<(i32, i32)>, avoid_cropping_border: bool) -> (r: bool)
    ensures
        r == context_fits(window_rect@, *snapshot, bitmap_dimensions, avoid_cropping_border),
{
    if !cropped_rect_fits(window_rect, snapshot, avoid_cropping_border) {
        return false;
    }
    let (bitmap_width, bitmap_height) = match bitmap_dimensions {
        Some(d) => d,
        None => {
            return true;
        },
    };
    let ow: i64 = window_rect.right as i64 - window_rect.left as i64;
    let oh: i64 = window_rect.bottom as i64 - window_rect.top as i64;
    if !(1 <= ow && ow <= i32::MAX as i64 && 1 <= oh && oh <= i32::MAX as i64) {
        return true;
    }
    let (orig, cropped) = get_cropped_window_rect(window_rect, snapshot, avoid_cropping_border);
    let hd: i128 = ow as i128;
    let vd: i128 = oh as i128;
    let bw: i128 = bitmap_width as i128;
    let bh: i128 = bitmap_height as i128;
    let wc: i128 = cropped.right as i128 - cropped.left as i128;
    let hc: i128 = cropped.bottom as i128 - cropped.top as i128;
    let off_x: i128 = cropped.left as i128 - orig.left as i128;
    let off_y: i128 = cropped.top as i128 - orig.top as i128;
    proof {
        assert(-0x1_0000_0000_0000_0000 <= hd * (bw - hd) <= 0x1_0000_0000_0000_0000
            && -0x1_0000_0000_0000_0000 <= vd * (bh - vd) <= 0x1_0000_0000_0000_0000
            && -0x1_0000_0000_0000_0000 <= wc * (bw - hd) <= 0x1_0000_0000_0000_0000
            && -0x1_0000_0000_0000_0000 <= hc * (bh - vd) <= 0x1_0000_0000_0000_0000
            && -0x1_0000_0000_0000_0000 <= off_x * (bw - hd) <= 0x1_0000_0000_0000_0000
            && -0x1_0000_0000_0000_0000 <= off_y * (bh - vd) <= 0x1_0000_0000_0000_0000)
            by (nonlinear_arith)
            requires
                0 <= hd <= 0x1_0000_0000,
                0 <= vd <= 0x1_0000_0000,
                -0x1_0000_0000 <= bw - hd <= 0x1_0000_0000,
                -0x1_0000_0000 <= bh - vd <= 0x1_0000_0000,
                -0x1_0000_0000 <= wc <= 0x1_0000_0000,
                -0x1_0000_0000 <= hc <= 0x1_0000_0000,
                -0x1_0000_0000 <= off_x <= 0x1_0000_0000,
                -0x1_0000_0000 <= off_y <= 0x1_0000_0000,
        ;
    }
    let so_r: i128 = orig.right as i128 + round_ratio_exec(hd * (bw - hd), hd);
    let so_b: i128 = orig.bottom as i128 + round_ratio_exec(vd * (bh - vd), vd);
    let sc_r: i128 = cropped.right as i128 + round_ratio_exec(wc * (bw - hd), hd);
    let sc_b: i128 = cropped.bottom as i128 + round_ratio_exec(hc * (bh - vd), vd);
    let dx: i128 = trunc_ratio_exec(off_x * (bw - hd), hd);
    let dy: i128 = trunc_ratio_exec(off_y * (bh - vd), vd);
    let lo: i128 = i32::MIN as i128;
    let hi: i128 = i32::MAX as i128;
    lo <= so_r && so_r <= hi && lo <= so_b && so_b <= hi && lo <= sc_r && sc_r <= hi && lo <= sc_b
        && sc_b <= hi && lo <= dx && dx <= hi && lo <= dy && dy <= hi
        && lo <= cropped.left as i128 + dx && cropped.left as i128 + dx <= hi && lo <= sc_r + dx
        && sc_r + dx <= hi && lo <= cropped.top as i128 + dy && cropped.top as i128 + dy <= hi
        && lo <= sc_b + dy && sc_b + dy <= hi
}

/// Everything one capture call decides up front, bundled per invocation
/// and discarded afterwards: the reconciled rectangles, the framebuffer
/// dimensions and scale factors used, and the ordered strategy schedule.
pub struct WindowCaptureContext {
    /// The outer window rectangle, rescaled to framebuffer resolution.
    pub original_rect: Rect,
    /// The border-compensated capture target, rescaled and re-anchored.
    pub cropped_rect: Rect,
    /// The framebuffer dimensions of the window's current bitmap, if
    /// they could be obtained.
    pub bitmap_dimensions: Option<(i32, i32)>,
    /// Horizontal framebuffer-over-logical scale factor.
    pub scale_x: Ratio,
    /// Vertical framebuffer-over-logical scale factor.
    pub scale_y: Ratio,
    /// The capture strategies to attempt, in priority order.
    pub strategies: Vec<CaptureStrategy>,
}

impl WindowCaptureContext {
    /// Reconcile the window's coordinate spaces for one capture call:
    /// compensate the invisible resize borders, rescale to framebuffer
    /// pixels when the bitmap dimensions are known, and plan the
    /// strategies to attempt.
    pub fn new(window_rect: Rect, snapshot: &PlatformSnapshot, bitmap_dimensions: Option<(i32, i32)>, avoid_cropping_border: bool) -> (r: WindowCaptureContext)
        requires
            context_fits(window_rect@, *snapshot, bitmap_dimensions, avoid_cropping_border),
        ensures
            r.original_rect@ == context_rects(window_rect@, *snapshot, bitmap_dimensions, avoid_cropping_border).0,
            r.cropped_rect@ == context_rects(window_rect@, *snapshot, bitmap_dimensions, avoid_cropping_border).1,
            r.strategies@ == strategy_plan_spec(snapshot.os_major_version, snapshot.composition_enabled),
            r.bitmap_dimensions == bitmap_dimensions,
            r.scale_x.wf() && r.scale_y.wf(),
            scale_step_applies(window_rect@, bitmap_dimensions) ==> {
                &&& r.scale_x.num == bitmap_dimensions.unwrap().0
                &&& r.scale_x.den == window_rect@.width()
                &&& r.scale_y.num == bitmap_dimensions.unwrap().1
                &&& r.scale_y.den == window_rect@.height()
            },
            !scale_step_applies(window_rect@, bitmap_dimensions) ==> r.scale_x.num == 1
                && r.scale_x.den == 1 && r.scale_y.num == 1 && r.scale_y.den == 1,
    {
        let (mut original_rect, mut cropped_rect) = get_cropped_window_rect(
            window_rect,
            snapshot,
            avoid_cropping_border,
        );
        let mut scale_x = Ratio::one();
        let mut scale_y = Ratio::one();
        if let Some((bitmap_width, bitmap_height)) = bitmap_dimensions {
            let ow: i64 = original_rect.right as i64 - original_rect.left as i64;
            let oh: i64 = original_rect.bottom as i64 - original_rect.top as i64;
            if 1 <= ow && ow <= i32::MAX as i64 && 1 <= oh && oh <= i32::MAX as i64 {
                scale_x = Ratio::new(bitmap_width, ow as i32);
                scale_y = Ratio::new(bitmap_height, oh as i32);
                correct_scale(&mut original_rect, &mut cropped_rect, bitmap_width, bitmap_height);
            }
        }
        let strategies = strategy_plan(snapshot.os_major_version, snapshot.composition_enabled);
        WindowCaptureContext {
            original_rect,
            cropped_rect,
            bitmap_dimensions,
            scale_x,
            scale_y,
            strategies,
        }
    }
}

/// Turn the raw bytes read out of the scratch bitmap into a normalized
/// RGBA image of the given dimensions. Fails exactly when the byte count
/// is not `width * height * 4` (or a dimension is negative).
pub fn to_rgba_image(buffer: Vec<u8>, width: i32, height: i32, os_major_version: u8) -> (r: XCapResult<RgbaImage>)
    ensures
        r.is_ok() <==> 0 <= width && 0 <= height && buffer@.len() == width * height * 4,
        r.is_ok() ==> ({
            let img = r.unwrap();
            &&& img.wf()
            &&& img.width == width
            &&& img.height == height
            &&& img.data@ == normalized_seq(buffer@, os_major_version)
        }),
        r.is_err() ==> r == Err::<RgbaImage, XCapError>(XCapError::BufferShapeInvalid),
{
    if width < 0 || height < 0 {
        return Err(XCapError::BufferShapeInvalid);
    }
    let mut bytes = buffer;
    normalize_pixels(&mut bytes, os_major_version);
    match RgbaImage::from_raw(width as u32, height as u32, bytes) {
        Some(img) => {
            proof {
                vstd::arithmetic::div_mod::lemma_mod_multiples_basic(
                    width as int * (height as int),
                    4,
                );
            }
            Ok(img)
        },
        None => Err(XCapError::BufferShapeInvalid),
    }
}

/// When composition can succeed: the buffer holds exactly the pixels of
/// the scaled original rectangle, and the scaled crop rectangle lies
/// inside it.
pub open spec fn compose_ok(original: RectModel, cropped: RectModel, buffer_len: int) -> bool {
    &&& 0 <= original.width() <= i32::MAX
    &&& 0 <= original.height() <= i32::MAX
    &&& buffer_len == original.width() * original.height() * 4
    &&& 0 <= cropped.left - original.left
    &&& 0 <= cropped.top - original.top
    &&& 0 <= cropped.width()
    &&& 0 <= cropped.height()
    &&& cropped.left - original.left + cropped.width() <= original.width()
    &&& cropped.top - original.top + cropped.height() <= original.height()
}

/// The back half of a capture call: normalize the raw full-window bytes
/// and crop them down to the border-compensated target rectangle. A
/// mismatch between the buffer and the context's rectangles is a shape
/// error, never a silent clip.
pub fn compose_capture(context: &WindowCaptureContext, buffer: Vec<u8>, os_major_version: u8) -> (r: XCapResult<RgbaImage>)
    ensures
        r.is_ok() <==> compose_ok(context.original_rect@, context.cropped_rect@, buffer@.len() as int),
        r.is_ok() ==> ({
            let img = r.unwrap();
            &&& img.wf()
            &&& img.width == context.cropped_rect@.width()
            &&& img.height == context.cropped_rect@.height()
            &&& img.data@ == crop_spec(
                normalized_seq(buffer@, os_major_version),
                context.original_rect@.width(),
                context.cropped_rect@.left - context.original_rect@.left,
                context.cropped_rect@.top - context.original_rect@.top,
                context.cropped_rect@.width(),
                context.cropped_rect@.height(),
            )
        }),
        r.is_err() ==> r == Err::<RgbaImage, XCapError>(XCapError::BufferShapeInvalid),
{
    let orig = context.original_rect;
    let cropped = context.cropped_rect;
    let ow: i64 = orig.right as i64 - orig.left as i64;
    let oh: i64 = orig.bottom as i64 - orig.top as i64;
    if ow < 0 || ow > i32::MAX as i64 || oh < 0 || oh > i32::MAX as i64 {
        return Err(XCapError::BufferShapeInvalid);
    }
    let dx: i64 = cropped.left as i64 - orig.left as i64;
    let dy: i64 = cropped.top as i64 - orig.top as i64;
    let cw: i64 = cropped.right as i64 - cropped.left as i64;
    let ch: i64 = cropped.bottom as i64 - cropped.top as i64;
    if dx < 0 || dy < 0 || cw < 0 || ch < 0 {
        return Err(XCapError::BufferShapeInvalid);
    }
    let full = match to_rgba_image(buffer, ow as i32, oh as i32, os_major_version) {
        Ok(img) => img,
        Err(e) => {
            return Err(e);
        },
    };
    match full.crop(dx as u32, dy as u32, cw as u32, ch as u32) {
        Ok(img) => Ok(img),
        Err(e) => Err(e),
    }
}

} // verus!

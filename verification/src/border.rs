//! Border compensation: the on-screen rectangle that should actually be
//! captured, once the platform's invisible resize borders are removed.

use vstd::prelude::*;
use crate::rect::{Rect, RectModel};

verus! {

/// Style bit for a window with a thick, resizable frame.
pub const STYLE_THICK_FRAME: u32 = 0x0004_0000;

/// Style bit for a modal-dialog frame.
pub const STYLE_MODAL_FRAME: u32 = 0x80;

/// The platform metrics that size the resize frame and the visible
/// border, as the windowing system reports them.
#[derive(Debug, Clone, Copy, PartialEq, Eq, Structural)]
pub struct BorderMetrics {
    /// Horizontal thickness of the resize frame.
    pub resize_frame_width: i32,
    /// Vertical thickness of the resize frame.
    pub resize_frame_height: i32,
    /// Height of the visible window border.
    pub border_height: i32,
    /// Width of the visible window border.
    pub border_width: i32,
}

/// Platform facts resolved once per capture call and passed as plain data
/// into every component, so that no component queries the system itself.
#[derive(Debug, Clone, Copy, PartialEq, Eq, Structural)]
pub struct PlatformSnapshot {
    /// The operating system's major version as a single integer.
    pub os_major_version: u8,
    /// Whether the target window is currently maximized.
    pub is_maximized: bool,
    /// Whether desktop composition is currently enabled.
    pub composition_enabled: bool,
    /// The target window's raw style bits.
    pub window_style: u32,
    /// Resize-frame and border metrics.
    pub border_metrics: BorderMetrics,
}

/// Border compensation applies only on a platform that injects invisible
/// resize borders (major version at least 8, or a maximized window) and
/// only to windows whose style has a thick resizable frame or a
/// modal-dialog frame.
pub open spec fn compensation_applies(s: PlatformSnapshot) -> bool {
    &&& s.os_major_version >= 8 || s.is_maximized
    &&& s.window_style & STYLE_THICK_FRAME != 0 || s.window_style & STYLE_MODAL_FRAME != 0
}

/// The horizontal width and the top and bottom heights to crop away,
/// as `(width, top_height, bottom_height)`. When the visible border is
/// to be kept (`avoid_cropping_border`), the border metric is subtracted
/// from the horizontal width and the bottom height (never below zero),
/// and the top is never cropped at all.
pub open spec fn border_crop_amounts(m: BorderMetrics, avoid_cropping_border: bool) -> (int, int, int) {
    if avoid_cropping_border {
        let w = if m.resize_frame_width - m.border_width >= 0 { m.resize_frame_width - m.border_width } else { 0 };
        let b = if m.resize_frame_height - m.border_height >= 0 { m.resize_frame_height - m.border_height } else { 0 };
        (w, 0, b)
    } else {
        (m.resize_frame_width as int, m.border_height as int, m.resize_frame_height as int)
    }
}

/// The border-compensated capture rectangle: the original shrunk by the
/// crop amounts when compensation applies, and exactly the original
/// otherwise.
pub open spec fn cropped_window_rect(original: RectModel, s: PlatformSnapshot, avoid_cropping_border: bool) -> RectModel {
    if compensation_applies(s) {
        let (w, t, b) = border_crop_amounts(s.border_metrics, avoid_cropping_border);
        RectModel {
            left: original.left + w,
            top: original.top + t,
            right: original.right - w,
            bottom: original.bottom - b,
        }
    } else {
        original
    }
}

/// The edges of the border-compensated rectangle, computed in 64-bit
/// arithmetic so that no input can overflow.
fn cropped_rect_edges(window_rect: Rect, snapshot: &PlatformSnapshot, avoid_cropping_border: bool) -> (r: (i64, i64, i64, i64))
    ensures
        ({
            let c = cropped_window_rect(window_rect@, *snapshot, avoid_cropping_border);
            r.0 == c.left && r.1 == c.top && r.2 == c.right && r.3 == c.bottom
        }),
{
    let applies: bool = (snapshot.os_major_version >= 8 || snapshot.is_maximized)
        && (snapshot.window_style & STYLE_THICK_FRAME != 0
            || snapshot.window_style & STYLE_MODAL_FRAME != 0);
    if applies {
        let m = snapshot.border_metrics;
        let mut width: i64 = m.resize_frame_width as i64;
        let mut bottom_height: i64 = m.resize_frame_height as i64;
        let visible_border_height: i64 = m.border_height as i64;
        let mut top_height: i64 = visible_border_height;
        if avoid_cropping_border {
            width = width - m.border_width as i64;
            if width < 0 {
                width = 0;
            }
            bottom_height = bottom_height - visible_border_height;
            if bottom_height < 0 {
                bottom_height = 0;
            }
            top_height = 0;
        }
        (
            window_rect.left as i64 + width,
            window_rect.top as i64 + top_height,
            window_rect.right as i64 - width,
            window_rect.bottom as i64 - bottom_height,
        )
    } else {
        (
            window_rect.left as i64,
            window_rect.top as i64,
            window_rect.right as i64,
            window_rect.bottom as i64,
        )
    }
}

/// Whether the border-compensated rectangle stays within the 32-bit
/// range: the executable form of its `in_bounds`, for callers that must
/// test it before computing.
pub fn cropped_rect_fits(window_rect: Rect, snapshot: &PlatformSnapshot, avoid_cropping_border: bool) -> (r: bool)
    ensures
        r == cropped_window_rect(window_rect@, *snapshot, avoid_cropping_border).in_bounds(),
{
    let (left, top, right, bottom) = cropped_rect_edges(window_rect, snapshot, avoid_cropping_border);
    i32::MIN as i64 <= left && left <= i32::MAX as i64 && i32::MIN as i64 <= top && top
        <= i32::MAX as i64 && i32::MIN as i64 <= right && right <= i32::MAX as i64
        && i32::MIN as i64 <= bottom && bottom <= i32::MAX as i64
}

/// Compute `(original_rect, cropped_rect)` for a window: the outer
/// rectangle as reported, and the same rectangle with the platform's
/// invisible resize borders removed where that compensation applies.
/// Both are in logical coordinates, unscaled.
pub fn get_cropped_window_rect(window_rect: Rect, snapshot: &PlatformSnapshot, avoid_cropping_border: bool) -> (r: (Rect, Rect))
    requires
        cropped_window_rect(window_rect@, *snapshot, avoid_cropping_border).in_bounds(),
    ensures
        r.0 == window_rect,
        r.1@ == cropped_window_rect(window_rect@, *snapshot, avoid_cropping_border),
{
    let (left, top, right, bottom) = cropped_rect_edges(window_rect, snapshot, avoid_cropping_border);
    let cropped = Rect::new(left as i32, top as i32, right as i32, bottom as i32);
    (window_rect, cropped)
}

/// When the visible border is to be kept, the top edge is never cropped:
/// the compensated rectangle keeps exactly the original top, whatever the
/// platform, style and metrics are.
pub proof fn lemma_top_never_cropped(original: RectModel, s: PlatformSnapshot)
    ensures
        cropped_window_rect(original, s, true).top == original.top,
{
}

/// On a platform without invisible borders (major version below 8, not
/// maximized) or for a window style with neither a thick nor a modal
/// frame, the compensated rectangle is exactly the original.
pub proof fn lemma_no_compensation_is_identity(original: RectModel, s: PlatformSnapshot, avoid_cropping_border: bool)
    requires
        !compensation_applies(s),
    ensures
        cropped_window_rect(original, s, avoid_cropping_border) == original,
{
}

} // verus!

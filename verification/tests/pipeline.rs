use xcap::BorderMetrics;
use xcap::CaptureStrategy;
use xcap::PlatformSnapshot;
use xcap::Rect;
use xcap::RgbaImage;
use xcap::WindowCaptureContext;
use xcap::XCapError;
use xcap::border::get_cropped_window_rect;
use xcap::border::STYLE_MODAL_FRAME;
use xcap::border::STYLE_THICK_FRAME;
use xcap::capture::compose_capture;
use xcap::capture::to_rgba_image;
use xcap::reconciliation_fits;
use xcap::pixel::normalize_pixels;
use xcap::strategy::strategy_plan;

fn snapshot(os: u8, maximized: bool, composition: bool, style: u32) -> PlatformSnapshot {
    PlatformSnapshot {
        os_major_version: os,
        is_maximized: maximized,
        composition_enabled: composition,
        window_style: style,
        border_metrics: BorderMetrics {
            resize_frame_width: 8,
            resize_frame_height: 8,
            border_height: 1,
            border_width: 1,
        },
    }
}

#[test]
fn no_compensation_for_plain_style_on_old_version() {
    let outer = Rect::new(100, 100, 400, 300);
    let (original, cropped) = get_cropped_window_rect(outer, &snapshot(7, false, false, 0), true);
    assert_eq!(original, outer);
    assert_eq!(cropped, outer);
}

#[test]
fn thick_frame_keeps_top_when_border_is_kept() {
    let outer = Rect::new(100, 100, 400, 300);
    let s = snapshot(10, false, true, STYLE_THICK_FRAME);
    let (original, cropped) = get_cropped_window_rect(outer, &s, true);
    assert_eq!(cropped.top, original.top);
    // Width 8 - 1 = 7 cropped from left and right, 8 - 1 = 7 from the bottom.
    assert_eq!((cropped.left, cropped.top, cropped.right, cropped.bottom), (107, 100, 393, 293));
}

#[test]
fn thick_frame_crops_all_edges_when_border_is_not_kept() {
    let outer = Rect::new(0, 0, 100, 100);
    let s = snapshot(10, false, true, STYLE_THICK_FRAME);
    let (_, cropped) = get_cropped_window_rect(outer, &s, false);
    // Full resize frame (8) left/right, border height (1) on top, frame (8) below.
    assert_eq!((cropped.left, cropped.top, cropped.right, cropped.bottom), (8, 1, 92, 92));
}

#[test]
fn modal_frame_is_compensated_too() {
    let outer = Rect::new(0, 0, 100, 100);
    let s = snapshot(10, false, true, STYLE_MODAL_FRAME);
    let (_, cropped) = get_cropped_window_rect(outer, &s, true);
    assert_eq!((cropped.left, cropped.top, cropped.right, cropped.bottom), (7, 0, 93, 93));
}

#[test]
fn maximized_window_is_compensated_on_old_version() {
    let outer = Rect::new(0, 0, 100, 100);
    let s = snapshot(7, true, false, STYLE_THICK_FRAME);
    let (_, cropped) = get_cropped_window_rect(outer, &s, true);
    assert_eq!((cropped.left, cropped.top, cropped.right, cropped.bottom), (7, 0, 93, 93));
}

#[test]
fn only_block_copy_without_print_support_or_composition() {
    let plan = strategy_plan(7, false);
    assert_eq!(plan, vec![CaptureStrategy::BlockCopy]);
}

#[test]
fn all_strategies_in_priority_order_on_new_version() {
    let plan = strategy_plan(10, true);
    assert_eq!(
        plan,
        vec![
            CaptureStrategy::FullContent,
            CaptureStrategy::BestEffort,
            CaptureStrategy::BlockCopy
        ]
    );
}

#[test]
fn best_effort_before_block_copy_on_old_version_with_composition() {
    let plan = strategy_plan(7, true);
    assert_eq!(plan, vec![CaptureStrategy::BestEffort, CaptureStrategy::BlockCopy]);
}

#[test]
fn full_content_then_block_copy_without_composition() {
    let plan = strategy_plan(8, false);
    assert_eq!(plan, vec![CaptureStrategy::FullContent, CaptureStrategy::BlockCopy]);
}

#[test]
fn pixel_alpha_forced_opaque_on_old_version() {
    let mut buffer = vec![10u8, 20, 30, 0];
    normalize_pixels(&mut buffer, 7);
    assert_eq!(buffer, vec![30u8, 20, 10, 255]);
}

#[test]
fn pixel_alpha_preserved_on_new_version() {
    let mut buffer = vec![10u8, 20, 30, 0];
    normalize_pixels(&mut buffer, 10);
    assert_eq!(buffer, vec![30u8, 20, 10, 0]);
}

#[test]
fn nonzero_alpha_preserved_on_old_version() {
    let mut buffer = vec![1u8, 2, 3, 9];
    normalize_pixels(&mut buffer, 7);
    assert_eq!(buffer, vec![3u8, 2, 1, 9]);
}

#[test]
fn trailing_partial_pixel_is_left_untouched() {
    let mut buffer = vec![1u8, 2, 3, 4, 5, 6];
    normalize_pixels(&mut buffer, 10);
    assert_eq!(buffer, vec![3u8, 2, 1, 4, 5, 6]);
}

#[test]
fn scale_correction_from_bitmap_dimensions() {
    let outer = Rect::new(0, 0, 100, 100);
    let ctx = WindowCaptureContext::new(outer, &snapshot(7, false, false, 0), Some((200, 200)), true);
    assert_eq!(ctx.scale_x.num, 200);
    assert_eq!(ctx.scale_x.den, 100);
    assert_eq!(ctx.scale_y.num, 200);
    assert_eq!(ctx.scale_y.den, 100);
    let o = ctx.original_rect;
    assert_eq!((o.left, o.top, o.right, o.bottom), (0, 0, 200, 200));
    let c = ctx.cropped_rect;
    assert_eq!((c.left, c.top, c.right, c.bottom), (0, 0, 200, 200));
}

#[test]
fn scale_correction_translates_nested_crop() {
    let outer = Rect::new(0, 0, 100, 100);
    let s = snapshot(10, false, false, STYLE_THICK_FRAME);
    let ctx = WindowCaptureContext::new(outer, &s, Some((200, 200)), true);
    // Cropped before scaling: {7, 0, 93, 93}; widths scale by 2 from the
    // top-left anchor, then the crop moves by its offset times (2 - 1).
    let c = ctx.cropped_rect;
    assert_eq!((c.left, c.top, c.right, c.bottom), (14, 0, 186, 186));
}

#[test]
fn scale_correction_sizes_exactly_even_with_fractional_factor() {
    // 7/3 and 5/3 are not integral factors, yet the outer rectangle
    // lands exactly on the bitmap dimensions.
    let outer = Rect::new(0, 0, 3, 3);
    let ctx = WindowCaptureContext::new(outer, &snapshot(7, false, false, 0), Some((7, 5)), true);
    let o = ctx.original_rect;
    assert_eq!((o.right - o.left, o.bottom - o.top), (7, 5));
}

#[test]
fn missing_bitmap_dimensions_skip_scaling() {
    let outer = Rect::new(3, 4, 103, 104);
    let ctx = WindowCaptureContext::new(outer, &snapshot(7, false, false, 0), None, true);
    assert_eq!(ctx.original_rect, outer);
    assert_eq!(ctx.cropped_rect, outer);
    assert_eq!(ctx.scale_x.num, 1);
    assert_eq!(ctx.scale_x.den, 1);
}

#[test]
fn reconciliation_fits_detects_overflow() {
    // A one-pixel-wide window with an enormous resize frame and a large
    // bitmap width: every value is individually plausible, but the
    // scaled crop rectangle would leave the 32-bit range.
    let outer = Rect::new(0, 0, 1, 1);
    let mut s = snapshot(10, false, false, STYLE_THICK_FRAME);
    s.border_metrics.resize_frame_width = 1_000_000;
    s.border_metrics.resize_frame_height = 0;
    s.border_metrics.border_width = 0;
    s.border_metrics.border_height = 0;
    assert!(!reconciliation_fits(outer, &s, Some((16_000_000, 1)), true));
    // Without bitmap dimensions the scale step is skipped and the same
    // geometry fits.
    assert!(reconciliation_fits(outer, &s, None, true));
    let plain = Rect::new(100, 100, 400, 300);
    assert!(reconciliation_fits(plain, &snapshot(7, false, false, 0), Some((600, 400)), true));
}

#[test]
fn to_rgba_image_normalizes_and_sizes() {
    let img = to_rgba_image(vec![10u8, 20, 30, 0, 1, 2, 3, 200], 2, 1, 10).unwrap();
    assert_eq!(img.width, 2);
    assert_eq!(img.height, 1);
    assert_eq!(img.data, vec![30u8, 20, 10, 0, 3, 2, 1, 200]);
}

#[test]
fn to_rgba_image_rejects_wrong_byte_count() {
    let r = to_rgba_image(vec![0u8; 7], 1, 1, 10);
    assert_eq!(r, Err(XCapError::BufferShapeInvalid));
    let r = to_rgba_image(vec![0u8; 4], -1, 1, 10);
    assert_eq!(r, Err(XCapError::BufferShapeInvalid));
}

#[test]
fn from_raw_checks_the_shape() {
    assert!(RgbaImage::from_raw(2, 2, vec![0u8; 16]).is_some());
    assert!(RgbaImage::from_raw(2, 2, vec![0u8; 15]).is_none());
}

#[test]
fn crop_extracts_the_requested_rectangle() {
    // A 2 by 2 image with distinct pixels.
    let data = vec![
        1u8, 1, 1, 1, 2, 2, 2, 2, //
        3u8, 3, 3, 3, 4, 4, 4, 4,
    ];
    let img = RgbaImage::from_raw(2, 2, data).unwrap();
    let c = img.crop(1, 1, 1, 1).unwrap();
    assert_eq!(c.width, 1);
    assert_eq!(c.height, 1);
    assert_eq!(c.data, vec![4u8, 4, 4, 4]);
}

#[test]
fn crop_beyond_bounds_fails_loudly() {
    let img = RgbaImage::from_raw(2, 2, vec![0u8; 16]).unwrap();
    assert_eq!(img.crop(1, 1, 2, 1), Err(XCapError::BufferShapeInvalid));
}

#[test]
fn end_to_end_capture_dimensions() {
    // A window with outer rectangle {100,100,400,300}, no resizable
    // frame, on major version 7: the final image is exactly 300 by 200.
    let outer = Rect::new(100, 100, 400, 300);
    let s = snapshot(7, false, false, 0);
    let ctx = WindowCaptureContext::new(outer, &s, None, true);
    assert_eq!(ctx.strategies, vec![CaptureStrategy::BlockCopy]);
    let buffer = vec![0u8; 300 * 200 * 4];
    let img = compose_capture(&ctx, buffer, 7).unwrap();
    assert_eq!(img.width, 300);
    assert_eq!(img.height, 200);
    assert_eq!(img.data.len(), 300 * 200 * 4);
    // Every pixel was opaque-forced on the old version.
    assert_eq!(img.data[3], 255);
}

#[test]
fn compose_rejects_mismatched_buffer() {
    let outer = Rect::new(0, 0, 10, 10);
    let ctx = WindowCaptureContext::new(outer, &snapshot(10, true, true, 0), None, true);
    let r = compose_capture(&ctx, vec![0u8; 3], 10);
    assert_eq!(r, Err(XCapError::BufferShapeInvalid));
}

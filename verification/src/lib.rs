//! Window-capture geometry and pixel pipeline.
//!
//! The library reconciles the coordinate spaces a windowing system exposes
//! for a window (logical rectangle, framebuffer pixel rectangle, invisible
//! resize borders), selects among the capture strategies the platform
//! offers, and normalizes raw device pixels into a top-down RGBA buffer.
//! Operating-system calls themselves live outside the library; every
//! decision and transformation on plain values is verified here.

pub mod border;
pub mod capture;
pub mod error;
pub mod image_buf;
pub mod pixel;
pub mod ratio;
pub mod rect;
pub mod scale;
pub mod strategy;
pub mod utils;

pub use border::BorderMetrics;
pub use border::PlatformSnapshot;
pub use capture::reconciliation_fits;
pub use capture::WindowCaptureContext;
pub use error::XCapError;
pub use error::XCapResult;
pub use image_buf::RgbaImage;
pub use ratio::Ratio;
pub use rect::Rect;
pub use rect::RectModel;
pub use strategy::CaptureStrategy;
pub use utils::get_os_major_version;
pub use utils::parse_os_major_version;
pub use utils::wide_string_to_string;

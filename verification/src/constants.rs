//! Fixed configuration values of the shell.
//!
//! None of these is user-configurable at runtime: the custom titlebar
//! height, the reserved window and view labels, the two content URLs, and
//! the default and minimum dimensions of the options window.
//!
//! Lengths are logical pixels (whole numbers here); a display scale factor
//! converts them to physical pixels. Scale factors are carried in
//! thousandths (see [`crate::geometry::ScaleFactor`]), so that the common
//! fractional per-monitor scales (1.25, 1.5, 2.0) are exact integers.

use vstd::prelude::*;

verus! {

/// Height of the custom titlebar in logical pixels. The embedded view is
/// offset below it.
pub const TITLEBAR_HEIGHT: u32 = 32;

/// Thousandths that make up a scale factor of one.
pub const SCALE_ONE_MILLIS: u32 = 1000;

/// URL of the external Gemini AI service loaded into the embedded view.
pub const GEMINI_URL: &'static str = "https://gemini.google.com";

/// Label of the main application window.
pub const MAIN_WINDOW_LABEL: &'static str = "main";

/// Label of the embedded Gemini view; at most one view carries it at a time.
pub const GEMINI_WEBVIEW_LABEL: &'static str = "gemini-webview";

/// Label of the options window; at most one window carries it at a time.
pub const OPTIONS_WINDOW_LABEL: &'static str = "options";

/// Title shown by the options window.
pub const OPTIONS_WINDOW_TITLE: &'static str = "Options";

/// Bundled entry point loaded into the options window.
pub const OPTIONS_WINDOW_URL: &'static str = "options.html";

/// Default width of the options window in logical pixels.
pub const OPTIONS_WINDOW_WIDTH: u32 = 600;

/// Default height of the options window in logical pixels.
pub const OPTIONS_WINDOW_HEIGHT: u32 = 500;

/// Minimum width of the options window in logical pixels.
pub const OPTIONS_WINDOW_MIN_WIDTH: u32 = 400;

/// Minimum height of the options window in logical pixels.
pub const OPTIONS_WINDOW_MIN_HEIGHT: u32 = 300;

} // verus!

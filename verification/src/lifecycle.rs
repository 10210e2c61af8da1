//! Decisions of the window/view lifecycle manager.
//!
//! The shell mediates creation, reuse and resize-synchronization of one
//! embedded content view and one secondary (options) window. Every decision
//! is a function from what the host reports (existence flags, sizes, scale
//! factors) to the action the host must carry out; the host calls
//! themselves are made outside the library.

use vstd::prelude::*;
use vstd::string::StringExecFns;

use crate::constants::GEMINI_URL;
use crate::constants::GEMINI_WEBVIEW_LABEL;
use crate::constants::OPTIONS_WINDOW_HEIGHT;
use crate::constants::OPTIONS_WINDOW_LABEL;
use crate::constants::OPTIONS_WINDOW_MIN_HEIGHT;
use crate::constants::OPTIONS_WINDOW_MIN_WIDTH;
use crate::constants::OPTIONS_WINDOW_TITLE;
use crate::constants::OPTIONS_WINDOW_URL;
use crate::constants::OPTIONS_WINDOW_WIDTH;
use crate::constants::SCALE_ONE_MILLIS;
use crate::constants::TITLEBAR_HEIGHT;
use crate::errors::CommandError;
use crate::geometry::compute_bounds;
use crate::geometry::is_bounds_for;
use crate::geometry::spec_scaled_physical;
use crate::geometry::Bounds;
use crate::geometry::ScaleFactor;

verus! {

/// What the embedded-view creation command must do.
#[derive(Clone, Copy, Debug, PartialEq, Eq, Structural)]
pub enum EmbeddedViewPlan {
    /// A view with the reserved label already exists: succeed without
    /// changing anything.
    ReuseExisting,
    /// No such view yet: query the parent geometry and attach a new one
    /// (see [`embedded_view_attach_request`]).
    AttachNew,
}

/// The embedded-view command's decision, from what the host reports: no
/// main window is the one hard failure; an existing view is reused without
/// change; otherwise one new view is to be attached.
pub open spec fn embedded_view_plan_post(
    main_window_exists: bool,
    webview_exists: bool,
    r: Result<EmbeddedViewPlan, CommandError>,
) -> bool {
    &&& !main_window_exists ==> (r matches Err(e) && e matches CommandError::WindowNotFound(m)
        && m@ == "Main window not found"@)
    &&& main_window_exists && webview_exists ==> r == Ok::<EmbeddedViewPlan, CommandError>(
        EmbeddedViewPlan::ReuseExisting,
    )
    &&& main_window_exists && !webview_exists ==> r == Ok::<EmbeddedViewPlan, CommandError>(
        EmbeddedViewPlan::AttachNew,
    )
}

/// Decide the embedded-view creation command from the host's report of
/// which windows and views exist.
pub fn plan_embedded_view(main_window_exists: bool, webview_exists: bool) -> (r: Result<
    EmbeddedViewPlan,
    CommandError,
>)
    ensures
        embedded_view_plan_post(main_window_exists, webview_exists, r),
{
    if !main_window_exists {
        Err(CommandError::WindowNotFound(String::from_str("Main window not found")))
    } else if webview_exists {
        Ok(EmbeddedViewPlan::ReuseExisting)
    } else {
        Ok(EmbeddedViewPlan::AttachNew)
    }
}

/// Everything the host needs to attach the embedded view: the reserved
/// label, the content URL, and the physical bounds inside the parent.
pub struct AttachRequest {
    /// Reserved label of the embedded view.
    pub label: String,
    /// External content URL the view loads.
    pub url: String,
    /// Physical position and size inside the parent window.
    pub bounds: Bounds,
}

/// The scaled titlebar offset always fits a `u32` for the fixed logical
/// titlebar height, whatever the scale factor.
proof fn lemma_titlebar_offset_fits(scale_millis: int)
    requires
        0 <= scale_millis <= u32::MAX,
    ensures
        spec_scaled_physical(TITLEBAR_HEIGHT as int, scale_millis) <= u32::MAX,
{
    let p = (TITLEBAR_HEIGHT as int) * scale_millis + (SCALE_ONE_MILLIS as int) / 2;
    assert(p <= 137438953940int);
    vstd::arithmetic::div_mod::lemma_div_is_ordered(p, 137438953940int, SCALE_ONE_MILLIS as int);
}

/// Build the attach request for a new embedded view from the parent
/// window's physical size and scale factor: the reserved label, the fixed
/// external URL, and bounds just below the titlebar.
pub fn embedded_view_attach_request(
    parent_width: u32,
    parent_height: u32,
    scale: ScaleFactor,
) -> (r: AttachRequest)
    requires
        scale.wf(),
    ensures
        r.label@ == GEMINI_WEBVIEW_LABEL@,
        r.url@ == GEMINI_URL@,
        is_bounds_for(
            r.bounds,
            parent_width as int,
            parent_height as int,
            scale.millis as int,
            TITLEBAR_HEIGHT as int,
        ),
{
    proof {
        lemma_titlebar_offset_fits(scale.millis as int);
    }
    let bounds = compute_bounds(parent_width, parent_height, scale, TITLEBAR_HEIGHT);
    AttachRequest {
        label: String::from_str(GEMINI_WEBVIEW_LABEL),
        url: String::from_str(GEMINI_URL),
        bounds,
    }
}

/// What the secondary-window creation command must do.
#[derive(Clone, Copy, Debug, PartialEq, Eq, Structural)]
pub enum OptionsWindowPlan {
    /// The window already exists: un-minimize it (best effort) and focus
    /// it; no new window is built.
    FocusExisting,
    /// No such window: build one from [`options_window_config`], then focus
    /// it.
    CreateNew,
}

/// The secondary-window command's decision: reuse and focus an existing
/// window, build a new one otherwise.
pub open spec fn options_window_plan_post(options_exists: bool, r: OptionsWindowPlan) -> bool {
    r == if options_exists {
        OptionsWindowPlan::FocusExisting
    } else {
        OptionsWindowPlan::CreateNew
    }
}

/// Decide the secondary-window creation command from the host's report of
/// whether the options window exists.
pub fn plan_options_window(options_exists: bool) -> (r: OptionsWindowPlan)
    ensures
        options_window_plan_post(options_exists, r),
{
    if options_exists {
        OptionsWindowPlan::FocusExisting
    } else {
        OptionsWindowPlan::CreateNew
    }
}

/// Platform capabilities, resolved once at startup and injected into every
/// decision that depends on them.
#[derive(Clone, Copy, Debug, PartialEq, Eq, Structural)]
pub struct PlatformConfig {
    /// Keep the host's native window decorations (macOS overlay titlebar);
    /// otherwise the shell draws its own titlebar.
    pub use_native_decorations: bool,
    /// Use the host's native application menu; otherwise the front-end
    /// renders one.
    pub use_native_menu: bool,
}

impl PlatformConfig {
    /// Resolve the platform configuration: macOS keeps native decorations
    /// and the native menu; every other platform draws its own.
    pub fn resolve(is_macos: bool) -> (c: PlatformConfig)
        ensures
            c.use_native_decorations == is_macos,
            c.use_native_menu == is_macos,
    {
        PlatformConfig { use_native_decorations: is_macos, use_native_menu: is_macos }
    }
}

/// Whether the main window's native decorations are switched off at
/// startup: exactly the platforms that draw a custom titlebar drop them.
pub fn main_window_disable_decorations(platform: PlatformConfig) -> (r: bool)
    ensures
        r == !platform.use_native_decorations,
{
    !platform.use_native_decorations
}

/// Fixed settings for a newly built options window.
pub struct WindowConfig {
    /// Reserved label of the window.
    pub label: String,
    /// Window title.
    pub title: String,
    /// Bundled entry point the window loads.
    pub url: String,
    /// Default width in logical pixels.
    pub width: u32,
    /// Default height in logical pixels.
    pub height: u32,
    /// Minimum width in logical pixels.
    pub min_width: u32,
    /// Minimum height in logical pixels.
    pub min_height: u32,
    /// Whether the window keeps native decorations.
    pub decorations: bool,
    /// Whether the window is resizable.
    pub resizable: bool,
    /// Whether the window opens centered.
    pub centered: bool,
}

/// The settings a new options window is built with: the reserved label and
/// title, the bundled entry point, the fixed default and minimum sizes,
/// resizable and centered, with decorations following the platform.
pub fn options_window_config(platform: PlatformConfig) -> (c: WindowConfig)
    ensures
        c.label@ == OPTIONS_WINDOW_LABEL@,
        c.title@ == OPTIONS_WINDOW_TITLE@,
        c.url@ == OPTIONS_WINDOW_URL@,
        c.width == OPTIONS_WINDOW_WIDTH,
        c.height == OPTIONS_WINDOW_HEIGHT,
        c.min_width == OPTIONS_WINDOW_MIN_WIDTH,
        c.min_height == OPTIONS_WINDOW_MIN_HEIGHT,
        c.decorations == platform.use_native_decorations,
        c.resizable,
        c.centered,
{
    WindowConfig {
        label: String::from_str(OPTIONS_WINDOW_LABEL),
        title: String::from_str(OPTIONS_WINDOW_TITLE),
        url: String::from_str(OPTIONS_WINDOW_URL),
        width: OPTIONS_WINDOW_WIDTH,
        height: OPTIONS_WINDOW_HEIGHT,
        min_width: OPTIONS_WINDOW_MIN_WIDTH,
        min_height: OPTIONS_WINDOW_MIN_HEIGHT,
        decorations: platform.use_native_decorations,
        resizable: true,
        centered: true,
    }
}

/// The scale a resize tick computes with: the host-reported value, or one
/// when the host could not report it — a deliberate soft fallback so a
/// transient query failure never interrupts the resize path.
pub open spec fn spec_resize_scale_millis(scale: Option<ScaleFactor>) -> int {
    match scale {
        Some(s) => s.millis as int,
        None => SCALE_ONE_MILLIS as int,
    }
}

/// Handle one host resize event on the main window: with no embedded view
/// the tick is a no-op; otherwise it yields the one rectangle the view must
/// be set to, computed from the new size and the (possibly fallen-back)
/// scale factor.
pub fn on_main_window_resized(
    webview_exists: bool,
    new_width: u32,
    new_height: u32,
    scale: Option<ScaleFactor>,
) -> (r: Option<Bounds>)
    requires
        scale matches Some(s) ==> s.wf(),
    ensures
        !webview_exists ==> r is None,
        webview_exists ==> (r matches Some(b) && is_bounds_for(
            b,
            new_width as int,
            new_height as int,
            spec_resize_scale_millis(scale),
            TITLEBAR_HEIGHT as int,
        )),
{
    if !webview_exists {
        return None;
    }
    let s = match scale {
        Some(s) => s,
        None => ScaleFactor::identity(),
    };
    proof {
        lemma_titlebar_offset_fits(s.millis as int);
    }
    Some(compute_bounds(new_width, new_height, s, TITLEBAR_HEIGHT))
}

/// Surface the outcome of one host call on a creation path: success passes
/// through; failure is wrapped exactly once with the host's diagnostic.
pub fn host_step_result(succeeded: bool, detail: String) -> (r: Result<(), CommandError>)
    ensures
        succeeded <==> r is Ok,
        !succeeded ==> (r matches Err(e) && e matches CommandError::HostOperationFailed(m)
            && m@ == detail@),
{
    if succeeded {
        Ok(())
    } else {
        Err(CommandError::HostOperationFailed(detail))
    }
}

/// Law: issuing the embedded-view creation command twice in sequence
/// creates exactly one view. With the main window present and no view yet,
/// the first run plans the one attachment; once the host has attached the
/// view, the second run reuses it — it plans no attachment and still
/// reports success.
pub proof fn lemma_embedded_view_created_once(
    r1: Result<EmbeddedViewPlan, CommandError>,
    r2: Result<EmbeddedViewPlan, CommandError>,
)
    requires
        embedded_view_plan_post(true, false, r1),
        embedded_view_plan_post(true, true, r2),
    ensures
        r1 == Ok::<EmbeddedViewPlan, CommandError>(EmbeddedViewPlan::AttachNew),
        r2 == Ok::<EmbeddedViewPlan, CommandError>(EmbeddedViewPlan::ReuseExisting),
{
}

/// Law: the secondary-window command never builds a second window — when
/// one already exists, the plan is to focus it, never to create another.
pub proof fn lemma_options_window_reused(r: OptionsWindowPlan)
    requires
        options_window_plan_post(true, r),
    ensures
        r == OptionsWindowPlan::FocusExisting,
{
}

} // verus!

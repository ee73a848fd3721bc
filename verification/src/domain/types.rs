//! What is known of a compositor's monitors, windows and layers.

use vstd::prelude::*;

verus! {

/// A rectangle on the screen.
#[derive(Debug, Clone, Copy, PartialEq, Eq, Structural)]
pub struct ScreenRect {
    pub x: i32,
    pub y: i32,
    pub w: i32,
    pub h: i32,
}

/// A monitor.
#[derive(Debug, Clone, PartialEq, Eq)]
pub struct MonitorInfo {
    pub rect: ScreenRect,
    pub name: String,
    pub focused: bool,
    pub active_workspace_id: i64,
}

/// A [`MonitorInfo`] with its name as characters.
pub struct MonitorInfoView {
    pub rect: ScreenRect,
    pub name: Seq<char>,
    pub focused: bool,
    pub active_workspace_id: i64,
}

impl View for MonitorInfo {
    type V = MonitorInfoView;

    open spec fn view(&self) -> MonitorInfoView {
        MonitorInfoView {
            rect: self.rect,
            name: self.name@,
            focused: self.focused,
            active_workspace_id: self.active_workspace_id,
        }
    }
}

/// A window.
#[derive(Debug, Clone, PartialEq, Eq)]
pub struct WindowInfo {
    pub rect: ScreenRect,
    pub title: String,
    pub class: String,
    pub floating: bool,
    /// Zero for the focused window; the lower, the more recently focused.
    pub focus_history_id: i64,
    pub address: u64,
}

/// A [`WindowInfo`] with its texts as characters.
pub struct WindowInfoView {
    pub rect: ScreenRect,
    pub title: Seq<char>,
    pub class: Seq<char>,
    pub floating: bool,
    pub focus_history_id: i64,
    pub address: u64,
}

impl View for WindowInfo {
    type V = WindowInfoView;

    open spec fn view(&self) -> WindowInfoView {
        WindowInfoView {
            rect: self.rect,
            title: self.title@,
            class: self.class@,
            floating: self.floating,
            focus_history_id: self.focus_history_id,
            address: self.address,
        }
    }
}

/// A layer surface above the windows.
#[derive(Debug, Clone, Copy, PartialEq, Eq, Structural)]
pub struct LayerSurface {
    pub rect: ScreenRect,
}

/// How window borders are drawn.
#[derive(Debug, Clone, Copy, PartialEq, Eq, Structural)]
pub struct BorderStyle {
    pub border_size: i32,
    pub rounding: i32,
}

/// The style that leaves window geometry unchanged.
pub open spec fn no_border() -> BorderStyle {
    BorderStyle { border_size: 0, rounding: 0 }
}

impl Default for BorderStyle {
    fn default() -> (style: BorderStyle)
        ensures
            style == no_border(),
    {
        BorderStyle { border_size: 0, rounding: 0 }
    }
}

/// The views of a list of monitors.
pub open spec fn monitor_views(monitors: Seq<MonitorInfo>) -> Seq<MonitorInfoView> {
    monitors.map_values(|monitor: MonitorInfo| monitor@)
}

/// The views of a list of windows.
pub open spec fn window_views(windows: Seq<WindowInfo>) -> Seq<WindowInfoView> {
    windows.map_values(|window: WindowInfo| window@)
}

/// The views of a list of monitors keep every monitor in its place, with every
/// field.
pub proof fn monitor_views_keep_everything(monitors: Seq<MonitorInfo>, i: int)
    requires
        0 <= i < monitors.len(),
    ensures
        monitor_views(monitors).len() == monitors.len(),
        monitor_views(monitors)[i].rect == monitors[i].rect,
        monitor_views(monitors)[i].name == monitors[i].name@,
        monitor_views(monitors)[i].focused == monitors[i].focused,
        monitor_views(monitors)[i].active_workspace_id == monitors[i].active_workspace_id,
{
}

/// The view of a window keeps every field.
pub proof fn window_view_keeps_everything(window: WindowInfo)
    ensures
        window@.rect == window.rect,
        window@.title == window.title@,
        window@.class == window.class@,
        window@.floating == window.floating,
        window@.focus_history_id == window.focus_history_id,
        window@.address == window.address,
{
}

/// The views of a list of windows keep every window in its place.
pub proof fn window_views_keep_everything(windows: Seq<WindowInfo>, i: int)
    requires
        0 <= i < windows.len(),
    ensures
        window_views(windows).len() == windows.len(),
        window_views(windows)[i] == windows[i]@,
{
}

/// The default border takes no space.
pub proof fn default_border_is_zero()
    ensures
        no_border().border_size == 0,
        no_border().rounding == 0,
{
}

} // verus!

use vstd::prelude::*;

verus! {

/// A video mode of a monitor: its physical size, bit depth and refresh rate.
#[derive(Debug, Clone, Copy, PartialEq, Eq, Structural)]
pub struct VideoMode {
    pub physical_width: u32,
    pub physical_height: u32,
    pub bit_depth: u16,
    pub refresh_rate_millihertz: u32,
}

/// Which monitor a window is placed on. An entity is given by its bits.
#[derive(Debug, Clone, Copy, PartialEq, Eq, Structural)]
pub enum MonitorSelection {
    Current,
    Primary,
    Index(usize),
    Entity(u64),
}

/// Which video mode a fullscreen window uses.
#[derive(Debug, Clone, Copy, PartialEq, Eq, Structural)]
pub enum VideoModeSelection {
    Current,
    Specific(VideoMode),
}

/// How a window fills its monitor.
#[derive(Debug, Clone, Copy, PartialEq, Eq, Structural)]
pub enum WindowMode {
    Windowed,
    BorderlessFullscreen(MonitorSelection),
    Fullscreen(MonitorSelection, VideoModeSelection),
}

/// Where a window is placed.
#[derive(Debug, Clone, Copy, PartialEq, Eq, Structural)]
pub enum WindowPosition {
    Automatic,
    Centered(MonitorSelection),
    At(i32, i32),
}

/// How the cursor is held in a window.
#[derive(Debug, Clone, Copy, PartialEq, Eq, Structural)]
pub enum CursorGrabMode {
    /// The cursor moves freely (Bevy's `CursorGrabMode::None`).
    Free,
    Confined,
    Locked,
}

/// Stacking of a window relative to the others.
#[derive(Debug, Clone, Copy, PartialEq, Eq, Structural)]
pub enum WindowLevel {
    AlwaysOnBottom,
    Normal,
    AlwaysOnTop,
}

/// The light or dark appearance of a window.
#[derive(Debug, Clone, Copy, PartialEq, Eq, Structural)]
pub enum WindowTheme {
    Light,
    Dark,
}

/// Which title-bar buttons a window offers.
#[derive(Debug, Clone, Copy, PartialEq, Eq, Structural)]
pub struct EnabledButtons {
    pub minimize: bool,
    pub maximize: bool,
    pub close: bool,
}

/// A screen edge, or all of them, on which the application's gestures take
/// precedence over the system's.
#[derive(Debug, Clone, Copy, PartialEq, Eq, Structural)]
pub enum ScreenEdge {
    /// No edge (Bevy's `ScreenEdge::None`).
    NoEdge,
    Top,
    Left,
    Bottom,
    Right,
    All,
}

/// The direction of a drag-resize request.
#[derive(Debug, Clone, Copy, PartialEq, Eq, Structural)]
pub enum CompassOctant {
    NorthWest,
    North,
    NorthEast,
    West,
    East,
    SouthWest,
    South,
    SouthEast,
}

/// The requests a Bevy window holds until its backend takes them.
#[derive(Debug, Clone, Copy, PartialEq, Eq, Structural)]
pub struct WindowRequests {
    /// Maximize (`true`) or unmaximize (`false`).
    pub maximize: Option<bool>,
    /// Minimize (`true`) or unminimize (`false`).
    pub minimize: Option<bool>,
    /// Start a drag-move.
    pub drag_move: bool,
    /// Start a drag-resize in the given direction.
    pub drag_resize: Option<CompassOctant>,
}

impl WindowRequests {
    /// No pending request.
    pub open spec fn spec_none() -> WindowRequests {
        WindowRequests { maximize: None, minimize: None, drag_move: false, drag_resize: None }
    }

    /// No pending request.
    pub fn none() -> (requests: WindowRequests)
        ensures
            requests == WindowRequests::spec_none(),
    {
        WindowRequests { maximize: None, minimize: None, drag_move: false, drag_resize: None }
    }
}

/// The settings of a Bevy window that the backend reads, as plain values.
/// Sizes, scale factors and cursor positions are floating point in Bevy and are
/// compared by the plugin (see [`crate::changes::WindowChangeFlags`]).
#[derive(Debug, Clone)]
pub struct WindowSettings {
    pub title: String,
    pub name: Option<String>,
    pub mode: WindowMode,
    pub position: WindowPosition,
    pub resizable: bool,
    pub decorations: bool,
    pub focused: bool,
    pub visible: bool,
    pub transparent: bool,
    pub ime_enabled: bool,
    pub window_level: WindowLevel,
    pub window_theme: Option<WindowTheme>,
    pub enabled_buttons: EnabledButtons,
    /// The selector of the HTML canvas the window draws to, on the web.
    pub canvas: Option<String>,
    pub recognize_pinch_gesture: bool,
    pub recognize_rotation_gesture: bool,
    pub recognize_doubletap_gesture: bool,
    /// The smallest and largest number of fingers of a recognized pan gesture.
    pub recognize_pan_gesture: Option<(u8, u8)>,
    pub prefers_home_indicator_hidden: bool,
    pub prefers_status_bar_hidden: bool,
    pub preferred_screen_edges_deferring_system_gestures: ScreenEdge,
    /// The requests the window holds for its backend.
    pub requests: WindowRequests,
}

/// The text of an optional string.
pub open spec fn text_view(text: Option<String>) -> Option<Seq<char>> {
    match text {
        Some(s) => Some(s@),
        None => None,
    }
}

/// Whether two optional strings hold the same text.
pub fn same_text(a: &Option<String>, b: &Option<String>) -> (same: bool)
    ensures
        same == (text_view(*a) == text_view(*b)),
{
    match (a, b) {
        (Some(x), Some(y)) => x.eq(y),
        (None, None) => true,
        _ => false,
    }
}

/// A copy of an optional string.
pub fn copy_text(text: &Option<String>) -> (copy: Option<String>)
    ensures
        copy == *text,
{
    match text {
        Some(s) => Some(s.clone()),
        None => None,
    }
}

impl WindowSettings {
    /// A copy of these settings, equal to them field by field.
    pub fn duplicate(&self) -> (copy: WindowSettings)
        ensures
            copy == *self,
    {
        WindowSettings {
            title: self.title.clone(),
            name: copy_text(&self.name),
            mode: self.mode,
            position: self.position,
            resizable: self.resizable,
            decorations: self.decorations,
            focused: self.focused,
            visible: self.visible,
            transparent: self.transparent,
            ime_enabled: self.ime_enabled,
            window_level: self.window_level,
            window_theme: self.window_theme,
            enabled_buttons: self.enabled_buttons,
            canvas: copy_text(&self.canvas),
            recognize_pinch_gesture: self.recognize_pinch_gesture,
            recognize_rotation_gesture: self.recognize_rotation_gesture,
            recognize_doubletap_gesture: self.recognize_doubletap_gesture,
            recognize_pan_gesture: self.recognize_pan_gesture,
            prefers_home_indicator_hidden: self.prefers_home_indicator_hidden,
            prefers_status_bar_hidden: self.prefers_status_bar_hidden,
            preferred_screen_edges_deferring_system_gestures: self.preferred_screen_edges_deferring_system_gestures,
            requests: self.requests,
        }
    }
}

/// The cursor settings of a window that the backend reads.
#[derive(Debug, Clone, Copy, PartialEq, Eq, Structural)]
pub struct CursorSettings {
    pub grab_mode: CursorGrabMode,
    pub visible: bool,
    pub hit_test: bool,
}

} // verus!

use vstd::prelude::*;

use crate::window_model::{
    copy_text, same_text, text_view, CompassOctant, CursorSettings, MonitorSelection,
    VideoModeSelection, WindowMode, WindowPosition, WindowRequests, WindowSettings,
};
use crate::windows::{attempt_grab, GrabError};

verus! {

/// A window coordinate as SDL's `set_position` takes it.
#[derive(Debug, Clone, Copy, PartialEq, Eq, Structural)]
pub enum WindowPos {
    Undefined,
    Centered,
    Positioned(i32),
}

/// The comparisons between a window and its cached copy that involve floating
/// point, made by the plugin.
#[derive(Debug, Clone, Copy, PartialEq, Eq, Structural)]
pub struct WindowChangeFlags {
    /// The resolution differs.
    pub resolution_changed: bool,
    /// The logical size differs.
    pub size_changed: bool,
    /// The scale factor differs.
    pub scale_factor_changed: bool,
    /// The cursor position differs and the window has one.
    pub cursor_moved: bool,
    /// The resize constraints differ.
    pub resize_constraints_changed: bool,
    /// The IME position differs.
    pub ime_position_changed: bool,
}

/// The target-specific parts of a changed-window pass that apply where the
/// backend runs.
#[derive(Debug, Clone, Copy, PartialEq, Eq, Structural)]
pub struct TargetPlatform {
    /// The web, where a window's canvas cannot change after creation.
    pub web: bool,
    /// iOS, whose gesture and screen settings the backend reports as unsupported.
    pub ios: bool,
}

/// One step of bringing an SDL window in line with its changed Bevy window.
#[derive(Debug, Clone, Copy, PartialEq, Eq, Structural)]
pub enum WindowCommand {
    SetTitle,
    /// Apply a new window mode: the display mode to select (monitor and video
    /// mode), if any, then the fullscreen flag.
    ApplyMode { monitor: Option<MonitorSelection>, video_mode: Option<VideoModeSelection>, fullscreen: bool },
    /// Apply a new position: the monitor to move to, if any, then the coordinates.
    ApplyPosition { monitor: Option<MonitorSelection>, x: WindowPos, y: WindowPos },
    /// Resize the SDL window to the Bevy window's size and announce it.
    ApplySize,
    /// Announce the new scale factor.
    AnnounceScaleFactor,
    WarpCursor,
    SetBordered(bool),
    ReportResizableUnsupported,
    ReportEnabledButtonsUnsupported,
    ApplyResizeConstraints,
    /// Bring the window's monitor link up to date.
    SyncMonitorLink,
    Maximize,
    Minimize,
    Restore,
    ReportMoveUnsupported,
    ReportResizeUnsupported(CompassOctant),
    Raise,
    ReportWindowLevelUnsupported,
    ReportTransparentUnsupported,
    /// Report that the canvas cannot change; the window's canvas is set back
    /// to the cached one.
    RevertCanvas,
    ReportImeEnabledUnsupported,
    ReportImePositionUnsupported,
    ReportWindowThemeUnsupported,
    Show,
    Hide,
    ReportPinchGestureUnsupported,
    ReportRotationGestureUnsupported,
    ReportDoubletapGestureUnsupported,
    ReportPanGestureUnsupported,
    ReportHomeIndicatorUnsupported,
    ReportStatusBarUnsupported,
    ReportScreenEdgesUnsupported,
}

/// `command` when `cond` holds, else nothing.
#[verifier::opaque]
pub open spec fn step(cond: bool, command: WindowCommand) -> Seq<WindowCommand> {
    if cond {
        seq![command]
    } else {
        seq![]
    }
}

/// The command that applies a window mode.
pub open spec fn spec_mode_command(mode: WindowMode) -> WindowCommand {
    match mode {
        WindowMode::Windowed => WindowCommand::ApplyMode { monitor: None, video_mode: None, fullscreen: false },
        WindowMode::BorderlessFullscreen(m) => WindowCommand::ApplyMode {
            monitor: Some(m),
            video_mode: None,
            fullscreen: true,
        },
        WindowMode::Fullscreen(m, v) => WindowCommand::ApplyMode {
            monitor: Some(m),
            video_mode: Some(v),
            fullscreen: true,
        },
    }
}

/// The command that applies a window position.
pub open spec fn spec_position_command(position: WindowPosition) -> WindowCommand {
    match position {
        WindowPosition::Automatic => WindowCommand::ApplyPosition {
            monitor: None,
            x: WindowPos::Undefined,
            y: WindowPos::Undefined,
        },
        WindowPosition::Centered(m) => WindowCommand::ApplyPosition {
            monitor: Some(m),
            x: WindowPos::Centered,
            y: WindowPos::Centered,
        },
        WindowPosition::At(x, y) => WindowCommand::ApplyPosition {
            monitor: None,
            x: WindowPos::Positioned(x),
            y: WindowPos::Positioned(y),
        },
    }
}

/// The command for a drag-resize request.
#[verifier::opaque]
pub open spec fn resize_step(request: Option<CompassOctant>) -> Seq<WindowCommand> {
    match request {
        Some(direction) => seq![WindowCommand::ReportResizeUnsupported(direction)],
        None => seq![],
    }
}

/// The commands for a maximize or minimize request.
#[verifier::opaque]
pub open spec fn request_step(request: Option<bool>, yes: WindowCommand) -> Seq<WindowCommand> {
    match request {
        Some(true) => seq![yes],
        Some(false) => seq![WindowCommand::Restore],
        None => seq![],
    }
}

/// `first` followed by `rest`.
#[verifier::opaque]
pub open spec fn then(first: Seq<WindowCommand>, rest: Seq<WindowCommand>) -> Seq<WindowCommand> {
    first + rest
}

/// The commands for the window's mode, position, size and look, after `s`.
pub open spec fn shape_commands(s: Seq<WindowCommand>, window: WindowSettings, cache: WindowSettings, flags: WindowChangeFlags) -> Seq<WindowCommand> {
    let s = then(s, step(window.title@ != cache.title@, WindowCommand::SetTitle));
    let s = then(s, step(window.mode != cache.mode, spec_mode_command(window.mode)));
    let s = then(s, step(window.position != cache.position, spec_position_command(window.position)));
    let s = then(s, step(flags.resolution_changed && flags.size_changed, WindowCommand::ApplySize));
    let s = then(s, step(flags.resolution_changed && flags.scale_factor_changed, WindowCommand::AnnounceScaleFactor));
    let s = then(s, step(flags.cursor_moved, WindowCommand::WarpCursor));
    then(s, step(window.decorations != cache.decorations, WindowCommand::SetBordered(window.decorations)))
}

/// The commands for the window's constraints, monitor and pending requests, after `s`.
pub open spec fn request_commands(s: Seq<WindowCommand>, window: WindowSettings, cache: WindowSettings, flags: WindowChangeFlags) -> Seq<WindowCommand> {
    let s = then(s, step(window.resizable != cache.resizable, WindowCommand::ReportResizableUnsupported));
    let s = then(s, step(window.enabled_buttons != cache.enabled_buttons, WindowCommand::ReportEnabledButtonsUnsupported));
    let s = then(s, step(flags.resize_constraints_changed, WindowCommand::ApplyResizeConstraints));
    let s = then(s, step(true, WindowCommand::SyncMonitorLink));
    let s = then(s, request_step(window.requests.maximize, WindowCommand::Maximize));
    let s = then(s, request_step(window.requests.minimize, WindowCommand::Minimize));
    let s = then(s, step(window.requests.drag_move, WindowCommand::ReportMoveUnsupported));
    then(s, resize_step(window.requests.drag_resize))
}

/// Whether a pass reverts the window's canvas: on the web, when it differs from
/// the cached one.
pub open spec fn reverts_canvas(window: WindowSettings, cache: WindowSettings, platform: TargetPlatform) -> bool {
    platform.web && text_view(window.canvas) != text_view(cache.canvas)
}

/// The commands for the window's focus, unsupported settings and visibility, after `s`.
pub open spec fn state_commands(s: Seq<WindowCommand>, window: WindowSettings, cache: WindowSettings, flags: WindowChangeFlags, platform: TargetPlatform) -> Seq<WindowCommand> {
    let s = then(s, step(window.focused != cache.focused && window.focused, WindowCommand::Raise));
    let s = then(s, step(window.window_level != cache.window_level, WindowCommand::ReportWindowLevelUnsupported));
    let s = then(s, step(window.transparent != cache.transparent, WindowCommand::ReportTransparentUnsupported));
    let s = then(s, step(reverts_canvas(window, cache, platform), WindowCommand::RevertCanvas));
    let s = then(s, step(window.ime_enabled != cache.ime_enabled, WindowCommand::ReportImeEnabledUnsupported));
    let s = then(s, step(flags.ime_position_changed, WindowCommand::ReportImePositionUnsupported));
    let s = then(s, step(window.window_theme != cache.window_theme, WindowCommand::ReportWindowThemeUnsupported));
    then(s, step(window.visible != cache.visible, if window.visible {
        WindowCommand::Show
    } else {
        WindowCommand::Hide
    }))
}

/// The reports of the iOS settings that changed, after `s`, on iOS.
pub open spec fn ios_commands(s: Seq<WindowCommand>, window: WindowSettings, cache: WindowSettings, platform: TargetPlatform) -> Seq<WindowCommand> {
    let ios = platform.ios;
    let s = then(s, step(ios && window.recognize_pinch_gesture != cache.recognize_pinch_gesture, WindowCommand::ReportPinchGestureUnsupported));
    let s = then(s, step(ios && window.recognize_rotation_gesture != cache.recognize_rotation_gesture, WindowCommand::ReportRotationGestureUnsupported));
    let s = then(s, step(ios && window.recognize_doubletap_gesture != cache.recognize_doubletap_gesture, WindowCommand::ReportDoubletapGestureUnsupported));
    let s = then(s, step(ios && window.recognize_pan_gesture != cache.recognize_pan_gesture, WindowCommand::ReportPanGestureUnsupported));
    let s = then(s, step(ios && window.prefers_home_indicator_hidden != cache.prefers_home_indicator_hidden, WindowCommand::ReportHomeIndicatorUnsupported));
    let s = then(s, step(ios && window.prefers_status_bar_hidden != cache.prefers_status_bar_hidden, WindowCommand::ReportStatusBarUnsupported));
    then(s, step(
        ios && window.preferred_screen_edges_deferring_system_gestures != cache.preferred_screen_edges_deferring_system_gestures,
        WindowCommand::ReportScreenEdgesUnsupported,
    ))
}

/// The commands that bring an SDL window in line with a changed Bevy window, in
/// the order they are applied.
pub open spec fn spec_window_commands(window: WindowSettings, cache: WindowSettings, flags: WindowChangeFlags, platform: TargetPlatform) -> Seq<WindowCommand> {
    ios_commands(
        state_commands(
            request_commands(shape_commands(Seq::empty(), window, cache, flags), window, cache, flags),
            window,
            cache,
            flags,
            platform,
        ),
        window,
        cache,
        platform,
    )
}

/// The window after a pass: its pending requests are taken and, where the pass
/// reverts it, its canvas is the cached one.
pub open spec fn spec_window_after_pass(window: WindowSettings, cache: WindowSettings, platform: TargetPlatform) -> WindowSettings {
    WindowSettings {
        canvas: if reverts_canvas(window, cache, platform) { cache.canvas } else { window.canvas },
        requests: WindowRequests::spec_none(),
        ..window
    }
}

fn push_if(commands: &mut Vec<WindowCommand>, cond: bool, command: WindowCommand)
    ensures
        final(commands)@ == then(old(commands)@, step(cond, command)),
{
    reveal(step);
    reveal(then);
    if cond {
        commands.push(command);
    }
    assert(final(commands)@ =~= old(commands)@ + step(cond, command));
}

fn push_request(commands: &mut Vec<WindowCommand>, request: Option<bool>, yes: WindowCommand)
    ensures
        final(commands)@ == then(old(commands)@, request_step(request, yes)),
{
    match request {
        Some(true) => commands.push(yes),
        Some(false) => commands.push(WindowCommand::Restore),
        None => {},
    }
    reveal(request_step);
    reveal(then);
    assert(final(commands)@ =~= old(commands)@ + request_step(request, yes));
}

fn push_resize(commands: &mut Vec<WindowCommand>, request: Option<CompassOctant>)
    ensures
        final(commands)@ == then(old(commands)@, resize_step(request)),
{
    match request {
        Some(direction) => commands.push(WindowCommand::ReportResizeUnsupported(direction)),
        None => {},
    }
    reveal(resize_step);
    reveal(then);
    assert(final(commands)@ =~= old(commands)@ + resize_step(request));
}

fn mode_command(mode: WindowMode) -> (command: WindowCommand)
    ensures
        command == spec_mode_command(mode),
{
    match mode {
        WindowMode::Windowed => WindowCommand::ApplyMode { monitor: None, video_mode: None, fullscreen: false },
        WindowMode::BorderlessFullscreen(m) => WindowCommand::ApplyMode {
            monitor: Some(m),
            video_mode: None,
            fullscreen: true,
        },
        WindowMode::Fullscreen(m, v) => WindowCommand::ApplyMode {
            monitor: Some(m),
            video_mode: Some(v),
            fullscreen: true,
        },
    }
}

fn position_command(position: WindowPosition) -> (command: WindowCommand)
    ensures
        command == spec_position_command(position),
{
    match position {
        WindowPosition::Automatic => WindowCommand::ApplyPosition {
            monitor: None,
            x: WindowPos::Undefined,
            y: WindowPos::Undefined,
        },
        WindowPosition::Centered(m) => WindowCommand::ApplyPosition {
            monitor: Some(m),
            x: WindowPos::Centered,
            y: WindowPos::Centered,
        },
        WindowPosition::At(x, y) => WindowCommand::ApplyPosition {
            monitor: None,
            x: WindowPos::Positioned(x),
            y: WindowPos::Positioned(y),
        },
    }
}

fn push_shape_commands(c: &mut Vec<WindowCommand>, window: &WindowSettings, cache: &WindowSettings, flags: &WindowChangeFlags)
    ensures
        final(c)@ == shape_commands(old(c)@, *window, *cache, *flags),
{
    push_if(c, window.title != cache.title, WindowCommand::SetTitle);
    push_if(c, window.mode != cache.mode, mode_command(window.mode));
    push_if(c, window.position != cache.position, position_command(window.position));
    push_if(c, flags.resolution_changed && flags.size_changed, WindowCommand::ApplySize);
    push_if(c, flags.resolution_changed && flags.scale_factor_changed, WindowCommand::AnnounceScaleFactor);
    push_if(c, flags.cursor_moved, WindowCommand::WarpCursor);
    push_if(c, window.decorations != cache.decorations, WindowCommand::SetBordered(window.decorations));
}

fn push_request_commands(c: &mut Vec<WindowCommand>, window: &WindowSettings, cache: &WindowSettings, flags: &WindowChangeFlags)
    ensures
        final(c)@ == request_commands(old(c)@, *window, *cache, *flags),
{
    push_if(c, window.resizable != cache.resizable, WindowCommand::ReportResizableUnsupported);
    push_if(c, window.enabled_buttons != cache.enabled_buttons, WindowCommand::ReportEnabledButtonsUnsupported);
    push_if(c, flags.resize_constraints_changed, WindowCommand::ApplyResizeConstraints);
    push_if(c, true, WindowCommand::SyncMonitorLink);
    push_request(c, window.requests.maximize, WindowCommand::Maximize);
    push_request(c, window.requests.minimize, WindowCommand::Minimize);
    push_if(c, window.requests.drag_move, WindowCommand::ReportMoveUnsupported);
    push_resize(c, window.requests.drag_resize);
}

fn push_state_commands(c: &mut Vec<WindowCommand>, window: &WindowSettings, cache: &WindowSettings, flags: &WindowChangeFlags, platform: &TargetPlatform)
    ensures
        final(c)@ == state_commands(old(c)@, *window, *cache, *flags, *platform),
{
    push_if(c, window.focused != cache.focused && window.focused, WindowCommand::Raise);
    push_if(c, window.window_level != cache.window_level, WindowCommand::ReportWindowLevelUnsupported);
    push_if(c, window.transparent != cache.transparent, WindowCommand::ReportTransparentUnsupported);
    push_if(c, platform.web && !same_text(&window.canvas, &cache.canvas), WindowCommand::RevertCanvas);
    push_if(c, window.ime_enabled != cache.ime_enabled, WindowCommand::ReportImeEnabledUnsupported);
    push_if(c, flags.ime_position_changed, WindowCommand::ReportImePositionUnsupported);
    push_if(c, window.window_theme != cache.window_theme, WindowCommand::ReportWindowThemeUnsupported);
    let visibility = if window.visible {
        WindowCommand::Show
    } else {
        WindowCommand::Hide
    };
    push_if(c, window.visible != cache.visible, visibility);
}

fn push_ios_commands(c: &mut Vec<WindowCommand>, window: &WindowSettings, cache: &WindowSettings, platform: &TargetPlatform)
    ensures
        final(c)@ == ios_commands(old(c)@, *window, *cache, *platform),
{
    let ios = platform.ios;
    push_if(c, ios && window.recognize_pinch_gesture != cache.recognize_pinch_gesture, WindowCommand::ReportPinchGestureUnsupported);
    push_if(c, ios && window.recognize_rotation_gesture != cache.recognize_rotation_gesture, WindowCommand::ReportRotationGestureUnsupported);
    push_if(c, ios && window.recognize_doubletap_gesture != cache.recognize_doubletap_gesture, WindowCommand::ReportDoubletapGestureUnsupported);
    let pan_changed = match (window.recognize_pan_gesture, cache.recognize_pan_gesture) {
        (Some((low, high)), Some((cached_low, cached_high))) => low != cached_low || high != cached_high,
        (None, None) => false,
        _ => true,
    };
    push_if(c, ios && pan_changed, WindowCommand::ReportPanGestureUnsupported);
    push_if(c, ios && window.prefers_home_indicator_hidden != cache.prefers_home_indicator_hidden, WindowCommand::ReportHomeIndicatorUnsupported);
    push_if(c, ios && window.prefers_status_bar_hidden != cache.prefers_status_bar_hidden, WindowCommand::ReportStatusBarUnsupported);
    push_if(
        c,
        ios && window.preferred_screen_edges_deferring_system_gestures != cache.preferred_screen_edges_deferring_system_gestures,
        WindowCommand::ReportScreenEdgesUnsupported,
    );
}

fn window_commands(window: &WindowSettings, cache: &WindowSettings, flags: &WindowChangeFlags, platform: &TargetPlatform) -> (c: Vec<WindowCommand>)
    ensures
        c@ == spec_window_commands(*window, *cache, *flags, *platform),
{
    let mut c: Vec<WindowCommand> = Vec::new();
    assert(c@ =~= Seq::<WindowCommand>::empty());
    push_shape_commands(&mut c, window, cache, flags);
    push_request_commands(&mut c, window, cache, flags);
    push_state_commands(&mut c, window, cache, flags, platform);
    push_ios_commands(&mut c, window, cache, platform);
    c
}

fn settle(window: &mut WindowSettings, cache: &mut WindowSettings, platform: &TargetPlatform)
    ensures
        *final(window) == spec_window_after_pass(*old(window), *old(cache), *platform),
        *final(cache) == *final(window),
{
    if platform.web && !same_text(&window.canvas, &cache.canvas) {
        window.canvas = copy_text(&cache.canvas);
    }
    window.requests = WindowRequests::none();
    *cache = window.duplicate();
}

/// A pass over a changed Bevy window. With an SDL window, it decides the steps
/// that bring the SDL window in line with the Bevy window, given the cached copy
/// from the last pass, takes the window's pending requests, sets a canvas that
/// cannot change back to the cached one, and leaves the cache equal to the
/// window. Without one it returns `None` and leaves both unchanged, pending
/// requests included.
pub fn changed_windows(
    has_sdl_window: bool,
    platform: &TargetPlatform,
    window: &mut WindowSettings,
    cache: &mut WindowSettings,
    flags: &WindowChangeFlags,
) -> (commands: Option<Vec<WindowCommand>>)
    ensures
        !has_sdl_window ==> {
            &&& commands is None
            &&& *final(window) == *old(window)
            &&& *final(cache) == *old(cache)
        },
        has_sdl_window ==> {
            &&& commands is Some
            &&& commands->0@ == spec_window_commands(*old(window), *old(cache), *flags, *platform)
            &&& *final(window) == spec_window_after_pass(*old(window), *old(cache), *platform)
            &&& *final(cache) == *final(window)
        },
{
    if !has_sdl_window {
        return None;
    }
    let c = window_commands(window, cache, flags, platform);
    settle(window, cache, platform);
    Some(c)
}

/// The outcome of a cursor-options pass for one window.
#[derive(Debug, Clone, Copy, PartialEq, Eq, Structural)]
pub struct CursorUpdate {
    /// The window's cursor settings afterwards.
    pub cursor: CursorSettings,
    /// The cached copy afterwards.
    pub cache: CursorSettings,
    /// Why the grab mode could not be applied, if it could not.
    pub grab_error: Option<GrabError>,
    /// Whether the unsupported hit-test change is reported.
    pub report_hit_test: bool,
}

/// The outcome of a cursor-options pass: a failed grab restores the cached grab
/// mode, a successful one is cached; the visibility is cached while the window
/// has the mouse focus; a hit-test change is reported and cached.
pub open spec fn spec_changed_cursor_options(cursor: CursorSettings, cache: CursorSettings, grab_succeeded: bool, has_mouse_focus: bool) -> CursorUpdate {
    let grab = crate::windows::spec_attempt_grab(cursor.grab_mode, grab_succeeded);
    let new_cursor = CursorSettings {
        grab_mode: if grab is Ok { cursor.grab_mode } else { cache.grab_mode },
        ..cursor
    };
    let new_cache = CursorSettings {
        grab_mode: new_cursor.grab_mode,
        visible: if has_mouse_focus { cursor.visible } else { cache.visible },
        hit_test: cursor.hit_test,
    };
    CursorUpdate {
        cursor: new_cursor,
        cache: new_cache,
        grab_error: match grab {
            Ok(_) => None,
            Err(e) => Some(e),
        },
        report_hit_test: cursor.hit_test != cache.hit_test,
    }
}

/// Brings a window's cursor settings and their cached copy up to date after
/// trying its grab mode; `grab_succeeded` is what SDL's `set_mouse_grab` returned.
pub fn changed_cursor_options(cursor: CursorSettings, cache: CursorSettings, grab_succeeded: bool, has_mouse_focus: bool) -> (update: CursorUpdate)
    ensures
        update == spec_changed_cursor_options(cursor, cache, grab_succeeded, has_mouse_focus),
{
    let mut cursor = cursor;
    let mut cache = cache;
    let grab_error = match attempt_grab(cursor.grab_mode, grab_succeeded) {
        Ok(()) => {
            cache.grab_mode = cursor.grab_mode;
            None
        },
        Err(e) => {
            cursor.grab_mode = cache.grab_mode;
            Some(e)
        },
    };
    if has_mouse_focus {
        cache.visible = cursor.visible;
    }
    let report_hit_test = cursor.hit_test != cache.hit_test;
    if report_hit_test {
        cache.hit_test = cursor.hit_test;
    }
    CursorUpdate { cursor, cache, grab_error, report_hit_test }
}

/// After a cursor-options pass the window's grab mode and the cached one agree,
/// and so do the hit-test flags.
pub proof fn lemma_cursor_cache_agrees(cursor: CursorSettings, cache: CursorSettings, grab_succeeded: bool, has_mouse_focus: bool)
    ensures
        spec_changed_cursor_options(cursor, cache, grab_succeeded, has_mouse_focus).cursor.grab_mode
            == spec_changed_cursor_options(cursor, cache, grab_succeeded, has_mouse_focus).cache.grab_mode,
        spec_changed_cursor_options(cursor, cache, grab_succeeded, has_mouse_focus).cursor.hit_test
            == spec_changed_cursor_options(cursor, cache, grab_succeeded, has_mouse_focus).cache.hit_test,
        has_mouse_focus ==> spec_changed_cursor_options(cursor, cache, grab_succeeded, has_mouse_focus).cache.visible
            == cursor.visible,
{
}

/// A window that equals its cached copy, with no pending request and no changed
/// floating-point state, needs nothing but the monitor-link check.
pub proof fn lemma_unchanged_window(window: WindowSettings, flags: WindowChangeFlags, platform: TargetPlatform)
    requires
        window.requests == WindowRequests::spec_none(),
        !flags.resolution_changed,
        !flags.cursor_moved,
        !flags.resize_constraints_changed,
        !flags.ime_position_changed,
    ensures
        spec_window_commands(window, window, flags, platform) == seq![WindowCommand::SyncMonitorLink],
{
    reveal(step);
    reveal(request_step);
    reveal(resize_step);
    reveal(then);
    assert(spec_window_commands(window, window, flags, platform) =~= seq![WindowCommand::SyncMonitorLink]);
}

/// After a pass over a window that has an SDL window, the next pass over the
/// same window, unchanged since, finds nothing to do but the monitor-link check.
pub proof fn lemma_pass_settles(window: WindowSettings, cache: WindowSettings, flags: WindowChangeFlags, platform: TargetPlatform)
    requires
        !flags.resolution_changed,
        !flags.cursor_moved,
        !flags.resize_constraints_changed,
        !flags.ime_position_changed,
    ensures
        spec_window_commands(
            spec_window_after_pass(window, cache, platform),
            spec_window_after_pass(window, cache, platform),
            flags,
            platform,
        ) == seq![WindowCommand::SyncMonitorLink],
{
    lemma_unchanged_window(spec_window_after_pass(window, cache, platform), flags, platform);
}

/// The commands of `then(a, b)` are those of `a` and those of `b`.
pub broadcast proof fn lemma_then_contains(a: Seq<WindowCommand>, b: Seq<WindowCommand>, x: WindowCommand)
    ensures
        #[trigger] then(a, b).contains(x) <==> (a.contains(x) || b.contains(x)),
{
    reveal(then);
    let ab = a + b;
    if a.contains(x) {
        let i = choose|i: int| 0 <= i < a.len() && a[i] == x;
        assert(ab[i] == x);
    }
    if b.contains(x) {
        let i = choose|i: int| 0 <= i < b.len() && b[i] == x;
        assert(ab[a.len() + i] == x);
    }
    if ab.contains(x) {
        let i = choose|i: int| 0 <= i < ab.len() && ab[i] == x;
        if i < a.len() {
            assert(a[i] == x);
        } else {
            assert(b[i - a.len()] == x);
        }
    }
}

/// A step holds its command exactly when its condition holds.
pub broadcast proof fn lemma_step_contains(cond: bool, command: WindowCommand, x: WindowCommand)
    ensures
        #[trigger] step(cond, command).contains(x) <==> (cond && command == x),
{
    reveal(step);
    if cond {
        assert(step(cond, command)[0] == command);
    }
}

/// A maximize or minimize request step holds its command for a request to set
/// the state, and a restore for a request to unset it.
pub broadcast proof fn lemma_request_step_contains(request: Option<bool>, yes: WindowCommand, x: WindowCommand)
    ensures
        #[trigger] request_step(request, yes).contains(x) <==> (
            (request == Some(true) && x == yes) || (request == Some(false) && x == WindowCommand::Restore)),
{
    reveal(request_step);
    if request is Some {
        assert(request_step(request, yes)[0] == (if request == Some(true) { yes } else { WindowCommand::Restore }));
    }
}

/// A drag-resize request step reports the request's direction.
pub broadcast proof fn lemma_resize_step_contains(request: Option<CompassOctant>, x: WindowCommand)
    ensures
        #[trigger] resize_step(request).contains(x) <==> (
            request matches Some(d) && x == WindowCommand::ReportResizeUnsupported(d)),
{
    reveal(resize_step);
    if let Some(d) = request {
        assert(resize_step(request)[0] == WindowCommand::ReportResizeUnsupported(d));
    }
}

spec fn shape_has(window: WindowSettings, cache: WindowSettings, flags: WindowChangeFlags, x: WindowCommand) -> bool {
    ||| window.title@ != cache.title@ && x == WindowCommand::SetTitle
    ||| window.mode != cache.mode && x == spec_mode_command(window.mode)
    ||| window.position != cache.position && x == spec_position_command(window.position)
    ||| flags.resolution_changed && flags.size_changed && x == WindowCommand::ApplySize
    ||| flags.resolution_changed && flags.scale_factor_changed && x == WindowCommand::AnnounceScaleFactor
    ||| flags.cursor_moved && x == WindowCommand::WarpCursor
    ||| window.decorations != cache.decorations && x == WindowCommand::SetBordered(window.decorations)
}

spec fn request_has(window: WindowSettings, cache: WindowSettings, flags: WindowChangeFlags, x: WindowCommand) -> bool {
    ||| window.resizable != cache.resizable && x == WindowCommand::ReportResizableUnsupported
    ||| window.enabled_buttons != cache.enabled_buttons && x == WindowCommand::ReportEnabledButtonsUnsupported
    ||| flags.resize_constraints_changed && x == WindowCommand::ApplyResizeConstraints
    ||| x == WindowCommand::SyncMonitorLink
    ||| window.requests.maximize == Some(true) && x == WindowCommand::Maximize
    ||| window.requests.maximize == Some(false) && x == WindowCommand::Restore
    ||| window.requests.minimize == Some(true) && x == WindowCommand::Minimize
    ||| window.requests.minimize == Some(false) && x == WindowCommand::Restore
    ||| window.requests.drag_move && x == WindowCommand::ReportMoveUnsupported
    ||| window.requests.drag_resize matches Some(d) && x == WindowCommand::ReportResizeUnsupported(d)
}

spec fn state_has(window: WindowSettings, cache: WindowSettings, flags: WindowChangeFlags, platform: TargetPlatform, x: WindowCommand) -> bool {
    ||| window.focused != cache.focused && window.focused && x == WindowCommand::Raise
    ||| window.window_level != cache.window_level && x == WindowCommand::ReportWindowLevelUnsupported
    ||| window.transparent != cache.transparent && x == WindowCommand::ReportTransparentUnsupported
    ||| reverts_canvas(window, cache, platform) && x == WindowCommand::RevertCanvas
    ||| window.ime_enabled != cache.ime_enabled && x == WindowCommand::ReportImeEnabledUnsupported
    ||| flags.ime_position_changed && x == WindowCommand::ReportImePositionUnsupported
    ||| window.window_theme != cache.window_theme && x == WindowCommand::ReportWindowThemeUnsupported
    ||| window.visible != cache.visible && window.visible && x == WindowCommand::Show
    ||| window.visible != cache.visible && !window.visible && x == WindowCommand::Hide
}

spec fn ios_has(window: WindowSettings, cache: WindowSettings, platform: TargetPlatform, x: WindowCommand) -> bool {
    ||| platform.ios && window.recognize_pinch_gesture != cache.recognize_pinch_gesture && x == WindowCommand::ReportPinchGestureUnsupported
    ||| platform.ios && window.recognize_rotation_gesture != cache.recognize_rotation_gesture && x == WindowCommand::ReportRotationGestureUnsupported
    ||| platform.ios && window.recognize_doubletap_gesture != cache.recognize_doubletap_gesture && x == WindowCommand::ReportDoubletapGestureUnsupported
    ||| platform.ios && window.recognize_pan_gesture != cache.recognize_pan_gesture && x == WindowCommand::ReportPanGestureUnsupported
    ||| platform.ios && window.prefers_home_indicator_hidden != cache.prefers_home_indicator_hidden && x == WindowCommand::ReportHomeIndicatorUnsupported
    ||| platform.ios && window.prefers_status_bar_hidden != cache.prefers_status_bar_hidden && x == WindowCommand::ReportStatusBarUnsupported
    ||| platform.ios && window.preferred_screen_edges_deferring_system_gestures != cache.preferred_screen_edges_deferring_system_gestures
        && x == WindowCommand::ReportScreenEdgesUnsupported
}

proof fn lemma_shape_contains(s: Seq<WindowCommand>, window: WindowSettings, cache: WindowSettings, flags: WindowChangeFlags, x: WindowCommand)
    ensures
        shape_commands(s, window, cache, flags).contains(x) <==> (s.contains(x) || shape_has(window, cache, flags, x)),
{
    broadcast use {lemma_then_contains, lemma_step_contains};
}

proof fn lemma_request_contains(s: Seq<WindowCommand>, window: WindowSettings, cache: WindowSettings, flags: WindowChangeFlags, x: WindowCommand)
    ensures
        request_commands(s, window, cache, flags).contains(x) <==> (s.contains(x) || request_has(window, cache, flags, x)),
{
    broadcast use {lemma_then_contains, lemma_step_contains, lemma_request_step_contains, lemma_resize_step_contains};
}

proof fn lemma_state_contains(s: Seq<WindowCommand>, window: WindowSettings, cache: WindowSettings, flags: WindowChangeFlags, platform: TargetPlatform, x: WindowCommand)
    ensures
        state_commands(s, window, cache, flags, platform).contains(x) <==> (s.contains(x) || state_has(window, cache, flags, platform, x)),
{
    broadcast use {lemma_then_contains, lemma_step_contains};
}

proof fn lemma_ios_contains(s: Seq<WindowCommand>, window: WindowSettings, cache: WindowSettings, platform: TargetPlatform, x: WindowCommand)
    ensures
        ios_commands(s, window, cache, platform).contains(x) <==> (s.contains(x) || ios_has(window, cache, platform, x)),
{
    broadcast use {lemma_then_contains, lemma_step_contains};
}

proof fn lemma_commands_contain(window: WindowSettings, cache: WindowSettings, flags: WindowChangeFlags, platform: TargetPlatform, x: WindowCommand)
    ensures
        spec_window_commands(window, cache, flags, platform).contains(x) <==> (
            shape_has(window, cache, flags, x)
            || request_has(window, cache, flags, x)
            || state_has(window, cache, flags, platform, x)
            || ios_has(window, cache, platform, x)),
{
    let s0 = Seq::<WindowCommand>::empty();
    let s1 = shape_commands(s0, window, cache, flags);
    let s2 = request_commands(s1, window, cache, flags);
    let s3 = state_commands(s2, window, cache, flags, platform);
    lemma_shape_contains(s0, window, cache, flags, x);
    lemma_request_contains(s1, window, cache, flags, x);
    lemma_state_contains(s2, window, cache, flags, platform, x);
    lemma_ios_contains(s3, window, cache, platform, x);
    assert(!s0.contains(x));
}

/// Which commands a changed-window pass sends: each exactly when the setting or
/// request it serves calls for it. A pending maximize or minimize request sends
/// the matching command, a request to undo either sends a restore; a drag-resize
/// request is reported with its direction; the monitor link is always checked;
/// a changed visibility shows or hides the window as it now is; the canvas is
/// set back only on the web and the iOS settings are reported only on iOS.
pub proof fn lemma_window_commands_content(window: WindowSettings, cache: WindowSettings, flags: WindowChangeFlags, platform: TargetPlatform)
    ensures
        ({
            let c = spec_window_commands(window, cache, flags, platform);
            &&& c.contains(WindowCommand::SetTitle) <==> window.title@ != cache.title@
            &&& c.contains(WindowCommand::ApplySize) <==> (flags.resolution_changed && flags.size_changed)
            &&& c.contains(WindowCommand::AnnounceScaleFactor) <==> (flags.resolution_changed && flags.scale_factor_changed)
            &&& c.contains(WindowCommand::WarpCursor) <==> flags.cursor_moved
            &&& c.contains(WindowCommand::SetBordered(true)) <==> (window.decorations != cache.decorations && window.decorations)
            &&& c.contains(WindowCommand::SetBordered(false)) <==> (window.decorations != cache.decorations && !window.decorations)
            &&& c.contains(WindowCommand::ReportResizableUnsupported) <==> window.resizable != cache.resizable
            &&& c.contains(WindowCommand::ReportEnabledButtonsUnsupported) <==> window.enabled_buttons != cache.enabled_buttons
            &&& c.contains(WindowCommand::ApplyResizeConstraints) <==> flags.resize_constraints_changed
            &&& c.contains(WindowCommand::SyncMonitorLink)
            &&& c.contains(WindowCommand::Maximize) <==> window.requests.maximize == Some(true)
            &&& c.contains(WindowCommand::Minimize) <==> window.requests.minimize == Some(true)
            &&& c.contains(WindowCommand::Restore) <==> (window.requests.maximize == Some(false) || window.requests.minimize == Some(false))
            &&& c.contains(WindowCommand::ReportMoveUnsupported) <==> window.requests.drag_move
            &&& c.contains(WindowCommand::Raise) <==> (window.focused != cache.focused && window.focused)
            &&& c.contains(WindowCommand::ReportWindowLevelUnsupported) <==> window.window_level != cache.window_level
            &&& c.contains(WindowCommand::ReportTransparentUnsupported) <==> window.transparent != cache.transparent
            &&& c.contains(WindowCommand::RevertCanvas) <==> (platform.web && text_view(window.canvas) != text_view(cache.canvas))
            &&& c.contains(WindowCommand::ReportImeEnabledUnsupported) <==> window.ime_enabled != cache.ime_enabled
            &&& c.contains(WindowCommand::ReportImePositionUnsupported) <==> flags.ime_position_changed
            &&& c.contains(WindowCommand::ReportWindowThemeUnsupported) <==> window.window_theme != cache.window_theme
            &&& c.contains(WindowCommand::Show) <==> (window.visible != cache.visible && window.visible)
            &&& c.contains(WindowCommand::Hide) <==> (window.visible != cache.visible && !window.visible)
            &&& c.contains(WindowCommand::ReportPinchGestureUnsupported) <==> (platform.ios && window.recognize_pinch_gesture != cache.recognize_pinch_gesture)
            &&& c.contains(WindowCommand::ReportRotationGestureUnsupported) <==> (platform.ios && window.recognize_rotation_gesture != cache.recognize_rotation_gesture)
            &&& c.contains(WindowCommand::ReportDoubletapGestureUnsupported) <==> (platform.ios && window.recognize_doubletap_gesture != cache.recognize_doubletap_gesture)
            &&& c.contains(WindowCommand::ReportPanGestureUnsupported) <==> (platform.ios && window.recognize_pan_gesture != cache.recognize_pan_gesture)
            &&& c.contains(WindowCommand::ReportHomeIndicatorUnsupported) <==> (platform.ios && window.prefers_home_indicator_hidden != cache.prefers_home_indicator_hidden)
            &&& c.contains(WindowCommand::ReportStatusBarUnsupported) <==> (platform.ios && window.prefers_status_bar_hidden != cache.prefers_status_bar_hidden)
            &&& c.contains(WindowCommand::ReportScreenEdgesUnsupported) <==> (platform.ios
                && window.preferred_screen_edges_deferring_system_gestures != cache.preferred_screen_edges_deferring_system_gestures)
        }),
        forall|d: CompassOctant|
            #[trigger] spec_window_commands(window, cache, flags, platform).contains(WindowCommand::ReportResizeUnsupported(d))
                <==> window.requests.drag_resize == Some(d),
{
    let (w, c, f, p) = (window, cache, flags, platform);
    lemma_commands_contain(w, c, f, p, WindowCommand::SetTitle);
    lemma_commands_contain(w, c, f, p, WindowCommand::ApplySize);
    lemma_commands_contain(w, c, f, p, WindowCommand::AnnounceScaleFactor);
    lemma_commands_contain(w, c, f, p, WindowCommand::WarpCursor);
    lemma_commands_contain(w, c, f, p, WindowCommand::SetBordered(true));
    lemma_commands_contain(w, c, f, p, WindowCommand::SetBordered(false));
    lemma_commands_contain(w, c, f, p, WindowCommand::ReportResizableUnsupported);
    lemma_commands_contain(w, c, f, p, WindowCommand::ReportEnabledButtonsUnsupported);
    lemma_commands_contain(w, c, f, p, WindowCommand::ApplyResizeConstraints);
    lemma_commands_contain(w, c, f, p, WindowCommand::SyncMonitorLink);
    lemma_commands_contain(w, c, f, p, WindowCommand::Maximize);
    lemma_commands_contain(w, c, f, p, WindowCommand::Minimize);
    lemma_commands_contain(w, c, f, p, WindowCommand::Restore);
    lemma_commands_contain(w, c, f, p, WindowCommand::ReportMoveUnsupported);
    lemma_commands_contain(w, c, f, p, WindowCommand::Raise);
    lemma_commands_contain(w, c, f, p, WindowCommand::ReportWindowLevelUnsupported);
    lemma_commands_contain(w, c, f, p, WindowCommand::ReportTransparentUnsupported);
    lemma_commands_contain(w, c, f, p, WindowCommand::RevertCanvas);
    lemma_commands_contain(w, c, f, p, WindowCommand::ReportImeEnabledUnsupported);
    lemma_commands_contain(w, c, f, p, WindowCommand::ReportImePositionUnsupported);
    lemma_commands_contain(w, c, f, p, WindowCommand::ReportWindowThemeUnsupported);
    lemma_commands_contain(w, c, f, p, WindowCommand::Show);
    lemma_commands_contain(w, c, f, p, WindowCommand::Hide);
    lemma_commands_contain(w, c, f, p, WindowCommand::ReportPinchGestureUnsupported);
    lemma_commands_contain(w, c, f, p, WindowCommand::ReportRotationGestureUnsupported);
    lemma_commands_contain(w, c, f, p, WindowCommand::ReportDoubletapGestureUnsupported);
    lemma_commands_contain(w, c, f, p, WindowCommand::ReportPanGestureUnsupported);
    lemma_commands_contain(w, c, f, p, WindowCommand::ReportHomeIndicatorUnsupported);
    lemma_commands_contain(w, c, f, p, WindowCommand::ReportStatusBarUnsupported);
    lemma_commands_contain(w, c, f, p, WindowCommand::ReportScreenEdgesUnsupported);
    assert forall|d: CompassOctant|
        #[trigger] spec_window_commands(w, c, f, p).contains(WindowCommand::ReportResizeUnsupported(d))
            <==> w.requests.drag_resize == Some(d) by {
        lemma_commands_contain(w, c, f, p, WindowCommand::ReportResizeUnsupported(d));
    }
}

/// Which mode and position commands a changed-window pass sends: a changed mode
/// is applied once, windowed without a monitor or video mode, borderless
/// fullscreen on its monitor, exclusive fullscreen on its monitor in its video
/// mode; a changed position is applied once, automatic as undefined
/// coordinates, centered on its monitor, or at its coordinates.
pub proof fn lemma_window_commands_placement(window: WindowSettings, cache: WindowSettings, flags: WindowChangeFlags, platform: TargetPlatform)
    ensures
        forall|monitor: Option<MonitorSelection>, video_mode: Option<VideoModeSelection>, fullscreen: bool|
            #[trigger] spec_window_commands(window, cache, flags, platform).contains(
                WindowCommand::ApplyMode { monitor, video_mode, fullscreen },
            ) <==> (window.mode != cache.mode && match window.mode {
                WindowMode::Windowed => monitor is None && video_mode is None && !fullscreen,
                WindowMode::BorderlessFullscreen(m) => monitor == Some(m) && video_mode is None && fullscreen,
                WindowMode::Fullscreen(m, v) => monitor == Some(m) && video_mode == Some(v) && fullscreen,
            }),
        forall|monitor: Option<MonitorSelection>, x: WindowPos, y: WindowPos|
            #[trigger] spec_window_commands(window, cache, flags, platform).contains(
                WindowCommand::ApplyPosition { monitor, x, y },
            ) <==> (window.position != cache.position && match window.position {
                WindowPosition::Automatic => monitor is None && x == WindowPos::Undefined && y == WindowPos::Undefined,
                WindowPosition::Centered(m) => monitor == Some(m) && x == WindowPos::Centered && y == WindowPos::Centered,
                WindowPosition::At(px, py) => monitor is None && x == WindowPos::Positioned(px) && y == WindowPos::Positioned(py),
            }),
{
    assert forall|monitor: Option<MonitorSelection>, video_mode: Option<VideoModeSelection>, fullscreen: bool|
        #[trigger] spec_window_commands(window, cache, flags, platform).contains(
            WindowCommand::ApplyMode { monitor, video_mode, fullscreen },
        ) <==> (window.mode != cache.mode && match window.mode {
            WindowMode::Windowed => monitor is None && video_mode is None && !fullscreen,
            WindowMode::BorderlessFullscreen(m) => monitor == Some(m) && video_mode is None && fullscreen,
            WindowMode::Fullscreen(m, v) => monitor == Some(m) && video_mode == Some(v) && fullscreen,
        }) by {
        lemma_commands_contain(window, cache, flags, platform, WindowCommand::ApplyMode { monitor, video_mode, fullscreen });
    }
    assert forall|monitor: Option<MonitorSelection>, x: WindowPos, y: WindowPos|
        #[trigger] spec_window_commands(window, cache, flags, platform).contains(
            WindowCommand::ApplyPosition { monitor, x, y },
        ) <==> (window.position != cache.position && match window.position {
            WindowPosition::Automatic => monitor is None && x == WindowPos::Undefined && y == WindowPos::Undefined,
            WindowPosition::Centered(m) => monitor == Some(m) && x == WindowPos::Centered && y == WindowPos::Centered,
            WindowPosition::At(px, py) => monitor is None && x == WindowPos::Positioned(px) && y == WindowPos::Positioned(py),
        }) by {
        lemma_commands_contain(window, cache, flags, platform, WindowCommand::ApplyPosition { monitor, x, y });
    }
}

/// The stage of the pass at which a command is sent: a pass sends its
/// commands stage by stage, title first, then the mode, the position, the size,
/// the scale factor, the cursor, the decorations, the resize settings, the
/// monitor link, the maximize request (with its restore), the minimize request,
/// the drag requests, focus, the unsupported settings, the canvas, the
/// visibility, and last the iOS settings.
pub open spec fn command_stage(command: WindowCommand) -> int {
    match command {
        WindowCommand::SetTitle => 0,
        WindowCommand::ApplyMode { .. } => 1,
        WindowCommand::ApplyPosition { .. } => 2,
        WindowCommand::ApplySize => 3,
        WindowCommand::AnnounceScaleFactor => 4,
        WindowCommand::WarpCursor => 5,
        WindowCommand::SetBordered(_) => 6,
        WindowCommand::ReportResizableUnsupported => 7,
        WindowCommand::ReportEnabledButtonsUnsupported => 8,
        WindowCommand::ApplyResizeConstraints => 9,
        WindowCommand::SyncMonitorLink => 10,
        WindowCommand::Maximize => 11,
        WindowCommand::Restore => 11,
        WindowCommand::Minimize => 12,
        WindowCommand::ReportMoveUnsupported => 13,
        WindowCommand::ReportResizeUnsupported(_) => 14,
        WindowCommand::Raise => 15,
        WindowCommand::ReportWindowLevelUnsupported => 16,
        WindowCommand::ReportTransparentUnsupported => 17,
        WindowCommand::RevertCanvas => 18,
        WindowCommand::ReportImeEnabledUnsupported => 19,
        WindowCommand::ReportImePositionUnsupported => 20,
        WindowCommand::ReportWindowThemeUnsupported => 21,
        WindowCommand::Show => 22,
        WindowCommand::Hide => 22,
        WindowCommand::ReportPinchGestureUnsupported => 23,
        WindowCommand::ReportRotationGestureUnsupported => 24,
        WindowCommand::ReportDoubletapGestureUnsupported => 25,
        WindowCommand::ReportPanGestureUnsupported => 26,
        WindowCommand::ReportHomeIndicatorUnsupported => 27,
        WindowCommand::ReportStatusBarUnsupported => 28,
        WindowCommand::ReportScreenEdgesUnsupported => 29,
    }
}

spec fn staged(s: Seq<WindowCommand>) -> bool {
    forall|i: int, j: int| 0 <= i < j < s.len() ==> command_stage(#[trigger] s[i]) <= command_stage(#[trigger] s[j])
}

spec fn staged_upto(s: Seq<WindowCommand>, stage: int) -> bool {
    forall|i: int| 0 <= i < s.len() ==> command_stage(#[trigger] s[i]) <= stage
}

proof fn lemma_append_staged(s: Seq<WindowCommand>, t: Seq<WindowCommand>, low: int, high: int)
    requires
        staged(s),
        staged_upto(s, low),
        staged(t),
        forall|i: int| 0 <= i < t.len() ==> low <= command_stage(#[trigger] t[i]) <= high,
        low <= high,
    ensures
        staged(then(s, t)),
        staged_upto(then(s, t), high),
{
    reveal(then);
    let st = s + t;
    assert forall|i: int, j: int| 0 <= i < j < st.len() implies command_stage(#[trigger] st[i]) <= command_stage(#[trigger] st[j]) by {
        if j < s.len() {
            assert(st[i] == s[i] && st[j] == s[j]);
        } else if i < s.len() {
            assert(st[i] == s[i] && st[j] == t[j - s.len()]);
        } else {
            assert(st[i] == t[i - s.len()] && st[j] == t[j - s.len()]);
        }
    }
    assert forall|i: int| 0 <= i < st.len() implies command_stage(#[trigger] st[i]) <= high by {
        if i < s.len() {
            assert(st[i] == s[i]);
        } else {
            assert(st[i] == t[i - s.len()]);
        }
    }
}

proof fn lemma_step_ranked(s: Seq<WindowCommand>, cond: bool, command: WindowCommand)
    requires
        staged(s),
        staged_upto(s, command_stage(command)),
    ensures
        staged(then(s, step(cond, command))),
        staged_upto(then(s, step(cond, command)), command_stage(command)),
{
    reveal(step);
    lemma_append_staged(s, step(cond, command), command_stage(command), command_stage(command));
}

proof fn lemma_shape_staged(s0: Seq<WindowCommand>, window: WindowSettings, cache: WindowSettings, flags: WindowChangeFlags)
    requires
        staged(s0),
        staged_upto(s0, 0),
    ensures
        staged(shape_commands(s0, window, cache, flags)),
        staged_upto(shape_commands(s0, window, cache, flags), 6),
{
    let t1 = then(s0, step(window.title@ != cache.title@, WindowCommand::SetTitle));
    lemma_step_ranked(s0, window.title@ != cache.title@, WindowCommand::SetTitle);
    let t2 = then(t1, step(window.mode != cache.mode, spec_mode_command(window.mode)));
    lemma_step_ranked(t1, window.mode != cache.mode, spec_mode_command(window.mode));
    let t3 = then(t2, step(window.position != cache.position, spec_position_command(window.position)));
    lemma_step_ranked(t2, window.position != cache.position, spec_position_command(window.position));
    let t4 = then(t3, step(flags.resolution_changed && flags.size_changed, WindowCommand::ApplySize));
    lemma_step_ranked(t3, flags.resolution_changed && flags.size_changed, WindowCommand::ApplySize);
    let t5 = then(t4, step(flags.resolution_changed && flags.scale_factor_changed, WindowCommand::AnnounceScaleFactor));
    lemma_step_ranked(t4, flags.resolution_changed && flags.scale_factor_changed, WindowCommand::AnnounceScaleFactor);
    let t6 = then(t5, step(flags.cursor_moved, WindowCommand::WarpCursor));
    lemma_step_ranked(t5, flags.cursor_moved, WindowCommand::WarpCursor);
    let t7 = then(t6, step(window.decorations != cache.decorations, WindowCommand::SetBordered(window.decorations)));
    lemma_step_ranked(t6, window.decorations != cache.decorations, WindowCommand::SetBordered(window.decorations));
}

proof fn lemma_request_staged(s0: Seq<WindowCommand>, window: WindowSettings, cache: WindowSettings, flags: WindowChangeFlags)
    requires
        staged(s0),
        staged_upto(s0, 7),
    ensures
        staged(request_commands(s0, window, cache, flags)),
        staged_upto(request_commands(s0, window, cache, flags), 14),
{
    reveal(request_step);
    reveal(resize_step);
    let t1 = then(s0, step(window.resizable != cache.resizable, WindowCommand::ReportResizableUnsupported));
    lemma_step_ranked(s0, window.resizable != cache.resizable, WindowCommand::ReportResizableUnsupported);
    let t2 = then(t1, step(window.enabled_buttons != cache.enabled_buttons, WindowCommand::ReportEnabledButtonsUnsupported));
    lemma_step_ranked(t1, window.enabled_buttons != cache.enabled_buttons, WindowCommand::ReportEnabledButtonsUnsupported);
    let t3 = then(t2, step(flags.resize_constraints_changed, WindowCommand::ApplyResizeConstraints));
    lemma_step_ranked(t2, flags.resize_constraints_changed, WindowCommand::ApplyResizeConstraints);
    let t4 = then(t3, step(true, WindowCommand::SyncMonitorLink));
    lemma_step_ranked(t3, true, WindowCommand::SyncMonitorLink);
    let t5 = then(t4, request_step(window.requests.maximize, WindowCommand::Maximize));
    lemma_append_staged(t4, request_step(window.requests.maximize, WindowCommand::Maximize), 11, 11);
    let t6 = then(t5, request_step(window.requests.minimize, WindowCommand::Minimize));
    lemma_append_staged(t5, request_step(window.requests.minimize, WindowCommand::Minimize), 11, 12);
    let t7 = then(t6, step(window.requests.drag_move, WindowCommand::ReportMoveUnsupported));
    lemma_step_ranked(t6, window.requests.drag_move, WindowCommand::ReportMoveUnsupported);
    lemma_append_staged(t7, resize_step(window.requests.drag_resize), 14, 14);
}

proof fn lemma_state_staged(s0: Seq<WindowCommand>, window: WindowSettings, cache: WindowSettings, flags: WindowChangeFlags, platform: TargetPlatform)
    requires
        staged(s0),
        staged_upto(s0, 15),
    ensures
        staged(state_commands(s0, window, cache, flags, platform)),
        staged_upto(state_commands(s0, window, cache, flags, platform), 22),
{
    let t1 = then(s0, step(window.focused != cache.focused && window.focused, WindowCommand::Raise));
    lemma_step_ranked(s0, window.focused != cache.focused && window.focused, WindowCommand::Raise);
    let t2 = then(t1, step(window.window_level != cache.window_level, WindowCommand::ReportWindowLevelUnsupported));
    lemma_step_ranked(t1, window.window_level != cache.window_level, WindowCommand::ReportWindowLevelUnsupported);
    let t3 = then(t2, step(window.transparent != cache.transparent, WindowCommand::ReportTransparentUnsupported));
    lemma_step_ranked(t2, window.transparent != cache.transparent, WindowCommand::ReportTransparentUnsupported);
    let t4 = then(t3, step(reverts_canvas(window, cache, platform), WindowCommand::RevertCanvas));
    lemma_step_ranked(t3, reverts_canvas(window, cache, platform), WindowCommand::RevertCanvas);
    let t5 = then(t4, step(window.ime_enabled != cache.ime_enabled, WindowCommand::ReportImeEnabledUnsupported));
    lemma_step_ranked(t4, window.ime_enabled != cache.ime_enabled, WindowCommand::ReportImeEnabledUnsupported);
    let t6 = then(t5, step(flags.ime_position_changed, WindowCommand::ReportImePositionUnsupported));
    lemma_step_ranked(t5, flags.ime_position_changed, WindowCommand::ReportImePositionUnsupported);
    let t7 = then(t6, step(window.window_theme != cache.window_theme, WindowCommand::ReportWindowThemeUnsupported));
    lemma_step_ranked(t6, window.window_theme != cache.window_theme, WindowCommand::ReportWindowThemeUnsupported);
    let t8 = then(t7, step(window.visible != cache.visible, if window.visible { WindowCommand::Show } else { WindowCommand::Hide }));
    lemma_step_ranked(t7, window.visible != cache.visible, if window.visible { WindowCommand::Show } else { WindowCommand::Hide });
}

proof fn lemma_ios_staged(s0: Seq<WindowCommand>, window: WindowSettings, cache: WindowSettings, platform: TargetPlatform)
    requires
        staged(s0),
        staged_upto(s0, 23),
    ensures
        staged(ios_commands(s0, window, cache, platform)),
{
    let ios = platform.ios;
    let t1 = then(s0, step(ios && window.recognize_pinch_gesture != cache.recognize_pinch_gesture, WindowCommand::ReportPinchGestureUnsupported));
    lemma_step_ranked(s0, ios && window.recognize_pinch_gesture != cache.recognize_pinch_gesture, WindowCommand::ReportPinchGestureUnsupported);
    let t2 = then(t1, step(ios && window.recognize_rotation_gesture != cache.recognize_rotation_gesture, WindowCommand::ReportRotationGestureUnsupported));
    lemma_step_ranked(t1, ios && window.recognize_rotation_gesture != cache.recognize_rotation_gesture, WindowCommand::ReportRotationGestureUnsupported);
    let t3 = then(t2, step(ios && window.recognize_doubletap_gesture != cache.recognize_doubletap_gesture, WindowCommand::ReportDoubletapGestureUnsupported));
    lemma_step_ranked(t2, ios && window.recognize_doubletap_gesture != cache.recognize_doubletap_gesture, WindowCommand::ReportDoubletapGestureUnsupported);
    let t4 = then(t3, step(ios && window.recognize_pan_gesture != cache.recognize_pan_gesture, WindowCommand::ReportPanGestureUnsupported));
    lemma_step_ranked(t3, ios && window.recognize_pan_gesture != cache.recognize_pan_gesture, WindowCommand::ReportPanGestureUnsupported);
    let t5 = then(t4, step(ios && window.prefers_home_indicator_hidden != cache.prefers_home_indicator_hidden, WindowCommand::ReportHomeIndicatorUnsupported));
    lemma_step_ranked(t4, ios && window.prefers_home_indicator_hidden != cache.prefers_home_indicator_hidden, WindowCommand::ReportHomeIndicatorUnsupported);
    let t6 = then(t5, step(ios && window.prefers_status_bar_hidden != cache.prefers_status_bar_hidden, WindowCommand::ReportStatusBarUnsupported));
    lemma_step_ranked(t5, ios && window.prefers_status_bar_hidden != cache.prefers_status_bar_hidden, WindowCommand::ReportStatusBarUnsupported);
    let t7 = then(t6, step(ios && window.preferred_screen_edges_deferring_system_gestures != cache.preferred_screen_edges_deferring_system_gestures, WindowCommand::ReportScreenEdgesUnsupported));
    lemma_step_ranked(t6, ios && window.preferred_screen_edges_deferring_system_gestures != cache.preferred_screen_edges_deferring_system_gestures, WindowCommand::ReportScreenEdgesUnsupported);
}

/// A changed-window pass sends its commands stage by stage, in the order that
/// [`command_stage`] gives.
pub proof fn lemma_window_commands_order(window: WindowSettings, cache: WindowSettings, flags: WindowChangeFlags, platform: TargetPlatform)
    ensures
        forall|i: int, j: int|
            0 <= i < j < spec_window_commands(window, cache, flags, platform).len()
                ==> command_stage(#[trigger] spec_window_commands(window, cache, flags, platform)[i])
                    <= command_stage(#[trigger] spec_window_commands(window, cache, flags, platform)[j]),
{
    let s0 = Seq::<WindowCommand>::empty();
    let s1 = shape_commands(s0, window, cache, flags);
    let s2 = request_commands(s1, window, cache, flags);
    let s3 = state_commands(s2, window, cache, flags, platform);
    lemma_shape_staged(s0, window, cache, flags);
    lemma_request_staged(s1, window, cache, flags);
    lemma_state_staged(s2, window, cache, flags, platform);
    lemma_ios_staged(s3, window, cache, platform);
    assert(spec_window_commands(window, cache, flags, platform) == ios_commands(s3, window, cache, platform));
}

/// A cursor-options pass: a grab that SDL applies (any mode but locked, with
/// SDL succeeding) is kept and cached with no error; any other leaves the window
/// with the cached grab mode and an error. The cached visibility follows the
/// window's while it has the mouse focus and is kept otherwise; a changed
/// hit-test flag is reported and cached. The window's visibility and hit-test
/// flag are left as they are.
pub proof fn lemma_cursor_update(cursor: CursorSettings, cache: CursorSettings, grab_succeeded: bool, has_mouse_focus: bool)
    ensures
        ({
            let u = spec_changed_cursor_options(cursor, cache, grab_succeeded, has_mouse_focus);
            let applied = cursor.grab_mode != crate::window_model::CursorGrabMode::Locked && grab_succeeded;
            &&& applied ==> u.cursor.grab_mode == cursor.grab_mode && u.cache.grab_mode == cursor.grab_mode
                && u.grab_error is None
            &&& !applied ==> u.cursor.grab_mode == cache.grab_mode && u.cache.grab_mode == cache.grab_mode
                && u.grab_error is Some
            &&& u.cursor.visible == cursor.visible
            &&& u.cursor.hit_test == cursor.hit_test
            &&& u.cache.visible == (if has_mouse_focus { cursor.visible } else { cache.visible })
            &&& u.cache.hit_test == cursor.hit_test
            &&& u.report_hit_test == (cursor.hit_test != cache.hit_test)
        }),
{
}

/// A pass takes every pending request; on the web a canvas that differs from the
/// cached one is set back to it, and elsewhere the canvas stays; every other
/// setting of the window stays as it is.
pub proof fn lemma_window_after_pass(window: WindowSettings, cache: WindowSettings, platform: TargetPlatform)
    ensures
        ({
            let after = spec_window_after_pass(window, cache, platform);
            &&& after.requests.maximize is None
            &&& after.requests.minimize is None
            &&& !after.requests.drag_move
            &&& after.requests.drag_resize is None
            &&& platform.web && text_view(window.canvas) != text_view(cache.canvas) ==> after.canvas == cache.canvas
            &&& !(platform.web && text_view(window.canvas) != text_view(cache.canvas)) ==> after.canvas == window.canvas
            &&& after.title == window.title
            &&& after.name == window.name
            &&& after.mode == window.mode
            &&& after.position == window.position
            &&& after.resizable == window.resizable
            &&& after.decorations == window.decorations
            &&& after.focused == window.focused
            &&& after.visible == window.visible
            &&& after.transparent == window.transparent
            &&& after.ime_enabled == window.ime_enabled
            &&& after.window_level == window.window_level
            &&& after.window_theme == window.window_theme
            &&& after.enabled_buttons == window.enabled_buttons
            &&& after.recognize_pinch_gesture == window.recognize_pinch_gesture
            &&& after.recognize_rotation_gesture == window.recognize_rotation_gesture
            &&& after.recognize_doubletap_gesture == window.recognize_doubletap_gesture
            &&& after.recognize_pan_gesture == window.recognize_pan_gesture
            &&& after.prefers_home_indicator_hidden == window.prefers_home_indicator_hidden
            &&& after.prefers_status_bar_hidden == window.prefers_status_bar_hidden
            &&& after.preferred_screen_edges_deferring_system_gestures == window.preferred_screen_edges_deferring_system_gestures
        }),
{
}

} // verus!

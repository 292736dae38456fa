use bevy_mod_sdl3::changes::{
    changed_cursor_options, changed_windows, TargetPlatform, WindowChangeFlags, WindowCommand,
    WindowPos,
};
use bevy_mod_sdl3::config::{FrameRate, SdlSettings, NANOS_PER_SEC, UNFOCUSED_FRAME_TIME_NANOS};
use bevy_mod_sdl3::context::{decide_window_closing, SdlContext};
use bevy_mod_sdl3::converters::{theme_from_sdl, SystemTheme};
use bevy_mod_sdl3::event::{
    handle_sdl_event, handle_sdl_window_event, EventAction, SdlEventKind, SdlWindowEvent,
    WindowNotice, WindowUpdate,
};
use bevy_mod_sdl3::monitors::{
    get_refresh_rate_millihertz, select_video_mode, split_millihertz, MonitorLinkUpdate,
    SdlMonitors, VideoModeChoice,
};
use bevy_mod_sdl3::runner::{
    can_enter_app_loop, finish_plugins_before_loop, lifecycle_change, AppLifecycle,
    AppLoopControl, AppLoopState, LoopEvent, PluginsState, SdlAppEvent, SurfaceAction,
};
use bevy_mod_sdl3::window_model::{
    CompassOctant, CursorGrabMode, CursorSettings, EnabledButtons, MonitorSelection, ScreenEdge,
    VideoMode, VideoModeSelection, WindowLevel, WindowMode, WindowPosition, WindowRequests,
    WindowSettings, WindowTheme,
};
use bevy_mod_sdl3::windows::{
    attempt_grab, cursor_visibility_update, mouse_grab_request, plan_window_build, BuildPosition,
    GrabError, SdlWindows, WindowBuildPlan, WindowId,
};

/// Creates a window in a registry, "building" it as the id and value given.
fn create_in<W>(windows: &mut SdlWindows<W>, entity: u64, id: u32, window: W) -> WindowBuildPlan {
    let (plan, made_id, _) = windows.create(&(), entity, &settings(), (640, 480), CursorGrabMode::Free, |_: &(), _: &WindowBuildPlan| (WindowId(id), window));
    assert_eq!(made_id, WindowId(id));
    plan
}

fn settings() -> WindowSettings {
    WindowSettings {
        title: "App".to_string(),
        name: None,
        mode: WindowMode::Windowed,
        position: WindowPosition::Automatic,
        resizable: true,
        decorations: true,
        focused: true,
        visible: true,
        transparent: false,
        ime_enabled: false,
        window_level: WindowLevel::Normal,
        window_theme: None,
        enabled_buttons: EnabledButtons { minimize: true, maximize: true, close: true },
        canvas: None,
        recognize_pinch_gesture: false,
        recognize_rotation_gesture: false,
        recognize_doubletap_gesture: false,
        recognize_pan_gesture: None,
        prefers_home_indicator_hidden: false,
        prefers_status_bar_hidden: false,
        preferred_screen_edges_deferring_system_gestures: ScreenEdge::NoEdge,
        requests: WindowRequests::none(),
    }
}

fn desktop() -> TargetPlatform {
    TargetPlatform { web: false, ios: false }
}

/// The fields of two window settings that a test compares.
fn same_settings(a: &WindowSettings, b: &WindowSettings) -> bool {
    a.title == b.title
        && a.name == b.name
        && a.mode == b.mode
        && a.position == b.position
        && a.visible == b.visible
        && a.focused == b.focused
        && a.canvas == b.canvas
        && a.recognize_pinch_gesture == b.recognize_pinch_gesture
        && a.requests == b.requests
}

fn no_flags() -> WindowChangeFlags {
    WindowChangeFlags {
        resolution_changed: false,
        size_changed: false,
        scale_factor_changed: false,
        cursor_moved: false,
        resize_constraints_changed: false,
        ime_position_changed: false,
    }
}

#[test]
fn default_settings_frame_rates() {
    let s = SdlSettings::default();
    assert_eq!(s.focused, FrameRate::Uncapped);
    assert_eq!(s.unfocused, FrameRate::Limited { frame_time: 16_666_667 });
    assert_eq!(s.suspended, FrameRate::Limited { frame_time: 1_000_000_000 });
    assert_eq!(UNFOCUSED_FRAME_TIME_NANOS, 16_666_667);
    assert_eq!(NANOS_PER_SEC, 1_000_000_000);
}

#[test]
fn frame_rate_selection() {
    let s = SdlSettings::default();
    assert_eq!(s.frame_rate(true, true), FrameRate::Uncapped);
    assert_eq!(s.frame_rate(true, false), s.unfocused);
    assert_eq!(s.frame_rate(false, true), s.suspended);
    assert_eq!(s.frame_rate(false, false), s.suspended);
}

#[test]
fn frame_pacing_sleeps_the_rest_of_the_frame() {
    let rate = FrameRate::Limited { frame_time: 1_000 };
    assert_eq!(rate.sleep_nanos(400), Some(600));
    assert_eq!(rate.sleep_nanos(1_000), None);
    assert_eq!(rate.sleep_nanos(5_000), None);
    assert_eq!(FrameRate::Uncapped.sleep_nanos(0), None);
    let s = rate.sleep_nanos(1).unwrap();
    assert_eq!(s + 1, 1_000);
}

#[test]
fn window_id_from_u32() {
    assert_eq!(WindowId::from(7u32), WindowId(7));
}

#[test]
fn registry_create_get_destroy() {
    let mut w: SdlWindows<&'static str> = SdlWindows::new();
    let plan = create_in(&mut w, 5, 9, "main");
    assert_eq!(plan.title, "Bevy");
    assert_eq!((plan.width, plan.height), (640, 480));
    assert_eq!(w.get(5), Some(&"main"));
    assert_eq!(w.get_entity(WindowId(9)), Some(5));
    assert_eq!(w.get(6), None);
    assert_eq!(w.get_entity(WindowId(10)), None);
    assert_eq!(w.destroy(5), Some("main"));
    assert_eq!(w.get(5), None);
    assert_eq!(w.get_entity(WindowId(9)), None);
    assert_eq!(w.destroy(5), None);
}

#[test]
fn registry_two_windows_are_independent() {
    let mut w: SdlWindows<u8> = SdlWindows::new();
    create_in(&mut w, 1, 100, 10);
    create_in(&mut w, 2, 200, 20);
    assert_eq!(w.destroy(1), Some(10));
    assert_eq!(w.get(2), Some(&20));
    assert_eq!(w.get_entity(WindowId(200)), Some(2));
}

#[test]
fn context_destroy_records_destroyed_window() {
    let mut ctx: SdlContext<(), u8, u32, ()> = SdlContext::new(());
    let (plan, id, stored) = ctx.create_window(3, &settings(), (10, 20), CursorGrabMode::Confined, |_: &(), p: &WindowBuildPlan| {
        assert_eq!(p.grab_mode, Some(CursorGrabMode::Confined));
        (WindowId(30), 1u8)
    });
    assert_eq!((plan.width, plan.height, id, *stored), (10, 20, WindowId(30), 1));
    assert_eq!(ctx.get_window(3), Some(&1));
    assert_eq!(ctx.get_window_entity(WindowId(30)), Some(3));
    assert_eq!(ctx.destroy_window(3), Some(1));
    assert_eq!(ctx.destroy_window(3), None);
    ctx.app_loop_state.record_sdl_event(0, false, Vec::new());
    let (_raw, events) = ctx.app_loop_state.force_update_app();
    assert_eq!(events.len(), 2);
    assert!(matches!(events[0], LoopEvent::Lifecycle(AppLifecycle::Idle)));
    assert!(matches!(events[1], LoopEvent::WindowDestroyed(3)));
}

#[test]
fn grab_modes() {
    assert_eq!(mouse_grab_request(CursorGrabMode::Free), Some(false));
    assert_eq!(mouse_grab_request(CursorGrabMode::Confined), Some(true));
    assert_eq!(mouse_grab_request(CursorGrabMode::Locked), None);
    assert_eq!(attempt_grab(CursorGrabMode::Free, true), Ok(()));
    assert_eq!(attempt_grab(CursorGrabMode::Free, false), Err(GrabError::ReleaseFailed));
    assert_eq!(attempt_grab(CursorGrabMode::Confined, false), Err(GrabError::GrabFailed));
    assert_eq!(attempt_grab(CursorGrabMode::Locked, true), Err(GrabError::LockedUnsupported));
    assert_eq!(GrabError::ReleaseFailed.message(), "Failed to release mouse grab");
    assert_eq!(GrabError::GrabFailed.message(), "Failed to grab mouse");
    assert_eq!(
        GrabError::LockedUnsupported.message(),
        "CursorGrabMode::Locked is not directly supported by sdl"
    );
}

#[test]
fn cursor_visibility() {
    assert_eq!(cursor_visibility_update(true, false, true), Some(false));
    assert_eq!(cursor_visibility_update(true, true, true), None);
    assert_eq!(cursor_visibility_update(false, false, true), None);
}

#[test]
fn build_plan_windowed_and_fullscreen() {
    let mut s = settings();
    let plan = plan_window_build(&s, (800, 600), CursorGrabMode::Free);
    assert_eq!(plan.title, "Bevy");
    assert_eq!(plan.position, Some(BuildPosition::Centered));
    assert_eq!(plan.monitor_selection, None);
    assert!(!plan.fullscreen && plan.resizable && !plan.borderless && plan.raise);
    assert_eq!(plan.grab_mode, None);
    assert!(!plan.updates_display_mode());

    s.name = Some("Game".to_string());
    s.position = WindowPosition::At(3, -4);
    s.decorations = false;
    let plan = plan_window_build(&s, (800, 600), CursorGrabMode::Confined);
    assert_eq!(plan.title, "Game");
    assert_eq!(plan.position, Some(BuildPosition::At(3, -4)));
    assert!(plan.borderless);
    assert_eq!(plan.grab_mode, Some(CursorGrabMode::Confined));

    let vm = VideoMode { physical_width: 800, physical_height: 600, bit_depth: 32, refresh_rate_millihertz: 60_000 };
    s.mode = WindowMode::Fullscreen(MonitorSelection::Primary, VideoModeSelection::Specific(vm));
    let plan = plan_window_build(&s, (800, 600), CursorGrabMode::Free);
    assert_eq!(plan.position, None);
    assert_eq!(plan.monitor_selection, Some(MonitorSelection::Primary));
    assert_eq!(plan.video_mode_selection, Some(VideoModeSelection::Specific(vm)));
    assert!(plan.fullscreen && plan.updates_display_mode());

    s.mode = WindowMode::BorderlessFullscreen(MonitorSelection::Index(1));
    let plan = plan_window_build(&s, (800, 600), CursorGrabMode::Free);
    assert_eq!(plan.monitor_selection, Some(MonitorSelection::Index(1)));
    assert_eq!(plan.video_mode_selection, None);
    assert!(plan.fullscreen);
}

#[test]
fn refresh_rate_from_ratio_and_float() {
    assert_eq!(get_refresh_rate_millihertz(60_000, 1_001, None), Some(59_940));
    assert_eq!(get_refresh_rate_millihertz(60, 1, Some(1)), Some(60_000));
    assert_eq!(get_refresh_rate_millihertz(0, 1, Some(59_950)), Some(59_950));
    assert_eq!(get_refresh_rate_millihertz(60, 0, None), None);
    assert_eq!(get_refresh_rate_millihertz(0, 0, Some(5_000_000_000)), None);
    assert_eq!(get_refresh_rate_millihertz(i32::MAX, 1, None), None);
    assert_eq!(split_millihertz(59_940), (59, 940));
    assert_eq!(split_millihertz(7), (0, 7));
}

#[test]
fn monitor_sync_pass() {
    let mut m = SdlMonitors::new();
    // Display 3 has no readable bounds yet; display 1 is reported twice.
    let reported = vec![(1, true), (2, true), (3, false), (1, true)];
    assert_eq!(m.new_displays(Some(&reported)), vec![1, 2]);
    let outcome = m.sync_displays(Some(&reported), &vec![10, 20], Some(1));
    assert_eq!(outcome.removed, Vec::<u64>::new());
    assert_eq!(outcome.primary, vec![true, false]);
    assert_eq!(m.entries(), &vec![(1, 10), (2, 20)]);
    assert_eq!(m.find_entity(20), Some(2));
    assert_eq!(m.find_display_entity(1), Some(10));

    // Display 1 disappears, display 3 now has bounds.
    let reported = vec![(3, true), (2, true)];
    assert_eq!(m.new_displays(Some(&reported)), vec![3]);
    let outcome = m.sync_displays(Some(&reported), &vec![30], Some(2));
    assert_eq!(outcome.removed, vec![10]);
    assert_eq!(outcome.primary, vec![false]);
    assert_eq!(m.entries(), &vec![(2, 20), (3, 30)]);
    assert_eq!(m.len(), 2);
    assert_eq!(m.find_entity(10), None);

    // Monitor 10 is gone and 30 is not primary; 20 is.
    assert_eq!(m.stale_primary_markers(Some(2), &vec![10, 20, 30]), vec![10, 30]);
    assert_eq!(m.stale_primary_markers(None, &vec![20]), vec![20]);
}

#[test]
fn monitor_sync_without_display_list_removes_all() {
    let mut m = SdlMonitors::new();
    m.sync_displays(Some(&vec![(1, true), (2, true)]), &vec![10, 20], None);
    assert_eq!(m.new_displays(None), Vec::<u32>::new());
    let outcome = m.sync_displays(None, &vec![], None);
    assert_eq!(outcome.removed, vec![10, 20]);
    assert_eq!(m.len(), 0);
}

#[test]
fn monitor_links_and_selection() {
    let mut m = SdlMonitors::new();
    m.sync_displays(Some(&vec![(1, true), (2, true)]), &vec![10, 20], None);
    assert_eq!(m.monitor_link_update(Some(10), Some(2)), MonitorLinkUpdate::Link(20));
    assert_eq!(m.monitor_link_update(Some(10), Some(1)), MonitorLinkUpdate::Keep);
    assert_eq!(m.monitor_link_update(Some(10), None), MonitorLinkUpdate::Unlink);
    assert_eq!(m.monitor_link_update(None, Some(1)), MonitorLinkUpdate::Link(10));
    assert_eq!(m.monitor_link_update(None, Some(9)), MonitorLinkUpdate::Keep);
    assert_eq!(m.monitor_link_update(Some(99), Some(2)), MonitorLinkUpdate::Keep);

    let all = vec![1, 2];
    assert_eq!(m.select_monitor(MonitorSelection::Current, 2, Some(1), &all), Some(2));
    assert_eq!(m.select_monitor(MonitorSelection::Primary, 2, Some(1), &all), Some(1));
    assert_eq!(m.select_monitor(MonitorSelection::Index(1), 1, None, &all), Some(2));
    assert_eq!(m.select_monitor(MonitorSelection::Index(2), 1, None, &all), None);
    assert_eq!(m.select_monitor(MonitorSelection::Entity(20), 1, None, &all), Some(2));
}

#[test]
fn video_mode_selection() {
    let a = VideoMode { physical_width: 800, physical_height: 600, bit_depth: 32, refresh_rate_millihertz: 60_000 };
    let b = VideoMode { physical_width: 1920, physical_height: 1080, bit_depth: 32, refresh_rate_millihertz: 60_000 };
    let modes = vec![a, b, b];
    assert_eq!(select_video_mode(VideoModeSelection::Current, &modes), VideoModeChoice::KeepCurrent);
    assert_eq!(select_video_mode(VideoModeSelection::Specific(b), &modes), VideoModeChoice::Use(1));
    let c = VideoMode { bit_depth: 16, ..a };
    assert_eq!(select_video_mode(VideoModeSelection::Specific(c), &modes), VideoModeChoice::NotAvailable);
}

#[test]
fn loop_state_lifecycle_and_updates() {
    let mut st: AppLoopState<u8, ()> = AppLoopState::new();
    assert_eq!(st.lifecycle_state(), AppLifecycle::Idle);
    assert!(!st.try_update_app());
    assert_eq!(st.resume_if_idle(), Some(true));
    assert_eq!(st.resume_if_idle(), None);
    assert!(st.try_update_app());
    let (raw, events) = st.force_update_app();
    assert!(raw.is_empty());
    assert_eq!(events.len(), 2);
    assert!(matches!(events[1], LoopEvent::Lifecycle(AppLifecycle::Running)));
    // Same lifecycle again: no forced update.
    assert!(!st.apply_lifecycle(AppLifecycle::Running));
    assert!(st.apply_lifecycle(AppLifecycle::Suspended));
    assert!(!st.try_update_app());
}

#[test]
fn loop_state_events_and_exit() {
    let mut st: AppLoopState<u8, u8> = AppLoopState::new();
    st.push_destroyed_window(4);
    st.push_destroyed_window(5);
    st.record_sdl_event(1, false, vec![LoopEvent::Window(9)]);
    assert!(!st.should_exit(false));
    assert!(st.should_exit(true));
    st.record_sdl_event(2, true, Vec::new());
    st.record_sdl_event(3, false, Vec::new());
    assert!(st.should_exit(false));
    let (raw, events) = st.force_update_app();
    assert_eq!(raw, vec![1, 2, 3]);
    assert_eq!(events.len(), 4);
    assert!(matches!(events[1], LoopEvent::Window(9)));
    assert!(matches!(events[2], LoopEvent::WindowDestroyed(4)));
    assert!(matches!(events[3], LoopEvent::WindowDestroyed(5)));
    let (raw, events) = st.force_update_app();
    assert!(raw.is_empty() && events.is_empty());
}

#[test]
fn window_creation_request_is_taken_once() {
    let mut st: AppLoopState<u8, u8> = AppLoopState::new();
    assert!(st.take_needs_to_create_sdl_windows());
    assert!(!st.take_needs_to_create_sdl_windows());
    st.request_window_creation();
    assert!(st.take_needs_to_create_sdl_windows());
}

#[test]
fn loop_control_schedule() {
    let mut c = AppLoopControl::new();
    let p = c.begin_frame();
    assert!(p.sync_monitors && p.poll_events && !p.last_frame);
    assert!(c.end_frame(false));
    let p = c.begin_frame();
    assert!(!p.sync_monitors && p.poll_events && !p.last_frame);
    assert!(!c.end_frame(true));
    let p = c.begin_frame();
    assert!(!p.sync_monitors && !p.poll_events && p.last_frame);
}

#[test]
fn plugin_states() {
    assert_eq!(can_enter_app_loop(PluginsState::Cleaned), (true, false));
    assert_eq!(can_enter_app_loop(PluginsState::Ready), (false, true));
    assert!(finish_plugins_before_loop(PluginsState::Ready));
    assert!(!finish_plugins_before_loop(PluginsState::Adding));
}

#[test]
fn lifecycle_events() {
    assert_eq!(lifecycle_change(SdlAppEvent::WillEnterBackground), (AppLifecycle::WillSuspend, SurfaceAction::Destroy));
    assert_eq!(lifecycle_change(SdlAppEvent::DidEnterBackground), (AppLifecycle::Suspended, SurfaceAction::Keep));
    assert_eq!(lifecycle_change(SdlAppEvent::WillEnterForeground), (AppLifecycle::WillResume, SurfaceAction::Keep));
    assert_eq!(lifecycle_change(SdlAppEvent::DidEnterForeground), (AppLifecycle::Running, SurfaceAction::EnsureExists));
    assert!(!AppLifecycle::Suspended.is_active());
    assert!(AppLifecycle::WillSuspend.is_active());
}

#[test]
fn sdl_events() {
    let mut w: SdlWindows<u8> = SdlWindows::new();
    create_in(&mut w, 8, 2, 0);
    assert_eq!(handle_sdl_event(None::<&SdlWindows<u8>>, &SdlEventKind::Quit), EventAction::ExitLoop);
    assert_eq!(
        handle_sdl_event(None::<&SdlWindows<u8>>, &SdlEventKind::Window { window_id: 2, win_event: SdlWindowEvent::Shown }),
        EventAction::Ignore
    );
    let w = &w;
    assert!(handle_sdl_event(Some(w), &SdlEventKind::AppTerminating).requests_exit());
    assert!(!handle_sdl_event(Some(w), &SdlEventKind::Other).requests_exit());
    assert_eq!(
        handle_sdl_event(Some(w), &SdlEventKind::Window { window_id: 2, win_event: SdlWindowEvent::Moved(1, 2) }),
        EventAction::Window { entity: 8, response: handle_sdl_window_event(SdlWindowEvent::Moved(1, 2)) }
    );
    assert_eq!(
        handle_sdl_event(Some(w), &SdlEventKind::Window { window_id: 3, win_event: SdlWindowEvent::Shown }),
        EventAction::Ignore
    );
    assert_eq!(handle_sdl_event(Some(w), &SdlEventKind::MouseMotion { window_id: 2 }), EventAction::MouseMotion { window: Some(8) });
    assert_eq!(handle_sdl_event(Some(w), &SdlEventKind::MouseMotion { window_id: 5 }), EventAction::MouseMotion { window: None });
}

#[test]
fn window_event_table() {
    let r = handle_sdl_window_event(SdlWindowEvent::Resized(640, 480));
    assert_eq!(r.update, WindowUpdate::SetLogicalSize(640, 480));
    assert_eq!(r.notice, WindowNotice::ResizedToWindowSize);
    let r = handle_sdl_window_event(SdlWindowEvent::MouseLeave);
    assert_eq!(r.update, WindowUpdate::ClearCursorPosition);
    assert_eq!(r.notice, WindowNotice::CursorLeft);
    let r = handle_sdl_window_event(SdlWindowEvent::Exposed);
    assert_eq!(r.notice, WindowNotice::Occluded(false));
    let r = handle_sdl_window_event(SdlWindowEvent::FocusLost);
    assert_eq!(r.update, WindowUpdate::SetFocused(false));
    assert_eq!(r.notice, WindowNotice::Focused(false));
    let r = handle_sdl_window_event(SdlWindowEvent::Restored);
    assert_eq!(r.update, WindowUpdate::Unchanged);
    assert_eq!(r.notice, WindowNotice::Silent);
}

#[test]
fn theme_conversion() {
    assert_eq!(theme_from_sdl(SystemTheme::Unknown), None);
    assert_eq!(theme_from_sdl(SystemTheme::Light), Some(WindowTheme::Light));
    assert_eq!(theme_from_sdl(SystemTheme::Dark), Some(WindowTheme::Dark));
}

#[test]
fn unchanged_window_only_syncs_monitor_link() {
    let mut s = settings();
    let mut cache = settings();
    assert_eq!(
        changed_windows(true, &desktop(), &mut s, &mut cache, &no_flags()),
        Some(vec![WindowCommand::SyncMonitorLink])
    );
    let mut other = settings();
    other.visible = false;
    other.requests.maximize = Some(true);
    let mut cache = settings();
    assert_eq!(changed_windows(false, &desktop(), &mut other, &mut cache, &no_flags()), None);
    // Without an SDL window the pending request stays and the cache is untouched.
    assert_eq!(other.requests.maximize, Some(true));
    assert!(cache.visible);
}

#[test]
fn changed_window_commands_in_order() {
    let mut cache = settings();
    let mut w = settings();
    w.title = "New".to_string();
    w.position = WindowPosition::At(10, 20);
    w.mode = WindowMode::BorderlessFullscreen(MonitorSelection::Current);
    w.visible = false;
    w.focused = true;
    w.requests.maximize = Some(false);
    w.requests.drag_resize = Some(CompassOctant::North);
    let mut flags = no_flags();
    flags.resolution_changed = true;
    flags.size_changed = true;
    let cmds = changed_windows(true, &desktop(), &mut w, &mut cache, &flags);
    assert_eq!(
        cmds,
        Some(vec![
            WindowCommand::SetTitle,
            WindowCommand::ApplyMode { monitor: Some(MonitorSelection::Current), video_mode: None, fullscreen: true },
            WindowCommand::ApplyPosition { monitor: None, x: WindowPos::Positioned(10), y: WindowPos::Positioned(20) },
            WindowCommand::ApplySize,
            WindowCommand::SyncMonitorLink,
            WindowCommand::Restore,
            WindowCommand::ReportResizeUnsupported(CompassOctant::North),
            WindowCommand::Hide,
        ])
    );
    // The requests are taken and the cache now equals the window.
    assert_eq!(w.requests, WindowRequests::none());
    assert!(same_settings(&w, &cache));
    assert_eq!(cache.title, "New");
    // A second pass finds nothing more to do.
    assert_eq!(
        changed_windows(true, &desktop(), &mut w, &mut cache, &no_flags()),
        Some(vec![WindowCommand::SyncMonitorLink])
    );
}

#[test]
fn web_canvas_is_reverted() {
    let mut cache = settings();
    cache.canvas = Some("#game".to_string());
    let mut w = settings();
    w.canvas = Some("#other".to_string());
    w.transparent = true;
    let web = TargetPlatform { web: true, ios: false };
    let cmds = changed_windows(true, &web, &mut w, &mut cache, &no_flags());
    assert_eq!(
        cmds,
        Some(vec![
            WindowCommand::SyncMonitorLink,
            WindowCommand::ReportTransparentUnsupported,
            WindowCommand::RevertCanvas,
        ])
    );
    assert_eq!(w.canvas, Some("#game".to_string()));
    assert!(same_settings(&w, &cache));

    // Elsewhere the canvas is taken as it is.
    let mut cache = settings();
    let mut w = settings();
    w.canvas = Some("#other".to_string());
    let cmds = changed_windows(true, &desktop(), &mut w, &mut cache, &no_flags());
    assert_eq!(cmds, Some(vec![WindowCommand::SyncMonitorLink]));
    assert_eq!(cache.canvas, Some("#other".to_string()));
}

#[test]
fn ios_settings_are_reported() {
    let mut cache = settings();
    let mut w = settings();
    w.recognize_pinch_gesture = true;
    w.recognize_pan_gesture = Some((1, 2));
    w.preferred_screen_edges_deferring_system_gestures = ScreenEdge::All;
    w.visible = false;
    let ios = TargetPlatform { web: false, ios: true };
    let cmds = changed_windows(true, &ios, &mut w.clone(), &mut cache.clone(), &no_flags());
    assert_eq!(
        cmds,
        Some(vec![
            WindowCommand::SyncMonitorLink,
            WindowCommand::Hide,
            WindowCommand::ReportPinchGestureUnsupported,
            WindowCommand::ReportPanGestureUnsupported,
            WindowCommand::ReportScreenEdgesUnsupported,
        ])
    );
    let cmds = changed_windows(true, &desktop(), &mut w, &mut cache, &no_flags());
    assert_eq!(cmds, Some(vec![WindowCommand::SyncMonitorLink, WindowCommand::Hide]));
}

#[test]
fn cursor_options_cache() {
    let cursor = CursorSettings { grab_mode: CursorGrabMode::Locked, visible: false, hit_test: false };
    let cache = CursorSettings { grab_mode: CursorGrabMode::Free, visible: true, hit_test: true };
    let u = changed_cursor_options(cursor, cache, true, true);
    assert_eq!(u.grab_error, Some(GrabError::LockedUnsupported));
    assert_eq!(u.cursor.grab_mode, CursorGrabMode::Free);
    assert_eq!(u.cache.grab_mode, CursorGrabMode::Free);
    assert!(!u.cache.visible);
    assert!(u.report_hit_test);
    assert!(!u.cache.hit_test);

    let cursor = CursorSettings { grab_mode: CursorGrabMode::Confined, visible: false, hit_test: true };
    let u = changed_cursor_options(cursor, cache, true, false);
    assert_eq!(u.grab_error, None);
    assert_eq!(u.cache.grab_mode, CursorGrabMode::Confined);
    assert!(u.cache.visible);
    assert!(!u.report_hit_test);
}

#[test]
fn window_closing_decision() {
    let d = decide_window_closing(&vec![7], &vec![(1, false), (2, true), (3, false)], false, &vec![]);
    assert_eq!(d.closing, vec![7]);
    assert_eq!(d.closed, vec![1, 3]);
    assert_eq!(d.destroy, vec![1, 3]);
    let d = decide_window_closing(&vec![], &vec![(1, false)], true, &vec![4, 5]);
    assert_eq!(d.closing, vec![4, 5]);
    assert_eq!(d.closed, vec![1]);
    assert_eq!(d.destroy, vec![1, 4, 5]);
}

use vstd::prelude::*;

use crate::windows::{SdlWindows, WindowId};

verus! {

/// An SDL window event.
#[derive(Debug, Clone, Copy, PartialEq, Eq, Structural)]
pub enum SdlWindowEvent {
    /// SDL's `WindowEvent::None`: no window event.
    Empty,
    Shown,
    Hidden,
    Exposed,
    Moved(i32, i32),
    Resized(i32, i32),
    PixelSizeChanged(i32, i32),
    Minimized,
    Maximized,
    Occluded,
    Restored,
    MouseEnter,
    MouseLeave,
    FocusGained,
    FocusLost,
    CloseRequested,
    HitTest(i32, i32),
    ICCProfChanged,
    DisplayChanged(i32),
    EnterFullscreen,
    LeaveFullscreen,
}

/// The SDL events that the backend reacts to; all others are `Other`.
#[derive(Debug, Clone, Copy, PartialEq, Eq, Structural)]
pub enum SdlEventKind {
    Quit,
    AppTerminating,
    Window { window_id: u32, win_event: SdlWindowEvent },
    MouseMotion { window_id: u32 },
    Other,
}

/// How a Bevy window changes for an SDL window event.
#[derive(Debug, Clone, Copy, PartialEq, Eq, Structural)]
pub enum WindowUpdate {
    Unchanged,
    SetVisible(bool),
    SetPosition(i32, i32),
    /// Set the logical size of the window's resolution.
    SetLogicalSize(i32, i32),
    /// Set the physical size of the window's resolution.
    SetPhysicalSize(i32, i32),
    SetMinimized,
    SetMaximized,
    ClearCursorPosition,
    SetFocused(bool),
}

/// The Bevy window event sent for an SDL window event.
#[derive(Debug, Clone, Copy, PartialEq, Eq, Structural)]
pub enum WindowNotice {
    Silent,
    Occluded(bool),
    Moved(i32, i32),
    /// A resize to the window's size after the update; sent only when the
    /// window still exists.
    ResizedToWindowSize,
    CursorEntered,
    CursorLeft,
    Focused(bool),
    CloseRequested,
}

/// The reaction to an SDL window event.
#[derive(Debug, Clone, Copy, PartialEq, Eq, Structural)]
pub struct WindowEventResponse {
    pub update: WindowUpdate,
    pub notice: WindowNotice,
}

/// The reaction to each SDL window event.
pub open spec fn spec_window_event_response(event: SdlWindowEvent) -> WindowEventResponse {
    let (update, notice) = match event {
        SdlWindowEvent::Shown => (WindowUpdate::SetVisible(true), WindowNotice::Silent),
        SdlWindowEvent::Hidden => (WindowUpdate::SetVisible(false), WindowNotice::Silent),
        SdlWindowEvent::Exposed => (WindowUpdate::Unchanged, WindowNotice::Occluded(false)),
        SdlWindowEvent::Moved(x, y) => (WindowUpdate::SetPosition(x, y), WindowNotice::Moved(x, y)),
        SdlWindowEvent::Resized(w, h) => (WindowUpdate::SetLogicalSize(w, h), WindowNotice::ResizedToWindowSize),
        SdlWindowEvent::PixelSizeChanged(w, h) => (WindowUpdate::SetPhysicalSize(w, h), WindowNotice::ResizedToWindowSize),
        SdlWindowEvent::Minimized => (WindowUpdate::SetMinimized, WindowNotice::Silent),
        SdlWindowEvent::Maximized => (WindowUpdate::SetMaximized, WindowNotice::Silent),
        SdlWindowEvent::Occluded => (WindowUpdate::Unchanged, WindowNotice::Occluded(true)),
        SdlWindowEvent::MouseEnter => (WindowUpdate::Unchanged, WindowNotice::CursorEntered),
        SdlWindowEvent::MouseLeave => (WindowUpdate::ClearCursorPosition, WindowNotice::CursorLeft),
        SdlWindowEvent::FocusGained => (WindowUpdate::SetFocused(true), WindowNotice::Focused(true)),
        SdlWindowEvent::FocusLost => (WindowUpdate::SetFocused(false), WindowNotice::Focused(false)),
        SdlWindowEvent::CloseRequested => (WindowUpdate::Unchanged, WindowNotice::CloseRequested),
        _ => (WindowUpdate::Unchanged, WindowNotice::Silent),
    };
    WindowEventResponse { update, notice }
}

/// Decides how a Bevy window reacts to an SDL window event: the change to the
/// window and the window event sent.
pub fn handle_sdl_window_event(event: SdlWindowEvent) -> (response: WindowEventResponse)
    ensures
        response == spec_window_event_response(event),
{
    let (update, notice) = match event {
        SdlWindowEvent::Empty => (WindowUpdate::Unchanged, WindowNotice::Silent),
        SdlWindowEvent::Shown => (WindowUpdate::SetVisible(true), WindowNotice::Silent),
        SdlWindowEvent::Hidden => (WindowUpdate::SetVisible(false), WindowNotice::Silent),
        SdlWindowEvent::Exposed => (WindowUpdate::Unchanged, WindowNotice::Occluded(false)),
        SdlWindowEvent::Moved(x, y) => (WindowUpdate::SetPosition(x, y), WindowNotice::Moved(x, y)),
        SdlWindowEvent::Resized(w, h) => (WindowUpdate::SetLogicalSize(w, h), WindowNotice::ResizedToWindowSize),
        SdlWindowEvent::PixelSizeChanged(w, h) => (WindowUpdate::SetPhysicalSize(w, h), WindowNotice::ResizedToWindowSize),
        SdlWindowEvent::Minimized => (WindowUpdate::SetMinimized, WindowNotice::Silent),
        SdlWindowEvent::Maximized => (WindowUpdate::SetMaximized, WindowNotice::Silent),
        SdlWindowEvent::Occluded => (WindowUpdate::Unchanged, WindowNotice::Occluded(true)),
        SdlWindowEvent::Restored => (WindowUpdate::Unchanged, WindowNotice::Silent),
        SdlWindowEvent::MouseEnter => (WindowUpdate::Unchanged, WindowNotice::CursorEntered),
        SdlWindowEvent::MouseLeave => (WindowUpdate::ClearCursorPosition, WindowNotice::CursorLeft),
        SdlWindowEvent::FocusGained => (WindowUpdate::SetFocused(true), WindowNotice::Focused(true)),
        SdlWindowEvent::FocusLost => (WindowUpdate::SetFocused(false), WindowNotice::Focused(false)),
        SdlWindowEvent::CloseRequested => (WindowUpdate::Unchanged, WindowNotice::CloseRequested),
        SdlWindowEvent::HitTest(_, _) => (WindowUpdate::Unchanged, WindowNotice::Silent),
        SdlWindowEvent::ICCProfChanged => (WindowUpdate::Unchanged, WindowNotice::Silent),
        SdlWindowEvent::DisplayChanged(_) => (WindowUpdate::Unchanged, WindowNotice::Silent),
        SdlWindowEvent::EnterFullscreen => (WindowUpdate::Unchanged, WindowNotice::Silent),
        SdlWindowEvent::LeaveFullscreen => (WindowUpdate::Unchanged, WindowNotice::Silent),
    };
    WindowEventResponse { update, notice }
}

/// What the loop does for an SDL event.
#[derive(Debug, Clone, Copy, PartialEq, Eq, Structural)]
pub enum EventAction {
    /// End the application loop.
    ExitLoop,
    /// Apply a window event to the window of this entity.
    Window { entity: u64, response: WindowEventResponse },
    /// Send the mouse motion, and move the cursor of this window entity if any.
    MouseMotion { window: Option<u64> },
    /// Nothing to do.
    Ignore,
}

impl EventAction {
    /// Whether the event asks the application loop to exit.
    pub fn requests_exit(&self) -> (exit: bool)
        ensures
            exit == (*self is ExitLoop),
    {
        match self {
            EventAction::ExitLoop => true,
            _ => false,
        }
    }
}

/// The entity of an SDL window id, when the registry is at hand and knows it.
pub open spec fn spec_lookup<W>(windows: Option<&SdlWindows<W>>, window_id: u32) -> Option<u64> {
    match windows {
        Some(w) => w.spec_get_entity(WindowId(window_id)),
        None => None,
    }
}

/// The action for an SDL event, given the window registry if there is one.
pub open spec fn spec_event_action<W>(windows: Option<&SdlWindows<W>>, event: SdlEventKind) -> EventAction {
    match event {
        SdlEventKind::Quit | SdlEventKind::AppTerminating => EventAction::ExitLoop,
        SdlEventKind::Window { window_id, win_event } => match spec_lookup(windows, window_id) {
            Some(entity) => EventAction::Window {
                entity,
                response: spec_window_event_response(win_event),
            },
            None => EventAction::Ignore,
        },
        SdlEventKind::MouseMotion { window_id } => EventAction::MouseMotion {
            window: spec_lookup(windows, window_id),
        },
        SdlEventKind::Other => EventAction::Ignore,
    }
}

fn lookup<W>(windows: Option<&SdlWindows<W>>, window_id: u32) -> (entity: Option<u64>)
    ensures
        entity == spec_lookup(windows, window_id),
{
    match windows {
        Some(w) => w.get_entity(WindowId::from(window_id)),
        None => None,
    }
}

/// Decides what the loop does for an SDL event: quitting and app termination end
/// the loop, whether or not the registry (`windows`) is at hand; a window event
/// goes to the window's entity when the window is known; mouse motion is sent,
/// with the window's entity when known.
pub fn handle_sdl_event<W>(windows: Option<&SdlWindows<W>>, event: &SdlEventKind) -> (action: EventAction)
    ensures
        action == spec_event_action(windows, *event),
{
    match event {
        SdlEventKind::Quit | SdlEventKind::AppTerminating => EventAction::ExitLoop,
        SdlEventKind::Window { window_id, win_event } => {
            match lookup(windows, *window_id) {
                Some(entity) => EventAction::Window {
                    entity,
                    response: handle_sdl_window_event(*win_event),
                },
                None => EventAction::Ignore,
            }
        },
        SdlEventKind::MouseMotion { window_id } => EventAction::MouseMotion {
            window: lookup(windows, *window_id),
        },
        SdlEventKind::Other => EventAction::Ignore,
    }
}

/// Only quitting and app termination end the loop; an event for a window the
/// registry does not know changes nothing.
pub proof fn lemma_exit_events<W>(windows: Option<&SdlWindows<W>>, event: SdlEventKind)
    ensures
        spec_event_action(windows, event) is ExitLoop <==> (event is Quit || event is AppTerminating),
        (event matches SdlEventKind::Window { window_id, .. } && spec_lookup(windows, window_id) is None)
            ==> spec_event_action(windows, event) is Ignore,
{
}

/// Every focus change and move is announced to Bevy; a close request changes
/// nothing but is announced.
pub proof fn lemma_window_events_announced(x: i32, y: i32)
    ensures
        spec_window_event_response(SdlWindowEvent::FocusGained).notice == WindowNotice::Focused(true),
        spec_window_event_response(SdlWindowEvent::FocusLost).notice == WindowNotice::Focused(false),
        spec_window_event_response(SdlWindowEvent::Moved(x, y)) == (WindowEventResponse {
            update: WindowUpdate::SetPosition(x, y),
            notice: WindowNotice::Moved(x, y),
        }),
        spec_window_event_response(SdlWindowEvent::CloseRequested) == (WindowEventResponse {
            update: WindowUpdate::Unchanged,
            notice: WindowNotice::CloseRequested,
        }),
{
}

/// What each SDL window event does to its Bevy window and which window event it
/// sends: showing and hiding set the visibility, moves and resizes set the
/// position and sizes and are announced, minimizing and maximizing set those
/// states, occlusion and exposure are announced, the cursor leaving clears its
/// position, focus changes set the focus and are announced, a close request is
/// announced, and the other events change nothing.
pub proof fn lemma_window_event_table(x: i32, y: i32, display: i32)
    ensures
        spec_window_event_response(SdlWindowEvent::Empty) == (WindowEventResponse { update: WindowUpdate::Unchanged, notice: WindowNotice::Silent }),
        spec_window_event_response(SdlWindowEvent::Shown) == (WindowEventResponse { update: WindowUpdate::SetVisible(true), notice: WindowNotice::Silent }),
        spec_window_event_response(SdlWindowEvent::Hidden) == (WindowEventResponse { update: WindowUpdate::SetVisible(false), notice: WindowNotice::Silent }),
        spec_window_event_response(SdlWindowEvent::Exposed) == (WindowEventResponse { update: WindowUpdate::Unchanged, notice: WindowNotice::Occluded(false) }),
        spec_window_event_response(SdlWindowEvent::Moved(x, y)) == (WindowEventResponse { update: WindowUpdate::SetPosition(x, y), notice: WindowNotice::Moved(x, y) }),
        spec_window_event_response(SdlWindowEvent::Resized(x, y)) == (WindowEventResponse { update: WindowUpdate::SetLogicalSize(x, y), notice: WindowNotice::ResizedToWindowSize }),
        spec_window_event_response(SdlWindowEvent::PixelSizeChanged(x, y)) == (WindowEventResponse { update: WindowUpdate::SetPhysicalSize(x, y), notice: WindowNotice::ResizedToWindowSize }),
        spec_window_event_response(SdlWindowEvent::Minimized) == (WindowEventResponse { update: WindowUpdate::SetMinimized, notice: WindowNotice::Silent }),
        spec_window_event_response(SdlWindowEvent::Maximized) == (WindowEventResponse { update: WindowUpdate::SetMaximized, notice: WindowNotice::Silent }),
        spec_window_event_response(SdlWindowEvent::Occluded) == (WindowEventResponse { update: WindowUpdate::Unchanged, notice: WindowNotice::Occluded(true) }),
        spec_window_event_response(SdlWindowEvent::Restored) == (WindowEventResponse { update: WindowUpdate::Unchanged, notice: WindowNotice::Silent }),
        spec_window_event_response(SdlWindowEvent::MouseEnter) == (WindowEventResponse { update: WindowUpdate::Unchanged, notice: WindowNotice::CursorEntered }),
        spec_window_event_response(SdlWindowEvent::MouseLeave) == (WindowEventResponse { update: WindowUpdate::ClearCursorPosition, notice: WindowNotice::CursorLeft }),
        spec_window_event_response(SdlWindowEvent::FocusGained) == (WindowEventResponse { update: WindowUpdate::SetFocused(true), notice: WindowNotice::Focused(true) }),
        spec_window_event_response(SdlWindowEvent::FocusLost) == (WindowEventResponse { update: WindowUpdate::SetFocused(false), notice: WindowNotice::Focused(false) }),
        spec_window_event_response(SdlWindowEvent::CloseRequested) == (WindowEventResponse { update: WindowUpdate::Unchanged, notice: WindowNotice::CloseRequested }),
        spec_window_event_response(SdlWindowEvent::HitTest(x, y)) == (WindowEventResponse { update: WindowUpdate::Unchanged, notice: WindowNotice::Silent }),
        spec_window_event_response(SdlWindowEvent::ICCProfChanged) == (WindowEventResponse { update: WindowUpdate::Unchanged, notice: WindowNotice::Silent }),
        spec_window_event_response(SdlWindowEvent::DisplayChanged(display)) == (WindowEventResponse { update: WindowUpdate::Unchanged, notice: WindowNotice::Silent }),
        spec_window_event_response(SdlWindowEvent::EnterFullscreen) == (WindowEventResponse { update: WindowUpdate::Unchanged, notice: WindowNotice::Silent }),
        spec_window_event_response(SdlWindowEvent::LeaveFullscreen) == (WindowEventResponse { update: WindowUpdate::Unchanged, notice: WindowNotice::Silent }),
{
}

/// A window event for a window the registry knows goes to that window's entity,
/// with the reaction that the event calls for.
pub proof fn lemma_known_window_event<W>(windows: &SdlWindows<W>, window_id: u32, event: SdlWindowEvent, entity: u64)
    requires
        windows.spec_get_entity(WindowId(window_id)) == Some(entity),
    ensures
        spec_event_action(Some(windows), SdlEventKind::Window { window_id, win_event: event })
            == (EventAction::Window { entity, response: spec_window_event_response(event) }),
        spec_event_action(Some(windows), SdlEventKind::MouseMotion { window_id })
            == (EventAction::MouseMotion { window: Some(entity) }),
{
}

} // verus!

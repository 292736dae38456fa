use std::collections::HashMap;
use vstd::prelude::*;

use crate::window_model::{
    CursorGrabMode, MonitorSelection, VideoModeSelection, WindowMode, WindowPosition,
    WindowSettings,
};

verus! {

broadcast use vstd::std_specs::hash::group_hash_axioms;

/// The id that SDL gives a window.
#[derive(Debug, Copy, Clone, PartialEq, Eq, Hash, Structural)]
pub struct WindowId(pub u32);

impl From<u32> for WindowId {
    fn from(value: u32) -> (id: Self)
        ensures
            id == WindowId(value),
    {
        WindowId(value)
    }
}

impl vstd::std_specs::convert::FromSpecImpl<u32> for WindowId {
    open spec fn obeys_from_spec() -> bool {
        true
    }

    open spec fn from_spec(v: u32) -> WindowId {
        WindowId(v)
    }
}

/// The SDL windows of the app, found by the bits of the Bevy entity that owns
/// them and by their SDL window id.
///
/// `W` is the window handle that the plugin keeps alive for the renderer.
pub struct SdlWindows<W> {
    windows: HashMap<u32, W>,
    entity_to_sdl: HashMap<u64, u32>,
    sdl_to_entity: HashMap<u32, u64>,
}

impl<W> SdlWindows<W> {
    /// The windows, by SDL window id.
    pub closed spec fn windows(&self) -> Map<u32, W> {
        self.windows@
    }

    /// The SDL window id of each entity's window.
    pub closed spec fn entity_to_sdl(&self) -> Map<u64, u32> {
        self.entity_to_sdl@
    }

    /// The entity that owns each SDL window id.
    pub closed spec fn sdl_to_entity(&self) -> Map<u32, u64> {
        self.sdl_to_entity@
    }

    /// The three maps agree: each entity's id maps back to the entity, each id
    /// known by entity has a window, and each window has an owning entity whose
    /// id it is. Every registry keeps this invariant.
    #[verifier::type_invariant]
    pub open spec fn wf(&self) -> bool {
        &&& forall|e: u64| #[trigger]
            self.entity_to_sdl().contains_key(e) ==> {
                &&& self.sdl_to_entity().contains_key(self.entity_to_sdl()[e])
                &&& self.sdl_to_entity()[self.entity_to_sdl()[e]] == e
                &&& self.windows().contains_key(self.entity_to_sdl()[e])
            }
        &&& forall|id: u32| #[trigger]
            self.sdl_to_entity().contains_key(id) ==> {
                &&& self.entity_to_sdl().contains_key(self.sdl_to_entity()[id])
                &&& self.entity_to_sdl()[self.sdl_to_entity()[id]] == id
            }
        &&& self.windows().dom() == self.sdl_to_entity().dom()
    }

    /// The window that `get` finds for an entity.
    pub open spec fn spec_get(&self, entity: u64) -> Option<W> {
        if self.entity_to_sdl().contains_key(entity) && self.windows().contains_key(
            self.entity_to_sdl()[entity],
        ) {
            Some(self.windows()[self.entity_to_sdl()[entity]])
        } else {
            None
        }
    }

    /// The entity that `get_entity` finds for an SDL window id.
    pub open spec fn spec_get_entity(&self, window_id: WindowId) -> Option<u64> {
        if self.sdl_to_entity().contains_key(window_id.0) {
            Some(self.sdl_to_entity()[window_id.0])
        } else {
            None
        }
    }

    /// An empty registry.
    pub fn new() -> (windows: Self)
        ensures
            windows.windows() == Map::<u32, W>::empty(),
            windows.entity_to_sdl() == Map::<u64, u32>::empty(),
            windows.sdl_to_entity() == Map::<u32, u64>::empty(),
            windows.wf(),
    {
        let r = SdlWindows {
            windows: HashMap::new(),
            entity_to_sdl: HashMap::new(),
            sdl_to_entity: HashMap::new(),
        };
        assert(r.windows().dom() =~= r.sdl_to_entity().dom());
        r
    }

    /// Creates the SDL window of `entity`: plans the build from the window's
    /// settings, size and grab mode, has `build` build it from the plan (with the
    /// SDL subsystems `handles`), and registers the built window under the id that
    /// `build` reports. Returns the plan, the id and the stored window.
    ///
    /// The entity must have no window yet, and `build` must report an id that no
    /// window has (SDL never reuses a live window's id).
    pub fn create<H, F>(
        &mut self,
        handles: &H,
        entity: u64,
        settings: &WindowSettings,
        size: (u32, u32),
        grab_mode: CursorGrabMode,
        build: F,
    ) -> (made: (WindowBuildPlan, WindowId, &W)) where F: FnOnce(&H, &WindowBuildPlan) -> (WindowId, W)
        requires
            !old(self).entity_to_sdl().contains_key(entity),
            forall|p: WindowBuildPlan|
                is_build_plan(p, *settings, size, grab_mode) ==> #[trigger] build.requires((handles, &p)),
            forall|p: WindowBuildPlan, r: (WindowId, W)|
                #[trigger] build.ensures((handles, &p), r) ==> !old(self).sdl_to_entity().contains_key(r.0.0),
        ensures
            is_build_plan(made.0, *settings, size, grab_mode),
            build.ensures((handles, &made.0), (made.1, *made.2)),
            created(*old(self), entity, made.1, *made.2, *final(self)),
            final(self).spec_get(entity) == Some(*made.2),
            final(self).spec_get_entity(made.1) == Some(entity),
            forall|e: u64| e != entity ==> #[trigger] final(self).spec_get(e) == old(self).spec_get(e),
            final(self).wf(),
    {
        proof {
            use_type_invariant(&*self);
        }
        let plan = plan_window_build(settings, size, grab_mode);
        let (id, window) = build(handles, &plan);
        let stored = self.register(entity, id, window);
        (plan, id, stored)
    }

    /// Registers the SDL window `window`, whose id is `id`, as the window of
    /// `entity`, and returns a reference to the stored window.
    fn register(&mut self, entity: u64, id: WindowId, window: W) -> (stored: &W)
        requires
            !old(self).entity_to_sdl().contains_key(entity),
            !old(self).sdl_to_entity().contains_key(id.0),
        ensures
            created(*old(self), entity, id, window, *final(self)),
            *stored == window,
            forall|e: u64| e != entity ==> #[trigger] final(self).spec_get(e) == old(self).spec_get(e),
    {
        proof {
            use_type_invariant(&*self);
        }
        let mut taken = SdlWindows::new();
        std::mem::swap(self, &mut taken);
        let SdlWindows { mut windows, mut entity_to_sdl, mut sdl_to_entity } = taken;
        windows.insert(id.0, window);
        entity_to_sdl.insert(entity, id.0);
        sdl_to_entity.insert(id.0, entity);
        proof {
            let after = SdlWindows { windows, entity_to_sdl, sdl_to_entity };
            lemma_create_keeps_wf(*old(self), entity, id, window, after);
        }
        *self = SdlWindows { windows, entity_to_sdl, sdl_to_entity };
        proof {
            assert forall|e: u64| e != entity implies #[trigger] self.spec_get(e) == old(self).spec_get(e) by {
                if old(self).entity_to_sdl().contains_key(e) {
                    assert(old(self).entity_to_sdl()[e] != id.0);
                }
            }
        }
        self.windows.get(&id.0).unwrap()
    }

    /// Removes the window of `entity` and returns it; `None`, with nothing
    /// changed, when the entity has no window id.
    pub fn destroy(&mut self, entity: u64) -> (removed: Option<W>)
        ensures
            !old(self).entity_to_sdl().contains_key(entity) ==> {
                &&& removed is None
                &&& final(self).windows() == old(self).windows()
                &&& final(self).entity_to_sdl() == old(self).entity_to_sdl()
                &&& final(self).sdl_to_entity() == old(self).sdl_to_entity()
            },
            old(self).entity_to_sdl().contains_key(entity) ==> {
                let id = old(self).entity_to_sdl()[entity];
                &&& removed == old(self).spec_get(entity)
                &&& final(self).windows() == old(self).windows().remove(id)
                &&& final(self).entity_to_sdl() == old(self).entity_to_sdl().remove(entity)
                &&& final(self).sdl_to_entity() == old(self).sdl_to_entity().remove(id)
            },
            final(self).spec_get(entity) is None,
            forall|e: u64| e != entity ==> #[trigger] final(self).spec_get(e) == old(self).spec_get(e),
    {
        proof {
            use_type_invariant(&*self);
        }
        if !self.entity_to_sdl.contains_key(&entity) {
            return None;
        }
        let mut taken = SdlWindows::new();
        std::mem::swap(self, &mut taken);
        let SdlWindows { mut windows, mut entity_to_sdl, mut sdl_to_entity } = taken;
        let id = entity_to_sdl.remove(&entity).unwrap();
        sdl_to_entity.remove(&id);
        let removed = windows.remove(&id);
        proof {
            let after = SdlWindows { windows, entity_to_sdl, sdl_to_entity };
            lemma_destroy_keeps_wf(*old(self), entity, after);
            assert forall|e: u64| e != entity implies #[trigger] after.spec_get(e) == old(self).spec_get(e) by {
                if old(self).entity_to_sdl().contains_key(e) {
                    assert(old(self).entity_to_sdl()[e] != id);
                }
            }
        }
        *self = SdlWindows { windows, entity_to_sdl, sdl_to_entity };
        removed
    }

    /// The window of `entity`, if it has one.
    pub fn get(&self, entity: u64) -> (window: Option<&W>)
        ensures
            match window {
                Some(w) => self.spec_get(entity) == Some(*w),
                None => self.spec_get(entity) is None,
            },
    {
        let id = match self.entity_to_sdl.get(&entity) {
            Some(id) => id,
            None => {
                return None;
            },
        };
        self.windows.get(id)
    }

    /// The entity that owns the SDL window `window_id`, if any.
    pub fn get_entity(&self, window_id: WindowId) -> (entity: Option<u64>)
        ensures
            entity == self.spec_get_entity(window_id),
    {
        match self.sdl_to_entity.get(&window_id.0) {
            Some(e) => Some(*e),
            None => None,
        }
    }
}


/// `after` is what `create(entity, id, window)` makes of `before`.
pub open spec fn created<W>(before: SdlWindows<W>, entity: u64, id: WindowId, window: W, after: SdlWindows<W>) -> bool {
    &&& after.windows() == before.windows().insert(id.0, window)
    &&& after.entity_to_sdl() == before.entity_to_sdl().insert(entity, id.0)
    &&& after.sdl_to_entity() == before.sdl_to_entity().insert(id.0, entity)
}

/// `after` is what `destroy(entity)` makes of `before`.
pub open spec fn destroyed<W>(before: SdlWindows<W>, entity: u64, after: SdlWindows<W>) -> bool {
    if before.entity_to_sdl().contains_key(entity) {
        let id = before.entity_to_sdl()[entity];
        &&& after.windows() == before.windows().remove(id)
        &&& after.entity_to_sdl() == before.entity_to_sdl().remove(entity)
        &&& after.sdl_to_entity() == before.sdl_to_entity().remove(id)
    } else {
        &&& after.windows() == before.windows()
        &&& after.entity_to_sdl() == before.entity_to_sdl()
        &&& after.sdl_to_entity() == before.sdl_to_entity()
    }
}

/// A created window is found again: by its entity it gives back the window, and
/// by its SDL id it gives back the entity.
pub proof fn lemma_get_after_create<W>(before: SdlWindows<W>, entity: u64, id: WindowId, window: W, after: SdlWindows<W>)
    requires
        created(before, entity, id, window, after),
    ensures
        after.spec_get(entity) == Some(window),
        after.spec_get_entity(id) == Some(entity),
{
}

/// Registering a window for an entity that has none, under an id that no entity
/// owns, keeps the registry well formed.
pub proof fn lemma_create_keeps_wf<W>(before: SdlWindows<W>, entity: u64, id: WindowId, window: W, after: SdlWindows<W>)
    requires
        before.wf(),
        !before.entity_to_sdl().contains_key(entity),
        !before.sdl_to_entity().contains_key(id.0),
        created(before, entity, id, window, after),
    ensures
        after.wf(),
{
    assert(after.windows().dom() =~= after.sdl_to_entity().dom());
}

/// Destroying a window keeps a well-formed registry well formed; afterwards the
/// entity has no window and its old id has no owner.
pub proof fn lemma_destroy_keeps_wf<W>(before: SdlWindows<W>, entity: u64, after: SdlWindows<W>)
    requires
        before.wf(),
        destroyed(before, entity, after),
    ensures
        after.wf(),
        after.spec_get(entity) is None,
        before.entity_to_sdl().contains_key(entity) ==> after.spec_get_entity(
            WindowId(before.entity_to_sdl()[entity]),
        ) is None,
{
    if before.entity_to_sdl().contains_key(entity) {
        let id = before.entity_to_sdl()[entity];
        assert forall|e: u64| #[trigger] after.entity_to_sdl().contains_key(e) implies {
            &&& after.sdl_to_entity().contains_key(after.entity_to_sdl()[e])
            &&& after.sdl_to_entity()[after.entity_to_sdl()[e]] == e
            &&& after.windows().contains_key(after.entity_to_sdl()[e])
        } by {
            assert(before.entity_to_sdl().contains_key(e));
            assert(before.entity_to_sdl()[e] != id);
        }
        assert(after.windows().dom() =~= after.sdl_to_entity().dom());
    }
}

/// Destroying the window of an entity that was just created gives back exactly
/// the registry from before (`create` requires the entity and the built window's
/// id to be fresh).
pub proof fn lemma_destroy_undoes_create<W>(
    before: SdlWindows<W>,
    entity: u64,
    id: WindowId,
    window: W,
    middle: SdlWindows<W>,
    after: SdlWindows<W>,
)
    requires
        before.wf(),
        !before.entity_to_sdl().contains_key(entity),
        !before.sdl_to_entity().contains_key(id.0),
        created(before, entity, id, window, middle),
        destroyed(middle, entity, after),
    ensures
        middle.spec_get(entity) == Some(window),
        middle.wf(),
        after.wf(),
        after.windows() == before.windows(),
        after.entity_to_sdl() == before.entity_to_sdl(),
        after.sdl_to_entity() == before.sdl_to_entity(),
{
    lemma_create_keeps_wf(before, entity, id, window, middle);
    lemma_destroy_keeps_wf(middle, entity, after);
    assert(!before.windows().contains_key(id.0));
    assert(after.windows() =~= before.windows());
    assert(after.entity_to_sdl() =~= before.entity_to_sdl());
    assert(after.sdl_to_entity() =~= before.sdl_to_entity());
}


/// Why a cursor grab could not be applied.
#[derive(Debug, Clone, Copy, PartialEq, Eq, Structural)]
pub enum GrabError {
    /// SDL refused to release the mouse.
    ReleaseFailed,
    /// SDL refused to grab the mouse.
    GrabFailed,
    /// SDL has no locked cursor mode.
    LockedUnsupported,
}

impl GrabError {
    /// The message that the backend logs for this error.
    pub fn message(&self) -> (text: String)
        ensures
            self is ReleaseFailed ==> text@ == "Failed to release mouse grab"@,
            self is GrabFailed ==> text@ == "Failed to grab mouse"@,
            self is LockedUnsupported ==> text@
                == "CursorGrabMode::Locked is not directly supported by sdl"@,
    {
        match self {
            GrabError::ReleaseFailed => "Failed to release mouse grab".to_owned(),
            GrabError::GrabFailed => "Failed to grab mouse".to_owned(),
            GrabError::LockedUnsupported => "CursorGrabMode::Locked is not directly supported by sdl".to_owned(),
        }
    }
}

/// The argument that a grab mode passes to SDL's `set_mouse_grab`: release for
/// `None`, grab for `Confined`; `Locked` makes no call.
pub open spec fn spec_mouse_grab_request(grab_mode: CursorGrabMode) -> Option<bool> {
    match grab_mode {
        CursorGrabMode::Free => Some(false),
        CursorGrabMode::Confined => Some(true),
        CursorGrabMode::Locked => None,
    }
}

/// What `attempt_grab` passes to SDL's `set_mouse_grab` for a grab mode, if it calls it.
pub fn mouse_grab_request(grab_mode: CursorGrabMode) -> (grab: Option<bool>)
    ensures
        grab == spec_mouse_grab_request(grab_mode),
{
    match grab_mode {
        CursorGrabMode::Free => Some(false),
        CursorGrabMode::Confined => Some(true),
        CursorGrabMode::Locked => None,
    }
}

/// The outcome of applying a grab mode, given whether SDL's `set_mouse_grab`
/// succeeded (not read for `Locked`, where no call is made).
pub open spec fn spec_attempt_grab(grab_mode: CursorGrabMode, sdl_succeeded: bool) -> Result<(), GrabError> {
    match grab_mode {
        CursorGrabMode::Free => if sdl_succeeded { Ok(()) } else { Err(GrabError::ReleaseFailed) },
        CursorGrabMode::Confined => if sdl_succeeded { Ok(()) } else { Err(GrabError::GrabFailed) },
        CursorGrabMode::Locked => Err(GrabError::LockedUnsupported),
    }
}

/// Applies a cursor grab mode: `Ok` when SDL did what the mode asks, else the
/// error; `Locked` always fails.
pub fn attempt_grab(grab_mode: CursorGrabMode, sdl_succeeded: bool) -> (result: Result<(), GrabError>)
    ensures
        result == spec_attempt_grab(grab_mode, sdl_succeeded),
{
    match grab_mode {
        CursorGrabMode::Free => {
            if !sdl_succeeded {
                return Err(GrabError::ReleaseFailed);
            }
        },
        CursorGrabMode::Confined => {
            if !sdl_succeeded {
                return Err(GrabError::GrabFailed);
            }
        },
        CursorGrabMode::Locked => {
            return Err(GrabError::LockedUnsupported);
        },
    }
    Ok(())
}

/// Whether the backend calls SDL's `show_cursor`, and with which value: only
/// when the window has the mouse focus and the cursor's visibility differs from
/// the wanted one.
pub fn cursor_visibility_update(has_mouse_focus: bool, wanted_visible: bool, cursor_showing: bool) -> (show: Option<bool>)
    ensures
        show == (if has_mouse_focus && wanted_visible != cursor_showing {
            Some(wanted_visible)
        } else {
            None
        }),
{
    if has_mouse_focus && wanted_visible != cursor_showing {
        Some(wanted_visible)
    } else {
        None
    }
}

/// Where a windowed SDL window is placed when it is built.
#[derive(Debug, Clone, Copy, PartialEq, Eq, Structural)]
pub enum BuildPosition {
    Centered,
    At(i32, i32),
}

/// The choices made when an SDL window is built for a Bevy window.
#[derive(Debug, Clone)]
pub struct WindowBuildPlan {
    /// The window's title: its name, or "Bevy".
    pub title: String,
    /// The window's size when built, in whole logical pixels.
    pub width: u32,
    pub height: u32,
    /// The builder's position call, for windowed mode only.
    pub position: Option<BuildPosition>,
    /// The monitor to move the window to after it is built.
    pub monitor_selection: Option<MonitorSelection>,
    /// The video mode to apply after it is built.
    pub video_mode_selection: Option<VideoModeSelection>,
    pub fullscreen: bool,
    pub resizable: bool,
    pub borderless: bool,
    /// Whether the window is raised once built.
    pub raise: bool,
    /// The grab mode to apply once built; none is applied for `CursorGrabMode::Free`.
    pub grab_mode: Option<CursorGrabMode>,
}

impl WindowBuildPlan {
    /// Whether the display mode is updated after the window is built.
    pub open spec fn spec_updates_display_mode(&self) -> bool {
        self.monitor_selection is Some || self.video_mode_selection is Some
    }

    pub fn updates_display_mode(&self) -> (b: bool)
        ensures
            b == self.spec_updates_display_mode(),
    {
        self.monitor_selection.is_some() || self.video_mode_selection.is_some()
    }
}

/// The builder position, monitor, video mode and fullscreen flag for a window mode
/// and position.
pub open spec fn spec_build_placement(mode: WindowMode, position: WindowPosition) -> (
    Option<BuildPosition>,
    Option<MonitorSelection>,
    Option<VideoModeSelection>,
    bool,
) {
    match mode {
        WindowMode::Windowed => match position {
            WindowPosition::Automatic => (Some(BuildPosition::Centered), None, None, false),
            WindowPosition::Centered(m) => (Some(BuildPosition::Centered), Some(m), None, false),
            WindowPosition::At(x, y) => (Some(BuildPosition::At(x, y)), None, None, false),
        },
        WindowMode::BorderlessFullscreen(m) => (None, Some(m), None, true),
        WindowMode::Fullscreen(m, v) => (None, Some(m), Some(v), true),
    }
}

/// The title of a newly built window: its name, or "Bevy" when it has none.
pub open spec fn spec_build_title(name: Option<String>) -> Seq<char> {
    match name {
        Some(n) => n@,
        None => "Bevy"@,
    }
}

/// `plan` is how the SDL window for a Bevy window with these settings, size and
/// grab mode is built: titled by its name or "Bevy", placed as its mode and
/// position say, resizable and borderless as its settings say, raised when
/// focused, and grabbed unless the grab mode is free.
pub open spec fn is_build_plan(plan: WindowBuildPlan, settings: WindowSettings, size: (u32, u32), grab_mode: CursorGrabMode) -> bool {
    &&& plan.title@ == spec_build_title(settings.name)
    &&& plan.width == size.0
    &&& plan.height == size.1
    &&& (plan.position, plan.monitor_selection, plan.video_mode_selection, plan.fullscreen)
        == spec_build_placement(settings.mode, settings.position)
    &&& plan.resizable == settings.resizable
    &&& plan.borderless == !settings.decorations
    &&& plan.raise == settings.focused
    &&& plan.grab_mode == (if grab_mode == CursorGrabMode::Free {
        None::<CursorGrabMode>
    } else {
        Some(grab_mode)
    })
}

/// Decides how the SDL window for a Bevy window is built; `size` is the window's
/// logical size in whole pixels.
pub fn plan_window_build(settings: &WindowSettings, size: (u32, u32), grab_mode: CursorGrabMode) -> (plan: WindowBuildPlan)
    ensures
        is_build_plan(plan, *settings, size, grab_mode),
{
    let title = match &settings.name {
        Some(n) => n.clone(),
        None => "Bevy".to_owned(),
    };
    let (position, monitor_selection, video_mode_selection, fullscreen) = match settings.mode {
        WindowMode::Windowed => {
            match settings.position {
                WindowPosition::Automatic => (Some(BuildPosition::Centered), None, None, false),
                WindowPosition::Centered(m) => (Some(BuildPosition::Centered), Some(m), None, false),
                WindowPosition::At(x, y) => (Some(BuildPosition::At(x, y)), None, None, false),
            }
        },
        WindowMode::BorderlessFullscreen(m) => (None, Some(m), None, true),
        WindowMode::Fullscreen(m, v) => (None, Some(m), Some(v), true),
    };
    let grab = match grab_mode {
        CursorGrabMode::Free => None,
        _ => Some(grab_mode),
    };
    WindowBuildPlan {
        title,
        width: size.0,
        height: size.1,
        position,
        monitor_selection,
        video_mode_selection,
        fullscreen,
        resizable: settings.resizable,
        borderless: !settings.decorations,
        raise: settings.focused,
        grab_mode: grab,
    }
}

/// A locked cursor can never be applied, whatever SDL answers, and a grab that
/// SDL accepts always succeeds otherwise.
pub proof fn lemma_grab_outcomes(grab_mode: CursorGrabMode, sdl_succeeded: bool)
    ensures
        grab_mode == CursorGrabMode::Locked ==> spec_attempt_grab(grab_mode, sdl_succeeded)
            == Err::<(), GrabError>(GrabError::LockedUnsupported),
        grab_mode != CursorGrabMode::Locked ==> (spec_attempt_grab(grab_mode, sdl_succeeded) is Ok
            <==> sdl_succeeded),
        spec_mouse_grab_request(grab_mode) is None <==> grab_mode == CursorGrabMode::Locked,
{
}

/// How a planned window is placed: a windowed window is centered when its
/// position is automatic, centered on the chosen monitor when its position is
/// centered there, and put at its coordinates otherwise, with no video mode and
/// not fullscreen; a borderless fullscreen window goes fullscreen on its monitor
/// with the current video mode, and an exclusive one on its monitor in its video
/// mode. The plan keeps the window's size, resizability and focus, has
/// decorations exactly when the window does, and grabs the cursor unless the
/// grab mode is free.
pub proof fn lemma_build_plan(plan: WindowBuildPlan, settings: WindowSettings, size: (u32, u32), grab_mode: CursorGrabMode)
    requires
        is_build_plan(plan, settings, size, grab_mode),
    ensures
        settings.mode == WindowMode::Windowed && settings.position == WindowPosition::Automatic ==> {
            &&& plan.position == Some(BuildPosition::Centered)
            &&& plan.monitor_selection == None::<MonitorSelection>
            &&& plan.video_mode_selection == None::<VideoModeSelection>
            &&& !plan.fullscreen
        },
        forall|m: MonitorSelection|
            settings.mode == WindowMode::Windowed && settings.position == WindowPosition::Centered(m) ==> {
                &&& plan.position == Some(BuildPosition::Centered)
                &&& plan.monitor_selection == Some(m)
                &&& plan.video_mode_selection == None::<VideoModeSelection>
                &&& !plan.fullscreen
            },
        forall|x: i32, y: i32|
            settings.mode == WindowMode::Windowed && settings.position == WindowPosition::At(x, y) ==> {
                &&& plan.position == Some(BuildPosition::At(x, y))
                &&& plan.monitor_selection == None::<MonitorSelection>
                &&& plan.video_mode_selection == None::<VideoModeSelection>
                &&& !plan.fullscreen
            },
        forall|m: MonitorSelection|
            settings.mode == WindowMode::BorderlessFullscreen(m) ==> {
                &&& plan.position == None::<BuildPosition>
                &&& plan.monitor_selection == Some(m)
                &&& plan.video_mode_selection == None::<VideoModeSelection>
                &&& plan.fullscreen
            },
        forall|m: MonitorSelection, v: VideoModeSelection|
            settings.mode == WindowMode::Fullscreen(m, v) ==> {
                &&& plan.position == None::<BuildPosition>
                &&& plan.monitor_selection == Some(m)
                &&& plan.video_mode_selection == Some(v)
                &&& plan.fullscreen
            },
        plan.width == size.0 && plan.height == size.1,
        plan.resizable == settings.resizable,
        plan.borderless == !settings.decorations,
        plan.raise == settings.focused,
        grab_mode == CursorGrabMode::Free ==> plan.grab_mode == None::<CursorGrabMode>,
        grab_mode != CursorGrabMode::Free ==> plan.grab_mode == Some(grab_mode),
        settings.name is None ==> plan.title@ == "Bevy"@,
        forall|n: String| settings.name == Some(n) ==> plan.title@ == n@,
{
}

/// Applying a grab mode: a free cursor asks SDL to release the mouse and fails
/// as a failed release, a confined one asks SDL to grab it and fails as a failed
/// grab, and a locked one makes no call and always fails as unsupported.
pub proof fn lemma_grab_table(sdl_succeeded: bool)
    ensures
        spec_mouse_grab_request(CursorGrabMode::Free) == Some(false),
        spec_mouse_grab_request(CursorGrabMode::Confined) == Some(true),
        spec_mouse_grab_request(CursorGrabMode::Locked) == None::<bool>,
        spec_attempt_grab(CursorGrabMode::Free, sdl_succeeded) == (if sdl_succeeded {
            Ok::<(), GrabError>(())
        } else {
            Err(GrabError::ReleaseFailed)
        }),
        spec_attempt_grab(CursorGrabMode::Confined, sdl_succeeded) == (if sdl_succeeded {
            Ok::<(), GrabError>(())
        } else {
            Err(GrabError::GrabFailed)
        }),
        spec_attempt_grab(CursorGrabMode::Locked, sdl_succeeded) == Err::<(), GrabError>(GrabError::LockedUnsupported),
{
}

} // verus!

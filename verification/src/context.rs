use vstd::prelude::*;

use crate::runner::{AppLoopState, LoopStateView};
use crate::window_model::{CursorGrabMode, WindowSettings};
use crate::windows::{is_build_plan, SdlWindows, WindowBuildPlan, WindowId};

verus! {

/// The backend's state: the SDL subsystems `H` (held for the plugin), the SDL
/// windows of the app, and the state of the application loop.
pub struct SdlContext<H, W, R, E> {
    /// The SDL context and subsystems.
    pub handles: H,
    /// The SDL windows of the app.
    pub windows: SdlWindows<W>,
    /// The state of the application loop.
    pub app_loop_state: AppLoopState<R, E>,
}

impl<H, W, R, E> SdlContext<H, W, R, E> {
    /// The window registry.
    pub open spec fn windows(&self) -> SdlWindows<W> {
        self.windows
    }

    /// A context for freshly initialised SDL subsystems: no windows yet, and the
    /// loop in its starting state.
    pub fn new(handles: H) -> (context: Self)
        ensures
            context.handles == handles,
            context.windows().windows() == Map::<u32, W>::empty(),
            context.windows().entity_to_sdl() == Map::<u64, u32>::empty(),
            context.windows().sdl_to_entity() == Map::<u32, u64>::empty(),
            context.windows().wf(),
            context.app_loop_state@ == LoopStateView::<R, E>::initial(),
    {
        SdlContext { handles, windows: SdlWindows::new(), app_loop_state: AppLoopState::new() }
    }

    /// The window registry, for looking up windows.
    pub fn windows_registry(&self) -> (windows: &SdlWindows<W>)
        ensures
            *windows == self.windows(),
    {
        &self.windows
    }

    /// Creates the SDL window of `entity` (see `SdlWindows::create`): `build`
    /// builds it from the plan with the context's SDL subsystems.
    pub fn create_window<F>(
        &mut self,
        entity: u64,
        settings: &WindowSettings,
        size: (u32, u32),
        grab_mode: CursorGrabMode,
        build: F,
    ) -> (made: (WindowBuildPlan, WindowId, &W)) where F: FnOnce(&H, &WindowBuildPlan) -> (WindowId, W)
        requires
            !old(self).windows.entity_to_sdl().contains_key(entity),
            forall|p: WindowBuildPlan|
                is_build_plan(p, *settings, size, grab_mode) ==> #[trigger] build.requires((&old(self).handles, &p)),
            forall|p: WindowBuildPlan, r: (WindowId, W)|
                #[trigger] build.ensures((&old(self).handles, &p), r) ==> !old(self).windows.sdl_to_entity().contains_key(r.0.0),
        ensures
            is_build_plan(made.0, *settings, size, grab_mode),
            build.ensures((&old(self).handles, &made.0), (made.1, *made.2)),
            crate::windows::created(old(self).windows(), entity, made.1, *made.2, final(self).windows()),
            final(self).windows.spec_get(entity) == Some(*made.2),
            forall|e: u64| e != entity ==> #[trigger] final(self).windows.spec_get(e) == old(self).windows.spec_get(e),
            final(self).windows.wf(),
            final(self).app_loop_state == old(self).app_loop_state,
            final(self).handles == old(self).handles,
    {
        self.windows.create(&self.handles, entity, settings, size, grab_mode, build)
    }

    /// Removes the SDL window of `entity` and returns it; a removed window is
    /// recorded as destroyed, to be announced to the app.
    pub fn destroy_window(&mut self, entity: u64) -> (removed: Option<W>)
        ensures
            crate::windows::destroyed(old(self).windows(), entity, final(self).windows()),
            old(self).entity_to_sdl_has(entity) ==> removed == old(self).windows().spec_get(entity),
            !old(self).entity_to_sdl_has(entity) ==> removed is None,
            removed is Some ==> final(self).app_loop_state@ == (LoopStateView {
                destroyed_windows: old(self).app_loop_state@.destroyed_windows.push(entity),
                ..old(self).app_loop_state@
            }),
            removed is None ==> final(self).app_loop_state@ == old(self).app_loop_state@,
            final(self).handles == old(self).handles,
    {
        let window = self.windows.destroy(entity);
        if window.is_some() {
            self.app_loop_state.push_destroyed_window(entity);
        }
        window
    }

    /// Whether `entity` has an SDL window id.
    pub open spec fn entity_to_sdl_has(&self, entity: u64) -> bool {
        self.windows().entity_to_sdl().contains_key(entity)
    }

    /// The SDL window of `entity`, if it has one.
    pub fn get_window(&self, entity: u64) -> (window: Option<&W>)
        ensures
            match window {
                Some(w) => self.windows().spec_get(entity) == Some(*w),
                None => self.windows().spec_get(entity) is None,
            },
    {
        self.windows.get(entity)
    }

    /// The entity of the SDL window `window_id`, if known.
    pub fn get_window_entity(&self, window_id: WindowId) -> (entity: Option<u64>)
        ensures
            entity == self.windows().spec_get_entity(window_id),
    {
        self.windows.get_entity(window_id)
    }
}

/// The entities among the first `n` removed windows that no longer have a window
/// (the others got theirs back in the same frame), in order.
pub open spec fn gone_windows(removed: Seq<(u64, bool)>, n: nat) -> Seq<u64>
    decreases n,
{
    if n == 0 {
        seq![]
    } else {
        let prev = gone_windows(removed, (n - 1) as nat);
        if removed[n - 1].1 {
            prev
        } else {
            prev.push(removed[n - 1].0)
        }
    }
}

/// What a pass over closing and closed windows does.
pub struct CloseDecision {
    /// The windows announced as closing.
    pub closing: Vec<u64>,
    /// The windows announced as closed.
    pub closed: Vec<u64>,
    /// The windows whose SDL windows are destroyed, in order.
    pub destroy: Vec<u64>,
}

/// Decides a pass over closing and closed windows: `closing` are the windows
/// marked as closing; `removed` the windows whose Bevy window was removed, each
/// with whether it has a window again; `exit_requested` whether the app is
/// exiting; `windows` all windows. Every closing window is announced; a removed
/// window that is really gone has its SDL window destroyed and is announced as
/// closed; on exit every window is announced as closing and destroyed.
pub fn decide_window_closing(closing: &Vec<u64>, removed: &Vec<(u64, bool)>, exit_requested: bool, windows: &Vec<u64>) -> (decision: CloseDecision)
    ensures
        decision.closing@ == closing@ + (if exit_requested { windows@ } else { seq![] }),
        decision.closed@ == gone_windows(removed@, removed@.len()),
        decision.destroy@ == gone_windows(removed@, removed@.len()) + (if exit_requested {
            windows@
        } else {
            seq![]
        }),
{
    let mut closed: Vec<u64> = Vec::new();
    let mut i: usize = 0;
    while i < removed.len()
        invariant
            i <= removed@.len(),
            closed@ == gone_windows(removed@, i as nat),
        decreases removed@.len() - i,
    {
        let (entity, has_window) = removed[i];
        if !has_window {
            closed.push(entity);
        }
        i = i + 1;
    }
    let mut all_closing = closing.clone();
    let mut destroy = closed.clone();
    if exit_requested {
        let mut j: usize = 0;
        while j < windows.len()
            invariant
                j <= windows@.len(),
                all_closing@ == closing@ + windows@.take(j as int),
                destroy@ == closed@ + windows@.take(j as int),
            decreases windows@.len() - j,
        {
            assert(windows@.take(j + 1) =~= windows@.take(j as int).push(windows@[j as int]));
            all_closing.push(windows[j]);
            destroy.push(windows[j]);
            j = j + 1;
        }
        assert(windows@.take(windows@.len() as int) =~= windows@);
    } else {
        assert(all_closing@ =~= closing@ + seq![]);
        assert(destroy@ =~= closed@ + seq![]);
    }
    CloseDecision { closing: all_closing, closed, destroy }
}

/// A removed window is announced as closed exactly when it has no window any
/// more, each time it is so removed.
pub proof fn lemma_gone_windows_members(removed: Seq<(u64, bool)>, n: nat)
    requires
        n <= removed.len(),
    ensures
        forall|e: u64| #[trigger] gone_windows(removed, n).contains(e) <==> exists|i: int|
            0 <= i < n && #[trigger] removed[i] == (e, false),
        gone_windows(removed, n).len() <= n,
    decreases n,
{
    if n > 0 {
        lemma_gone_windows_members(removed, (n - 1) as nat);
        let prev = gone_windows(removed, (n - 1) as nat);
        let cur = gone_windows(removed, n);
        assert forall|e: u64| #[trigger] cur.contains(e) <==> exists|i: int|
            0 <= i < n && #[trigger] removed[i] == (e, false) by {
            if cur.contains(e) {
                let j = choose|j: int| 0 <= j < cur.len() && cur[j] == e;
                if j < prev.len() {
                    assert(prev[j] == e);
                    assert(prev.contains(e));
                } else {
                    assert(removed[n - 1] == (e, false));
                }
            }
            if exists|i: int| 0 <= i < n && #[trigger] removed[i] == (e, false) {
                let i = choose|i: int| 0 <= i < n && #[trigger] removed[i] == (e, false);
                if i < n - 1 {
                    assert(prev.contains(e));
                    let j = choose|j: int| 0 <= j < prev.len() && prev[j] == e;
                    assert(cur[j] == e);
                } else {
                    assert(cur[cur.len() - 1] == e);
                }
            }
        }
    }
}

} // verus!

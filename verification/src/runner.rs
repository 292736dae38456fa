use vstd::prelude::*;

verus! {

/// The lifecycle of the app, as Bevy reports it to the app's systems.
#[derive(Debug, Clone, Copy, PartialEq, Eq, Structural)]
pub enum AppLifecycle {
    /// Not started yet.
    Idle,
    /// Running.
    Running,
    /// About to be suspended; one frame left to react.
    WillSuspend,
    /// Suspended.
    Suspended,
    /// About to be resumed.
    WillResume,
}

impl AppLifecycle {
    /// Whether the app can be updated in this state.
    pub open spec fn spec_is_active(self) -> bool {
        match self {
            AppLifecycle::Idle | AppLifecycle::Suspended => false,
            _ => true,
        }
    }

    /// `true` when the app can be updated: running or about to change state.
    pub fn is_active(&self) -> (active: bool)
        ensures
            active == self.spec_is_active(),
    {
        match self {
            AppLifecycle::Idle | AppLifecycle::Suspended => false,
            AppLifecycle::Running | AppLifecycle::WillSuspend | AppLifecycle::WillResume => true,
        }
    }
}

/// A window event queued for the next app update. `E` is the type of the other
/// window events that the backend produces from SDL events.
#[derive(Debug, Clone)]
pub enum LoopEvent<E> {
    /// The app's lifecycle changed.
    Lifecycle(AppLifecycle),
    /// The SDL window of this entity (by its bits) was destroyed.
    WindowDestroyed(u64),
    /// Another window event.
    Window(E),
}

/// The state of the application loop between app updates, as plain values.
pub struct LoopStateView<R, E> {
    /// Raw SDL events not yet handed to the app.
    pub raw_sdl_events: Seq<R>,
    /// Window events not yet handed to the app.
    pub bevy_window_events: Seq<LoopEvent<E>>,
    /// Windows destroyed since the last SDL event was recorded.
    pub destroyed_windows: Seq<u64>,
    /// The lifecycle of the app.
    pub lifecycle: AppLifecycle,
    /// The lifecycle at the last app update.
    pub last_app_update_lifecycle: AppLifecycle,
    /// Whether SDL windows are to be created for new Bevy windows after the next update.
    pub needs_to_create_sdl_windows: bool,
    /// Whether an SDL event asked the loop to exit.
    pub exit: bool,
}

/// The window events of a batch of SDL events, followed by one destroyed event
/// for each window destroyed while they were handled, in order.
pub open spec fn with_destroyed<E>(events: Seq<LoopEvent<E>>, destroyed: Seq<u64>) -> Seq<LoopEvent<E>> {
    events + destroyed.map_values(|e: u64| LoopEvent::<E>::WindowDestroyed(e))
}

impl<R, E> LoopStateView<R, E> {
    /// The state before the loop starts: the idle lifecycle, announced by one
    /// queued event, and SDL windows to be created.
    pub open spec fn initial() -> Self {
        LoopStateView {
            raw_sdl_events: Seq::empty(),
            bevy_window_events: seq![LoopEvent::Lifecycle(AppLifecycle::Idle)],
            destroyed_windows: Seq::empty(),
            lifecycle: AppLifecycle::Idle,
            last_app_update_lifecycle: AppLifecycle::Idle,
            needs_to_create_sdl_windows: true,
            exit: false,
        }
    }

    /// Moving to `lifecycle` queues its event; an update is forced when it differs
    /// from the lifecycle of the last update.
    pub open spec fn apply_lifecycle(self, lifecycle: AppLifecycle) -> (Self, bool) {
        (
            LoopStateView {
                bevy_window_events: self.bevy_window_events.push(LoopEvent::Lifecycle(lifecycle)),
                lifecycle,
                ..self
            },
            self.last_app_update_lifecycle != lifecycle,
        )
    }

    /// An idle app starts running; any other state is left alone (`None`).
    pub open spec fn resume_if_idle(self) -> (Self, Option<bool>) {
        if self.lifecycle == AppLifecycle::Idle {
            let (next, force) = self.apply_lifecycle(AppLifecycle::Running);
            (next, Some(force))
        } else {
            (self, None)
        }
    }

    /// An update records its lifecycle and takes both queues.
    pub open spec fn force_update(self) -> (Self, Seq<R>, Seq<LoopEvent<E>>) {
        (
            LoopStateView {
                raw_sdl_events: Seq::empty(),
                bevy_window_events: Seq::empty(),
                last_app_update_lifecycle: self.lifecycle,
                ..self
            },
            self.raw_sdl_events,
            self.bevy_window_events,
        )
    }

    /// Recording a handled SDL event notes an exit request, queues the raw event,
    /// and queues its window events followed by the destroyed windows, which are
    /// then forgotten.
    pub open spec fn record_sdl_event(self, raw: R, request_exit: bool, events: Seq<LoopEvent<E>>) -> Self {
        LoopStateView {
            exit: self.exit || request_exit,
            raw_sdl_events: self.raw_sdl_events.push(raw),
            bevy_window_events: self.bevy_window_events + with_destroyed(events, self.destroyed_windows),
            destroyed_windows: Seq::empty(),
            ..self
        }
    }

    /// Whether the loop ends.
    pub open spec fn should_exit(self, app_requested_exit: bool) -> bool {
        app_requested_exit || self.exit
    }
}

/// The state of the application loop between app updates. `R` is the type of
/// the raw SDL events that the app receives as messages.
pub struct AppLoopState<R, E> {
    raw_sdl_events: Vec<R>,
    bevy_window_events: Vec<LoopEvent<E>>,
    destroyed_windows: Vec<u64>,
    lifecycle: AppLifecycle,
    last_app_update_lifecycle: AppLifecycle,
    needs_to_create_sdl_windows: bool,
    exit: bool,
}

impl<R, E> View for AppLoopState<R, E> {
    type V = LoopStateView<R, E>;

    closed spec fn view(&self) -> LoopStateView<R, E> {
        LoopStateView {
            raw_sdl_events: self.raw_sdl_events@,
            bevy_window_events: self.bevy_window_events@,
            destroyed_windows: self.destroyed_windows@,
            lifecycle: self.lifecycle,
            last_app_update_lifecycle: self.last_app_update_lifecycle,
            needs_to_create_sdl_windows: self.needs_to_create_sdl_windows,
            exit: self.exit,
        }
    }
}

impl<R, E> AppLoopState<R, E> {
    /// Raw SDL events not yet handed to the app.
    pub open spec fn raw_sdl_events(&self) -> Seq<R> {
        self@.raw_sdl_events
    }

    /// Window events not yet handed to the app.
    pub open spec fn bevy_window_events(&self) -> Seq<LoopEvent<E>> {
        self@.bevy_window_events
    }

    /// Windows destroyed since the last SDL event was recorded.
    pub open spec fn destroyed_windows(&self) -> Seq<u64> {
        self@.destroyed_windows
    }

    /// The lifecycle of the app.
    pub open spec fn lifecycle(&self) -> AppLifecycle {
        self@.lifecycle
    }

    /// The lifecycle at the last app update.
    pub open spec fn last_app_update_lifecycle(&self) -> AppLifecycle {
        self@.last_app_update_lifecycle
    }

    /// Whether SDL windows are to be created for new Bevy windows after the next update.
    pub open spec fn needs_to_create_sdl_windows(&self) -> bool {
        self@.needs_to_create_sdl_windows
    }

    /// Whether an SDL event asked the loop to exit.
    pub open spec fn exit_requested(&self) -> bool {
        self@.exit
    }

    /// The state before the loop starts.
    pub fn new() -> (state: Self)
        ensures
            state@ == LoopStateView::<R, E>::initial(),
    {
        let mut events: Vec<LoopEvent<E>> = Vec::new();
        events.push(LoopEvent::Lifecycle(AppLifecycle::Idle));
        let state = AppLoopState {
            raw_sdl_events: Vec::new(),
            bevy_window_events: events,
            destroyed_windows: Vec::new(),
            lifecycle: AppLifecycle::Idle,
            last_app_update_lifecycle: AppLifecycle::Idle,
            needs_to_create_sdl_windows: true,
            exit: false,
        };
        assert(state@.bevy_window_events =~= seq![LoopEvent::<E>::Lifecycle(AppLifecycle::Idle)]);
        assert(state@.raw_sdl_events =~= Seq::<R>::empty());
        assert(state@.destroyed_windows =~= Seq::<u64>::empty());
        state
    }

    /// The lifecycle of the app.
    pub fn lifecycle_state(&self) -> (lifecycle: AppLifecycle)
        ensures
            lifecycle == self@.lifecycle,
    {
        self.lifecycle
    }

    /// Moves the app to `lifecycle` and queues the lifecycle event. Returns
    /// whether the app must be updated at once: when the lifecycle differs from
    /// the one of the last update.
    pub fn apply_lifecycle(&mut self, lifecycle: AppLifecycle) -> (force_update: bool)
        ensures
            (final(self)@, force_update) == old(self)@.apply_lifecycle(lifecycle),
    {
        self.bevy_window_events.push(LoopEvent::Lifecycle(lifecycle));
        self.lifecycle = lifecycle;
        self.last_app_update_lifecycle != self.lifecycle
    }

    /// Moves an idle app to running when the loop starts its first frame.
    /// Returns `None` when the app was not idle, else whether the app must be
    /// updated at once (see `apply_lifecycle`).
    pub fn resume_if_idle(&mut self) -> (applied: Option<bool>)
        ensures
            (final(self)@, applied) == old(self)@.resume_if_idle(),
    {
        match self.lifecycle {
            AppLifecycle::Idle => Some(self.apply_lifecycle(AppLifecycle::Running)),
            _ => None,
        }
    }

    /// Whether a regular update of the app runs: only while it is active.
    pub fn try_update_app(&self) -> (update: bool)
        ensures
            update == self@.lifecycle.spec_is_active(),
    {
        self.lifecycle.is_active()
    }

    /// Starts an app update: records the lifecycle of this update and hands out
    /// the queued raw SDL events and window events, emptying both queues.
    pub fn force_update_app(&mut self) -> (queued: (Vec<R>, Vec<LoopEvent<E>>))
        ensures
            (final(self)@, queued.0@, queued.1@) == old(self)@.force_update(),
    {
        self.last_app_update_lifecycle = self.lifecycle;
        let mut raw: Vec<R> = Vec::new();
        let mut events: Vec<LoopEvent<E>> = Vec::new();
        std::mem::swap(&mut raw, &mut self.raw_sdl_events);
        std::mem::swap(&mut events, &mut self.bevy_window_events);
        assert(self@.raw_sdl_events =~= Seq::<R>::empty());
        assert(self@.bevy_window_events =~= Seq::<LoopEvent<E>>::empty());
        (raw, events)
    }

    /// Asks for SDL windows to be created after the next update (a Bevy window
    /// was added).
    pub fn request_window_creation(&mut self)
        ensures
            final(self)@ == (LoopStateView { needs_to_create_sdl_windows: true, ..old(self)@ }),
    {
        self.needs_to_create_sdl_windows = true;
    }

    /// Whether SDL windows are to be created now; clears the request.
    pub fn take_needs_to_create_sdl_windows(&mut self) -> (create: bool)
        ensures
            create == old(self)@.needs_to_create_sdl_windows,
            final(self)@ == (LoopStateView { needs_to_create_sdl_windows: false, ..old(self)@ }),
    {
        let create = self.needs_to_create_sdl_windows;
        self.needs_to_create_sdl_windows = false;
        create
    }

    /// Records that the SDL window of `entity` was destroyed.
    pub fn push_destroyed_window(&mut self, entity: u64)
        ensures
            final(self)@ == (LoopStateView {
                destroyed_windows: old(self)@.destroyed_windows.push(entity),
                ..old(self)@
            }),
    {
        self.destroyed_windows.push(entity);
    }

    /// Records a handled SDL event: notes an exit request, queues the raw event,
    /// and queues the window events it produced followed by a destroyed event for
    /// each window destroyed meanwhile, which are then forgotten.
    pub fn record_sdl_event(&mut self, raw: R, request_exit: bool, events: Vec<LoopEvent<E>>)
        ensures
            final(self)@ == old(self)@.record_sdl_event(raw, request_exit, events@),
    {
        self.exit = self.exit || request_exit;
        self.raw_sdl_events.push(raw);
        let ghost old_queue = self.bevy_window_events@;
        let ghost destroyed = self.destroyed_windows@;
        let ghost given = events@;
        let mut events = events;
        let mut i: usize = 0;
        while i < self.destroyed_windows.len()
            invariant
                self.destroyed_windows@ == destroyed,
                self.bevy_window_events@ == old_queue,
                i <= destroyed.len(),
                events@ == given + destroyed.take(i as int).map_values(
                    |e: u64| LoopEvent::<E>::WindowDestroyed(e),
                ),
            decreases destroyed.len() - i,
        {
            let entity = self.destroyed_windows[i];
            events.push(LoopEvent::WindowDestroyed(entity));
            proof {
                assert(destroyed.take(i + 1).map_values(|e: u64| LoopEvent::<E>::WindowDestroyed(e))
                    =~= destroyed.take(i as int).map_values(|e: u64| LoopEvent::<E>::WindowDestroyed(e)).push(
                    LoopEvent::WindowDestroyed(entity)));
            }
            i = i + 1;
        }
        assert(destroyed.take(destroyed.len() as int) =~= destroyed);
        self.destroyed_windows = Vec::new();
        self.bevy_window_events.append(&mut events);
        assert(self@.destroyed_windows =~= Seq::<u64>::empty());
    }

    /// Whether the loop ends: when the app asked to exit or an SDL event did.
    pub fn should_exit(&self, app_requested_exit: bool) -> (exit: bool)
        ensures
            exit == self@.should_exit(app_requested_exit),
    {
        app_requested_exit || self.exit
    }
}

/// The state of Bevy's plugins while the app starts.
#[derive(Debug, Clone, Copy, PartialEq, Eq, Structural)]
pub enum PluginsState {
    Adding,
    Ready,
    Finished,
    Cleaned,
}

/// Whether the loop may run a frame: only once the plugins are cleaned up. When
/// they are not, the plugins are to be finished and cleaned up first (second
/// component `true`) and the frame is skipped.
pub fn can_enter_app_loop(plugins: PluginsState) -> (decision: (bool, bool))
    ensures
        decision.0 == (plugins == PluginsState::Cleaned),
        decision.1 == !decision.0,
{
    match plugins {
        PluginsState::Cleaned => (true, false),
        _ => (false, true),
    }
}

/// Whether the plugins are finished and cleaned up before the loop starts: when
/// they are ready.
pub fn finish_plugins_before_loop(plugins: PluginsState) -> (finish: bool)
    ensures
        finish == (plugins == PluginsState::Ready),
{
    match plugins {
        PluginsState::Ready => true,
        _ => false,
    }
}

/// What one frame of the application loop does, once it may run.
#[derive(Debug, Clone, Copy, PartialEq, Eq, Structural)]
pub struct FramePlan {
    /// Synchronise the monitors with SDL's displays.
    pub sync_monitors: bool,
    /// Poll SDL's event queue.
    pub poll_events: bool,
    /// This is the last frame: make sure the app exits, force an update, and end the loop.
    pub last_frame: bool,
}

/// The application loop's own progress across frames, as plain values.
pub struct LoopControlView {
    /// The monitors were synchronised in an earlier frame.
    pub did_init_monitor_sync: bool,
    /// The next frame is the last.
    pub last_iter: bool,
}

impl LoopControlView {
    /// Before the first frame.
    pub open spec fn initial() -> Self {
        LoopControlView { did_init_monitor_sync: false, last_iter: false }
    }

    /// A frame synchronises the monitors only the first time, polls events unless
    /// it is the last, and is the last when an exit was seen.
    pub open spec fn begin_frame(self) -> (Self, FramePlan) {
        (
            LoopControlView { did_init_monitor_sync: true, ..self },
            FramePlan {
                sync_monitors: !self.did_init_monitor_sync,
                poll_events: !self.last_iter,
                last_frame: self.last_iter,
            },
        )
    }

    /// Ending a frame notes an exit; pacing applies unless the next frame is the last.
    pub open spec fn end_frame(self, should_exit: bool) -> (Self, bool) {
        let next = LoopControlView { last_iter: self.last_iter || should_exit, ..self };
        (next, !next.last_iter)
    }
}

/// The application loop's own progress across frames.
pub struct AppLoopControl {
    did_init_monitor_sync: bool,
    last_iter: bool,
}

impl View for AppLoopControl {
    type V = LoopControlView;

    closed spec fn view(&self) -> LoopControlView {
        LoopControlView { did_init_monitor_sync: self.did_init_monitor_sync, last_iter: self.last_iter }
    }
}

impl AppLoopControl {
    /// The control before the first frame.
    pub fn new() -> (control: Self)
        ensures
            control@ == LoopControlView::initial(),
    {
        AppLoopControl { did_init_monitor_sync: false, last_iter: false }
    }

    /// Plans a frame: the monitors are synchronised in the first frame only;
    /// events are polled unless this is the last frame.
    pub fn begin_frame(&mut self) -> (plan: FramePlan)
        ensures
            (final(self)@, plan) == old(self)@.begin_frame(),
    {
        let sync_monitors = !self.did_init_monitor_sync;
        self.did_init_monitor_sync = true;
        FramePlan { sync_monitors, poll_events: !self.last_iter, last_frame: self.last_iter }
    }

    /// Ends a frame that was not the last one, given whether the app should exit.
    /// Returns whether frame pacing applies: only when no exit is pending, since
    /// the next frame is then the last.
    pub fn end_frame(&mut self, should_exit: bool) -> (pace: bool)
        ensures
            (final(self)@, pace) == old(self)@.end_frame(should_exit),
    {
        self.last_iter = self.last_iter || should_exit;
        !self.last_iter
    }
}

/// The loop's frames follow one schedule from the start: the monitors are
/// synchronised in the first frame and never again; once an exit is seen at the
/// end of a frame, the next frame polls no events and is the last, and it stays so.
pub proof fn lemma_frame_schedule(should_exit: bool, later_exit: bool)
    ensures
        ({
            let (c1, p1) = LoopControlView::initial().begin_frame();
            let (c2, pace) = c1.end_frame(should_exit);
            let (c3, p3) = c2.begin_frame();
            &&& p1.sync_monitors && p1.poll_events && !p1.last_frame
            &&& !p3.sync_monitors
            &&& pace == !should_exit
            &&& should_exit ==> p3.last_frame && !p3.poll_events
            &&& !should_exit ==> !p3.last_frame && p3.poll_events
            &&& should_exit ==> c3.end_frame(later_exit).0.begin_frame().1.last_frame
        }),
{
}

/// What happens to the rendering surface when the app's lifecycle changes
/// (on Android only).
#[derive(Debug, Clone, Copy, PartialEq, Eq, Structural)]
pub enum SurfaceAction {
    Keep,
    /// Remove the primary window's raw handle, which destroys the surface.
    Destroy,
    /// Give back raw handles to windows that lost them while suspended.
    EnsureExists,
}

/// An SDL application event that changes the app's lifecycle.
#[derive(Debug, Clone, Copy, PartialEq, Eq, Structural)]
pub enum SdlAppEvent {
    WillEnterBackground,
    DidEnterBackground,
    WillEnterForeground,
    DidEnterForeground,
}

/// The lifecycle that an SDL application event moves the app to, and the
/// surface action taken before.
pub open spec fn spec_lifecycle_change(event: SdlAppEvent) -> (AppLifecycle, SurfaceAction) {
    match event {
        SdlAppEvent::WillEnterBackground => (AppLifecycle::WillSuspend, SurfaceAction::Destroy),
        SdlAppEvent::DidEnterBackground => (AppLifecycle::Suspended, SurfaceAction::Keep),
        SdlAppEvent::WillEnterForeground => (AppLifecycle::WillResume, SurfaceAction::Keep),
        SdlAppEvent::DidEnterForeground => (AppLifecycle::Running, SurfaceAction::EnsureExists),
    }
}

/// Handles an SDL application event at once, as the event watch does: gives
/// the lifecycle to apply and the surface action to take before.
pub fn lifecycle_change(event: SdlAppEvent) -> (change: (AppLifecycle, SurfaceAction))
    ensures
        change == spec_lifecycle_change(event),
{
    match event {
        SdlAppEvent::WillEnterBackground => (AppLifecycle::WillSuspend, SurfaceAction::Destroy),
        SdlAppEvent::DidEnterBackground => (AppLifecycle::Suspended, SurfaceAction::Keep),
        SdlAppEvent::WillEnterForeground => (AppLifecycle::WillResume, SurfaceAction::Keep),
        SdlAppEvent::DidEnterForeground => (AppLifecycle::Running, SurfaceAction::EnsureExists),
    }
}


/// A lifecycle change reaches the app at its next update: the update hands out
/// the lifecycle event last, leaves both queues empty, and records the lifecycle,
/// so applying the same lifecycle again forces no further update.
pub proof fn lemma_update_delivers_lifecycle<R, E>(v: LoopStateView<R, E>, lifecycle: AppLifecycle)
    ensures
        ({
            let (v1, _) = v.apply_lifecycle(lifecycle);
            let (v2, _, handed) = v1.force_update();
            &&& handed.len() > 0
            &&& handed.last() == LoopEvent::<E>::Lifecycle(lifecycle)
            &&& v2.bevy_window_events.len() == 0
            &&& v2.raw_sdl_events.len() == 0
            &&& !v2.apply_lifecycle(lifecycle).1
        }),
{
}

/// An exit request is never forgotten: once the loop was asked to exit, later
/// SDL events and app updates keep the request, and the loop ends whatever the
/// app says.
pub proof fn lemma_exit_is_sticky<R, E>(
    v: LoopStateView<R, E>,
    raw: R,
    request_exit: bool,
    events: Seq<LoopEvent<E>>,
    later_raw: R,
    later_events: Seq<LoopEvent<E>>,
)
    requires
        v.exit || request_exit,
    ensures
        v.record_sdl_event(raw, request_exit, events).should_exit(false),
        v.record_sdl_event(raw, request_exit, events).record_sdl_event(later_raw, false, later_events).should_exit(false),
        v.record_sdl_event(raw, request_exit, events).force_update().0.should_exit(false),
{
}

/// Each destroyed window is announced exactly once: recording an SDL event
/// appends one destroyed event per window destroyed meanwhile, in order, and
/// forgets them.
pub proof fn lemma_destroyed_windows_announced<E>(events: Seq<LoopEvent<E>>, destroyed: Seq<u64>)
    ensures
        with_destroyed(events, destroyed).len() == events.len() + destroyed.len(),
        forall|i: int| 0 <= i < destroyed.len() ==> #[trigger] with_destroyed(events, destroyed)[events.len() + i]
            == LoopEvent::<E>::WindowDestroyed(destroyed[i]),
        forall|i: int| 0 <= i < events.len() ==> #[trigger] with_destroyed(events, destroyed)[i] == events[i],
{
}

/// Entering the background stops the regular updates only once the app is in
/// the background: the app still updates while it will suspend, not once
/// suspended, and again from the moment it will resume.
pub proof fn lemma_background_stops_updates()
    ensures
        spec_lifecycle_change(SdlAppEvent::WillEnterBackground).0.spec_is_active(),
        !spec_lifecycle_change(SdlAppEvent::DidEnterBackground).0.spec_is_active(),
        spec_lifecycle_change(SdlAppEvent::WillEnterForeground).0.spec_is_active(),
        spec_lifecycle_change(SdlAppEvent::DidEnterForeground).0.spec_is_active(),
        !AppLifecycle::Idle.spec_is_active(),
{
}

/// What each SDL application event does: entering the background is about to
/// suspend the app and destroys the surface, having entered it suspends the app,
/// entering the foreground is about to resume it, and having entered it runs the
/// app and gives windows their surfaces back. The app is updated in every state
/// but idle and suspended.
pub proof fn lemma_lifecycle_table()
    ensures
        spec_lifecycle_change(SdlAppEvent::WillEnterBackground) == (AppLifecycle::WillSuspend, SurfaceAction::Destroy),
        spec_lifecycle_change(SdlAppEvent::DidEnterBackground) == (AppLifecycle::Suspended, SurfaceAction::Keep),
        spec_lifecycle_change(SdlAppEvent::WillEnterForeground) == (AppLifecycle::WillResume, SurfaceAction::Keep),
        spec_lifecycle_change(SdlAppEvent::DidEnterForeground) == (AppLifecycle::Running, SurfaceAction::EnsureExists),
        !AppLifecycle::Idle.spec_is_active(),
        AppLifecycle::Running.spec_is_active(),
        AppLifecycle::WillSuspend.spec_is_active(),
        !AppLifecycle::Suspended.spec_is_active(),
        AppLifecycle::WillResume.spec_is_active(),
{
}

/// The loop state's steps: moving to a lifecycle queues its event after the
/// others and forces an update exactly when it differs from the last update's;
/// only an idle app is resumed, to running; an update hands out exactly the
/// queued events and leaves none; recording an SDL event queues it after the
/// others, with its window events and the destroyed windows after the queued
/// window events; the loop ends when the app or an SDL event asked for it.
pub proof fn lemma_loop_state_steps<R, E>(
    v: LoopStateView<R, E>,
    lifecycle: AppLifecycle,
    raw: R,
    request_exit: bool,
    events: Seq<LoopEvent<E>>,
    app_requested_exit: bool,
)
    ensures
        ({
            let (next, force) = v.apply_lifecycle(lifecycle);
            &&& next.lifecycle == lifecycle
            &&& next.bevy_window_events == v.bevy_window_events.push(LoopEvent::Lifecycle(lifecycle))
            &&& next.raw_sdl_events == v.raw_sdl_events
            &&& next.last_app_update_lifecycle == v.last_app_update_lifecycle
            &&& next.exit == v.exit
            &&& force <==> v.last_app_update_lifecycle != lifecycle
        }),
        v.lifecycle == AppLifecycle::Idle ==> v.resume_if_idle().0.lifecycle == AppLifecycle::Running
            && v.resume_if_idle().1 == Some(v.last_app_update_lifecycle != AppLifecycle::Running),
        v.lifecycle != AppLifecycle::Idle ==> v.resume_if_idle().0 == v && v.resume_if_idle().1 == None::<bool>,
        ({
            let (next, raw_out, events_out) = v.force_update();
            &&& raw_out == v.raw_sdl_events
            &&& events_out == v.bevy_window_events
            &&& next.raw_sdl_events.len() == 0
            &&& next.bevy_window_events.len() == 0
            &&& next.last_app_update_lifecycle == v.lifecycle
            &&& next.lifecycle == v.lifecycle
            &&& next.exit == v.exit
        }),
        ({
            let next = v.record_sdl_event(raw, request_exit, events);
            &&& next.raw_sdl_events == v.raw_sdl_events.push(raw)
            &&& next.bevy_window_events.len() == v.bevy_window_events.len() + events.len() + v.destroyed_windows.len()
            &&& forall|i: int| 0 <= i < v.bevy_window_events.len() ==> #[trigger] next.bevy_window_events[i] == v.bevy_window_events[i]
            &&& forall|i: int| 0 <= i < events.len() ==> #[trigger] next.bevy_window_events[v.bevy_window_events.len() + i] == events[i]
            &&& forall|i: int| 0 <= i < v.destroyed_windows.len() ==> #[trigger] next.bevy_window_events[v.bevy_window_events.len() + events.len() + i]
                == LoopEvent::<E>::WindowDestroyed(v.destroyed_windows[i])
            &&& next.destroyed_windows.len() == 0
            &&& next.exit == (v.exit || request_exit)
            &&& next.lifecycle == v.lifecycle
        }),
        v.should_exit(app_requested_exit) == (app_requested_exit || v.exit),
{
    let next = v.record_sdl_event(raw, request_exit, events);
    let w = with_destroyed(events, v.destroyed_windows);
    assert forall|i: int| 0 <= i < events.len() implies #[trigger] next.bevy_window_events[v.bevy_window_events.len() + i] == events[i] by {
        assert(w[i] == events[i]);
    }
    assert forall|i: int| 0 <= i < v.destroyed_windows.len() implies #[trigger] next.bevy_window_events[v.bevy_window_events.len() + events.len() + i]
        == LoopEvent::<E>::WindowDestroyed(v.destroyed_windows[i]) by {
        assert(w[events.len() + i] == LoopEvent::<E>::WindowDestroyed(v.destroyed_windows[i]));
    }
}

} // verus!

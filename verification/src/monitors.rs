use vstd::prelude::*;

use crate::window_model::{MonitorSelection, VideoMode, VideoModeSelection};

verus! {

/// The SDL displays known to the app, each with the Bevy entity (by its bits)
/// that stands for it as a monitor, in the order they were found.
pub struct SdlMonitors {
    displays: Vec<(u32, u64)>,
}

/// The index of the first entry whose entity is `entity`.
#[verifier::opaque]
pub open spec fn first_with_entity(s: Seq<(u32, u64)>, entity: u64) -> Option<int> {
    if exists|i: int|
        0 <= i < s.len() && (#[trigger] s[i]).1 == entity && forall|j: int|
            0 <= j < i ==> (#[trigger] s[j]).1 != entity {
        let i = choose|i: int|
            0 <= i < s.len() && (#[trigger] s[i]).1 == entity && forall|j: int|
                0 <= j < i ==> (#[trigger] s[j]).1 != entity;
        Some(i)
    } else {
        None
    }
}

/// The index of the first entry whose display is `display`.
#[verifier::opaque]
pub open spec fn first_with_display(s: Seq<(u32, u64)>, display: u32) -> Option<int> {
    if exists|i: int|
        0 <= i < s.len() && (#[trigger] s[i]).0 == display && forall|j: int|
            0 <= j < i ==> (#[trigger] s[j]).0 != display {
        let i = choose|i: int|
            0 <= i < s.len() && (#[trigger] s[i]).0 == display && forall|j: int|
                0 <= j < i ==> (#[trigger] s[j]).0 != display;
        Some(i)
    } else {
        None
    }
}

/// The display of the first entry for `entity`.
pub open spec fn spec_find_entity(s: Seq<(u32, u64)>, entity: u64) -> Option<u32> {
    match first_with_entity(s, entity) {
        Some(i) => Some(s[i].0),
        None => None,
    }
}

/// The entity of the first entry for `display`.
pub open spec fn spec_find_display_entity(s: Seq<(u32, u64)>, display: u32) -> Option<u64> {
    match first_with_display(s, display) {
        Some(i) => Some(s[i].1),
        None => None,
    }
}

/// The entries of the first `n` entries whose seen flag is set, in order.
pub open spec fn kept_entries(s: Seq<(u32, u64)>, seen: Seq<bool>, n: nat) -> Seq<(u32, u64)>
    decreases n,
{
    if n == 0 {
        seq![]
    } else {
        let prev = kept_entries(s, seen, (n - 1) as nat);
        if seen[n - 1] {
            prev.push(s[n - 1])
        } else {
            prev
        }
    }
}

/// The entities of the first `n` entries whose seen flag is not set, in order.
pub open spec fn removed_entities(s: Seq<(u32, u64)>, seen: Seq<bool>, n: nat) -> Seq<u64>
    decreases n,
{
    if n == 0 {
        seq![]
    } else {
        let prev = removed_entities(s, seen, (n - 1) as nat);
        if seen[n - 1] {
            prev
        } else {
            prev.push(s[n - 1].1)
        }
    }
}

/// Whether the primary-monitor marker of `entity` is stale: the entity is no
/// known monitor, or its display is not the primary display.
pub open spec fn marker_is_stale(s: Seq<(u32, u64)>, primary: Option<u32>, entity: u64) -> bool {
    match spec_find_entity(s, entity) {
        Some(d) => primary != Some(d),
        None => true,
    }
}

/// The entities among the first `n` of `marked` whose marker is stale, in order.
pub open spec fn stale_markers(s: Seq<(u32, u64)>, primary: Option<u32>, marked: Seq<u64>, n: nat) -> Seq<u64>
    decreases n,
{
    if n == 0 {
        seq![]
    } else {
        let prev = stale_markers(s, primary, marked, (n - 1) as nat);
        if marker_is_stale(s, primary, marked[n - 1]) {
            prev.push(marked[n - 1])
        } else {
            prev
        }
    }
}

/// The displays SDL reports, each with whether its bounds could be read; none
/// when SDL could not list them.
pub open spec fn reported_view(reported: Option<&Vec<(u32, bool)>>) -> Seq<(u32, bool)> {
    match reported {
        Some(r) => r@,
        None => Seq::empty(),
    }
}

/// Whether entry `i` is the first entry of its display.
pub open spec fn first_of_display(s: Seq<(u32, u64)>, i: int) -> bool {
    forall|j: int| 0 <= j < i ==> (#[trigger] s[j]).0 != s[i].0
}

/// Whether some entry has `display`.
pub open spec fn old_has_display(s: Seq<(u32, u64)>, display: u32) -> bool {
    exists|i: int| 0 <= i < s.len() && (#[trigger] s[i]).0 == display
}

/// Whether entry `i` is the first entry of a display among the first `k`
/// reported ones.
pub open spec fn reported_upto(s: Seq<(u32, u64)>, reported: Seq<(u32, bool)>, k: int, i: int) -> bool {
    &&& exists|r: int| 0 <= r < k && (#[trigger] reported[r]).0 == s[i].0
    &&& first_of_display(s, i)
}

/// The seen flag of each known display after a scan: set on the first entry of
/// each display that is still reported.
pub open spec fn spec_seen(s: Seq<(u32, u64)>, reported: Seq<(u32, bool)>) -> Seq<bool> {
    Seq::new(s.len(), |i: int| reported_upto(s, reported, reported.len() as int, i))
}

/// The new displays among the first `n` reported ones, in order: unknown, with
/// readable bounds, each once.
pub open spec fn new_displays_upto(s: Seq<(u32, u64)>, reported: Seq<(u32, bool)>, n: nat) -> Seq<u32>
    decreases n,
{
    if n == 0 {
        seq![]
    } else {
        let prev = new_displays_upto(s, reported, (n - 1) as nat);
        let d = reported[n - 1].0;
        if reported[n - 1].1 && !old_has_display(s, d) && !prev.contains(d) {
            prev.push(d)
        } else {
            prev
        }
    }
}

/// The new displays among the reported ones.
pub open spec fn spec_new_displays(s: Seq<(u32, u64)>, reported: Seq<(u32, bool)>) -> Seq<u32> {
    new_displays_upto(s, reported, reported.len())
}

/// For each new display, whether it is the primary one.
pub open spec fn spec_primary_flags(new: Seq<u32>, primary: Option<u32>) -> Seq<bool> {
    Seq::new(new.len(), |i: int| primary == Some(new[i]))
}

/// The known displays after a sync pass: the known ones still reported, in
/// order, then the new ones with their monitor entities.
pub open spec fn spec_synced_displays(s: Seq<(u32, u64)>, reported: Seq<(u32, bool)>, entities: Seq<u64>) -> Seq<(u32, u64)> {
    let new = spec_new_displays(s, reported);
    kept_entries(s, spec_seen(s, reported), s.len())
        + Seq::new(new.len(), |i: int| (new[i], entities[i]))
}

/// What a sync pass hands back.
#[derive(Debug, Clone)]
pub struct DisplaySync {
    /// The monitor entities of the displays no longer reported, to despawn.
    pub removed: Vec<u64>,
    /// For each new monitor, whether it is the primary one.
    pub primary: Vec<bool>,
}

fn contains_display(v: &Vec<u32>, d: u32) -> (found: bool)
    ensures
        found == v@.contains(d),
{
    let mut i: usize = 0;
    while i < v.len()
        invariant
            i <= v@.len(),
            forall|j: int| 0 <= j < i ==> v@[j] != d,
        decreases v@.len() - i,
    {
        if v[i] == d {
            assert(v@[i as int] == d);
            return true;
        }
        i = i + 1;
    }
    false
}

/// The refresh rate of a display mode in millihertz: from the exact ratio when
/// both its parts are positive, else from the rate in hertz (`float_millihertz`,
/// the floating-point rate times a thousand, truncated, when that rate is finite
/// and positive); `None` when neither is available or the value exceeds `u32`.
pub open spec fn spec_refresh_rate_millihertz(numerator: i32, denominator: i32, float_millihertz: Option<u64>) -> Option<u32> {
    if numerator > 0 && denominator > 0 {
        let mhz = (numerator as int * 1000) / denominator as int;
        if mhz <= u32::MAX {
            Some(mhz as u32)
        } else {
            None
        }
    } else {
        match float_millihertz {
            Some(m) => if m <= u32::MAX {
                Some(m as u32)
            } else {
                None
            },
            None => None,
        }
    }
}

/// Computes the refresh rate of an SDL display mode in millihertz (see
/// [`spec_refresh_rate_millihertz`]).
pub fn get_refresh_rate_millihertz(numerator: i32, denominator: i32, float_millihertz: Option<u64>) -> (mhz: Option<u32>)
    ensures
        mhz == spec_refresh_rate_millihertz(numerator, denominator, float_millihertz),
{
    if numerator > 0 && denominator > 0 {
        let n: u64 = numerator as u64;
        let d: u64 = denominator as u64;
        assert(n * 1000 <= 2_147_483_647_000) by (nonlinear_arith)
            requires
                n <= 2_147_483_647,
        ;
        let q: u64 = (n * 1000) / d;
        if q <= 4_294_967_295 {
            Some(q as u32)
        } else {
            None
        }
    } else {
        match float_millihertz {
            Some(m) => {
                if m <= 4_294_967_295 {
                    Some(m as u32)
                } else {
                    None
                }
            },
            None => None,
        }
    }
}

/// Splits a refresh rate in millihertz into whole hertz and the millihertz left over.
pub fn split_millihertz(mhz: u32) -> (parts: (u32, u32))
    ensures
        parts.0 * 1000 + parts.1 == mhz,
        parts.1 < 1000,
{
    (mhz / 1000, mhz % 1000)
}

impl SdlMonitors {
    /// The known displays and their entities, in order.
    pub closed spec fn displays(&self) -> Seq<(u32, u64)> {
        self.displays@
    }

    /// No display known.
    pub fn new() -> (monitors: Self)
        ensures
            monitors.displays() == Seq::<(u32, u64)>::empty(),
    {
        SdlMonitors { displays: Vec::new() }
    }

    /// The known displays and their monitor entities, in order.
    pub fn entries(&self) -> (entries: &Vec<(u32, u64)>)
        ensures
            entries@ == self.displays(),
    {
        &self.displays
    }

    /// The number of known displays.
    pub fn len(&self) -> (n: usize)
        ensures
            n == self.displays().len(),
    {
        self.displays.len()
    }

    /// The index of the first known display `display`.
    fn first_index_of(&self, display: u32) -> (index: Option<usize>)
        ensures
            match index {
                Some(i) => {
                    &&& i < self.displays().len()
                    &&& self.displays()[i as int].0 == display
                    &&& forall|j: int| 0 <= j < i ==> (#[trigger] self.displays()[j]).0 != display
                },
                None => forall|j: int| 0 <= j < self.displays().len() ==> (#[trigger] self.displays()[j]).0 != display,
            },
    {
        let mut i: usize = 0;
        while i < self.displays.len()
            invariant
                i <= self.displays@.len(),
                forall|j: int| 0 <= j < i ==> (#[trigger] self.displays@[j]).0 != display,
            decreases self.displays@.len() - i,
        {
            if self.displays[i].0 == display {
                return Some(i);
            }
            i = i + 1;
        }
        None
    }

    /// One scan over the displays SDL reports: the seen flag of each known
    /// display, the new displays to create monitors for, and whether each of
    /// them is the primary display.
    fn scan(&self, reported: Option<&Vec<(u32, bool)>>, primary: Option<u32>) -> (scanned: (Vec<bool>, Vec<u32>, Vec<bool>))
        ensures
            scanned.0@ == spec_seen(self.displays(), reported_view(reported)),
            scanned.1@ == spec_new_displays(self.displays(), reported_view(reported)),
            scanned.2@ == spec_primary_flags(scanned.1@, primary),
    {
        let ghost old = self.displays@;
        let mut seen: Vec<bool> = Vec::new();
        let mut i: usize = 0;
        while i < self.displays.len()
            invariant
                old == self.displays@,
                i <= old.len(),
                seen@ =~= Seq::new(i as nat, |j: int| false),
            decreases old.len() - i,
        {
            seen.push(false);
            i = i + 1;
        }
        let mut added: Vec<u32> = Vec::new();
        let mut marked: Vec<bool> = Vec::new();
        let empty: Vec<(u32, bool)> = Vec::new();
        let rep: &Vec<(u32, bool)> = match reported {
            Some(r) => r,
            None => &empty,
        };
        assert(rep@ == reported_view(reported));
        let mut k: usize = 0;
        while k < rep.len()
            invariant
                old == self.displays@,
                rep@ == reported_view(reported),
                k <= rep@.len(),
                seen@ =~= Seq::new(old.len(), |j: int| reported_upto(old, rep@, k as int, j)),
                added@ == new_displays_upto(old, rep@, k as nat),
                marked@ =~= spec_primary_flags(added@, primary),
            decreases rep@.len() - k,
        {
            let (d, has_bounds) = rep[k];
            match self.first_index_of(d) {
                Some(idx) => {
                    seen.set(idx, true);
                    assert forall|j: int| 0 <= j < old.len() implies #[trigger] seen@[j] == reported_upto(old, rep@, k + 1, j) by {
                        if j != idx && old[j].0 == d && first_of_display(old, j) {
                            if j < idx {
                                assert(old[j].0 != d);
                            } else {
                                assert(old[idx as int].0 != old[j].0);
                            }
                        }
                        if reported_upto(old, rep@, k + 1, j) && !reported_upto(old, rep@, k as int, j) {
                            let r = choose|r: int| 0 <= r < k + 1 && rep@[r].0 == old[j].0;
                            assert(r == k);
                        }
                        if j == idx {
                            assert(rep@[k as int].0 == old[j].0);
                        }
                    }
                },
                None => {
                    assert forall|j: int| 0 <= j < old.len() implies #[trigger] old[j].0 != d by {
                        assert(self.displays()[j].0 != d);
                    }
                    let fresh = !contains_display(&added, d);
                    if has_bounds && fresh {
                        added.push(d);
                        marked.push(match primary {
                            Some(p) => p == d,
                            None => false,
                        });
                    }
                    assert forall|j: int| 0 <= j < old.len() implies #[trigger] seen@[j] == reported_upto(old, rep@, k + 1, j) by {
                        if reported_upto(old, rep@, k + 1, j) && !reported_upto(old, rep@, k as int, j) {
                            let r = choose|r: int| 0 <= r < k + 1 && rep@[r].0 == old[j].0;
                            assert(r == k);
                        }
                    }
                    assert(old_has_display(old, d) == false);
                },
            }
            k = k + 1;
        }
        assert(seen@ =~= spec_seen(old, rep@));
        (seen, added, marked)
    }

    /// The new displays among those SDL reports, in SDL's order: those that no
    /// known monitor has and whose bounds could be read, each once.
    /// `reported` holds each reported display with whether its bounds could be
    /// read; `None` when SDL could not list its displays.
    pub fn new_displays(&self, reported: Option<&Vec<(u32, bool)>>) -> (new: Vec<u32>)
        ensures
            new@ == spec_new_displays(self.displays(), reported_view(reported)),
    {
        let (_, new, _) = self.scan(reported, None);
        new
    }

    /// A whole monitor sync pass. `reported` holds the displays SDL reports, in
    /// its order, each with whether its bounds could be read (`None` when SDL
    /// could not list them); `entities` holds the monitor entities created for
    /// [`Self::new_displays`], in the same order. The known displays become the
    /// known ones that are still reported, in order, followed by the new ones with
    /// their entities; the monitors of the others are returned to be despawned,
    /// and each new monitor is flagged when its display is the primary one.
    pub fn sync_displays(&mut self, reported: Option<&Vec<(u32, bool)>>, entities: &Vec<u64>, primary: Option<u32>) -> (outcome: DisplaySync)
        requires
            entities@.len() == spec_new_displays(old(self).displays(), reported_view(reported)).len(),
        ensures
            final(self).displays() == spec_synced_displays(old(self).displays(), reported_view(reported), entities@),
            outcome.removed@ == removed_entities(
                old(self).displays(),
                spec_seen(old(self).displays(), reported_view(reported)),
                old(self).displays().len(),
            ),
            outcome.primary@ == spec_primary_flags(spec_new_displays(old(self).displays(), reported_view(reported)), primary),
    {
        let ghost old = self.displays@;
        let (seen, added, marked) = self.scan(reported, primary);
        let mut kept: Vec<(u32, u64)> = Vec::new();
        let mut removed: Vec<u64> = Vec::new();
        let mut i: usize = 0;
        while i < self.displays.len()
            invariant
                self.displays@ == old,
                seen@.len() == old.len(),
                i <= old.len(),
                kept@ == kept_entries(old, seen@, i as nat),
                removed@ == removed_entities(old, seen@, i as nat),
            decreases old.len() - i,
        {
            let entry = self.displays[i];
            if seen[i] {
                kept.push(entry);
            } else {
                removed.push(entry.1);
            }
            i = i + 1;
        }
        let ghost before = kept@;
        let mut n: usize = 0;
        while n < added.len()
            invariant
                added@.len() == entities@.len(),
                n <= added@.len(),
                kept@ =~= before + Seq::new(n as nat, |m: int| (added@[m], entities@[m])),
            decreases added@.len() - n,
        {
            kept.push((added[n], entities[n]));
            n = n + 1;
        }
        self.displays = kept;
        DisplaySync { removed, primary: marked }
    }

    /// The monitors among `marked` (the entities now carrying the primary-monitor
    /// marker) whose marker is to be removed, in order.
    pub fn stale_primary_markers(&self, primary: Option<u32>, marked: &Vec<u64>) -> (stale: Vec<u64>)
        ensures
            stale@ == stale_markers(self.displays(), primary, marked@, marked@.len()),
    {
        let mut stale: Vec<u64> = Vec::new();
        let mut i: usize = 0;
        while i < marked.len()
            invariant
                i <= marked@.len(),
                stale@ == stale_markers(self.displays(), primary, marked@, i as nat),
            decreases marked@.len() - i,
        {
            let entity = marked[i];
            let keep = match self.find_entity(entity) {
                Some(d) => match primary {
                    Some(p) => p == d,
                    None => false,
                },
                None => false,
            };
            if !keep {
                stale.push(entity);
            }
            i = i + 1;
        }
        stale
    }

    /// How the monitor link of a window changes: `link` is the monitor entity the
    /// window is linked to, `current_display` the display SDL reports for it.
    pub fn monitor_link_update(&self, link: Option<u64>, current_display: Option<u32>) -> (update: MonitorLinkUpdate)
        ensures
            update == spec_monitor_link_update(self.displays(), link, current_display),
    {
        match link {
            Some(linked_entity) => match current_display {
                Some(d) => match self.find_entity(linked_entity) {
                    Some(linked_display) => {
                        if linked_display != d {
                            match self.find_display_entity(d) {
                                Some(e) => MonitorLinkUpdate::Link(e),
                                None => MonitorLinkUpdate::Keep,
                            }
                        } else {
                            MonitorLinkUpdate::Keep
                        }
                    },
                    None => MonitorLinkUpdate::Keep,
                },
                None => MonitorLinkUpdate::Unlink,
            },
            None => match current_display {
                Some(d) => match self.find_display_entity(d) {
                    Some(e) => MonitorLinkUpdate::Link(e),
                    None => MonitorLinkUpdate::Keep,
                },
                None => MonitorLinkUpdate::Keep,
            },
        }
    }

    /// The display that a monitor selection names: the window's current display,
    /// the primary display, the display at an index of SDL's list, or the display
    /// of a monitor entity.
    pub fn select_monitor(&self, selection: MonitorSelection, current: u32, primary: Option<u32>, all_displays: &Vec<u32>) -> (display: Option<u32>)
        ensures
            display == spec_select_monitor(self.displays(), selection, current, primary, all_displays@),
    {
        match selection {
            MonitorSelection::Current => Some(current),
            MonitorSelection::Primary => primary,
            MonitorSelection::Index(n) => {
                if n < all_displays.len() {
                    Some(all_displays[n])
                } else {
                    None
                }
            },
            MonitorSelection::Entity(e) => self.find_entity(e),
        }
    }

    /// The display of the monitor `entity`, if it is a known monitor.
    pub fn find_entity(&self, entity: u64) -> (display: Option<u32>)
        ensures
            display == spec_find_entity(self.displays(), entity),
    {
        let mut i: usize = 0;
        while i < self.displays.len()
            invariant
                i <= self.displays@.len(),
                forall|j: int| 0 <= j < i ==> (#[trigger] self.displays@[j]).1 != entity,
            decreases self.displays@.len() - i,
        {
            if self.displays[i].1 == entity {
                let ghost s = self.displays@;
                assert(0 <= i < s.len() && s[i as int].1 == entity && forall|j: int|
                    0 <= j < i ==> (#[trigger] s[j]).1 != entity);
                proof {
                    reveal(first_with_entity);
                    let k = first_with_entity(s, entity)->0;
                    if k < i {
                        assert(s[k].1 != entity);
                    }
                }
                return Some(self.displays[i].0);
            }
            i = i + 1;
        }
        proof {
            reveal(first_with_entity);
        }
        None
    }

    /// The monitor entity of `display`, if the display is known.
    pub fn find_display_entity(&self, display: u32) -> (entity: Option<u64>)
        ensures
            entity == spec_find_display_entity(self.displays(), display),
    {
        let mut i: usize = 0;
        while i < self.displays.len()
            invariant
                i <= self.displays@.len(),
                forall|j: int| 0 <= j < i ==> (#[trigger] self.displays@[j]).0 != display,
            decreases self.displays@.len() - i,
        {
            if self.displays[i].0 == display {
                let ghost s = self.displays@;
                assert(0 <= i < s.len() && s[i as int].0 == display && forall|j: int|
                    0 <= j < i ==> (#[trigger] s[j]).0 != display);
                proof {
                    reveal(first_with_display);
                    let k = first_with_display(s, display)->0;
                    if k < i {
                        assert(s[k].0 != display);
                    }
                }
                return Some(self.displays[i].1);
            }
            i = i + 1;
        }
        proof {
            reveal(first_with_display);
        }
        None
    }
}


/// How the monitor link of a window changes.
#[derive(Debug, Clone, Copy, PartialEq, Eq, Structural)]
pub enum MonitorLinkUpdate {
    /// Leave the link as it is.
    Keep,
    /// Link the window to this monitor entity.
    Link(u64),
    /// Remove the window's link.
    Unlink,
}

/// A linked window whose display moved to another known monitor is relinked to
/// it; a window whose display SDL cannot tell is unlinked; an unlinked window on a
/// known display is linked to it.
pub open spec fn spec_monitor_link_update(s: Seq<(u32, u64)>, link: Option<u64>, current_display: Option<u32>) -> MonitorLinkUpdate {
    match link {
        Some(linked_entity) => match current_display {
            Some(d) => match spec_find_entity(s, linked_entity) {
                Some(linked_display) => if linked_display != d {
                    match spec_find_display_entity(s, d) {
                        Some(e) => MonitorLinkUpdate::Link(e),
                        None => MonitorLinkUpdate::Keep,
                    }
                } else {
                    MonitorLinkUpdate::Keep
                },
                None => MonitorLinkUpdate::Keep,
            },
            None => MonitorLinkUpdate::Unlink,
        },
        None => match current_display {
            Some(d) => match spec_find_display_entity(s, d) {
                Some(e) => MonitorLinkUpdate::Link(e),
                None => MonitorLinkUpdate::Keep,
            },
            None => MonitorLinkUpdate::Keep,
        },
    }
}

/// The display a monitor selection names.
pub open spec fn spec_select_monitor(s: Seq<(u32, u64)>, selection: MonitorSelection, current: u32, primary: Option<u32>, all_displays: Seq<u32>) -> Option<u32> {
    match selection {
        MonitorSelection::Current => Some(current),
        MonitorSelection::Primary => primary,
        MonitorSelection::Index(n) => if n < all_displays.len() {
            Some(all_displays[n as int])
        } else {
            None
        },
        MonitorSelection::Entity(e) => spec_find_entity(s, e),
    }
}

/// Which of a display's video modes a selection asks for.
#[derive(Debug, Clone, Copy, PartialEq, Eq, Structural)]
pub enum VideoModeChoice {
    /// Keep the display mode the window has.
    KeepCurrent,
    /// Use the mode at this index of the display's modes.
    Use(usize),
    /// The display offers no such mode.
    NotAvailable,
}

/// The index of the first mode equal to `mode`.
pub open spec fn first_mode_index(modes: Seq<VideoMode>, mode: VideoMode) -> Option<int> {
    if exists|i: int| 0 <= i < modes.len() && modes[i] == mode && forall|j: int| 0 <= j < i ==> modes[j] != mode {
        Some(choose|i: int| 0 <= i < modes.len() && modes[i] == mode && forall|j: int| 0 <= j < i ==> modes[j] != mode)
    } else {
        None
    }
}

/// The mode that a video mode selection picks among a display's modes.
pub open spec fn spec_select_video_mode(selection: VideoModeSelection, modes: Seq<VideoMode>) -> VideoModeChoice {
    match selection {
        VideoModeSelection::Current => VideoModeChoice::KeepCurrent,
        VideoModeSelection::Specific(mode) => match first_mode_index(modes, mode) {
            Some(i) => VideoModeChoice::Use(i as usize),
            None => VideoModeChoice::NotAvailable,
        },
    }
}

/// Picks the video mode that a selection asks for: the first of the display's
/// modes with the same size, bit depth and refresh rate.
pub fn select_video_mode(selection: VideoModeSelection, modes: &Vec<VideoMode>) -> (choice: VideoModeChoice)
    ensures
        choice == spec_select_video_mode(selection, modes@),
{
    match selection {
        VideoModeSelection::Current => VideoModeChoice::KeepCurrent,
        VideoModeSelection::Specific(mode) => {
            let mut i: usize = 0;
            while i < modes.len()
                invariant
                    selection == VideoModeSelection::Specific(mode),
                    i <= modes@.len(),
                    forall|j: int| 0 <= j < i ==> modes@[j] != mode,
                decreases modes@.len() - i,
            {
                if modes[i] == mode {
                    let ghost s = modes@;
                    assert(s[i as int] == mode);
                    assert(0 <= i < s.len() && s[i as int] == mode && forall|j: int| 0 <= j < i ==> s[j] != mode);
                    proof {
                        let k = first_mode_index(s, mode)->0;
                        if k < i {
                            assert(s[k] != mode);
                        }
                    }
                    return VideoModeChoice::Use(i);
                }
                i = i + 1;
            }
            VideoModeChoice::NotAvailable
        },
    }
}


/// A sync pass splits the known displays: every entry is kept or has its entity
/// removed, never both, so the kept entries and the removed entities together
/// number as many as the entries.
pub proof fn lemma_retain_partitions(s: Seq<(u32, u64)>, seen: Seq<bool>, n: nat)
    requires
        n <= s.len(),
        n <= seen.len(),
    ensures
        kept_entries(s, seen, n).len() + removed_entities(s, seen, n).len() == n,
    decreases n,
{
    if n > 0 {
        lemma_retain_partitions(s, seen, (n - 1) as nat);
    }
}

/// An entry whose seen flag is set survives the sync pass; an entry whose flag is
/// unset has its monitor entity despawned.
pub proof fn lemma_retain_keeps_seen(s: Seq<(u32, u64)>, seen: Seq<bool>, n: nat, i: int)
    requires
        n <= s.len(),
        n <= seen.len(),
        0 <= i < n,
    ensures
        seen[i] ==> kept_entries(s, seen, n).contains(s[i]),
        !seen[i] ==> removed_entities(s, seen, n).contains(s[i].1),
    decreases n,
{
    if i < n - 1 {
        lemma_retain_keeps_seen(s, seen, (n - 1) as nat, i);
        let prev_k = kept_entries(s, seen, (n - 1) as nat);
        let prev_r = removed_entities(s, seen, (n - 1) as nat);
        if seen[i] {
            let j = choose|j: int| 0 <= j < prev_k.len() && prev_k[j] == s[i];
            if seen[n - 1] {
                assert(kept_entries(s, seen, n)[j] == s[i]);
            }
        } else {
            let j = choose|j: int| 0 <= j < prev_r.len() && prev_r[j] == s[i].1;
            if !seen[n - 1] {
                assert(removed_entities(s, seen, n)[j] == s[i].1);
            }
        }
    } else {
        if seen[i] {
            let k = kept_entries(s, seen, n);
            assert(k[k.len() - 1] == s[i]);
        } else {
            let r = removed_entities(s, seen, n);
            assert(r[r.len() - 1] == s[i].1);
        }
    }
}

/// Every entry that a sync pass keeps was seen: after the pass, each known display
/// is one that SDL reported (or that was added) in that pass.
pub proof fn lemma_kept_were_seen(s: Seq<(u32, u64)>, seen: Seq<bool>, n: nat)
    requires
        n <= s.len(),
        n <= seen.len(),
    ensures
        forall|x: (u32, u64)| #[trigger] kept_entries(s, seen, n).contains(x) ==> exists|i: int|
            0 <= i < n && seen[i] && s[i] == x,
    decreases n,
{
    if n > 0 {
        lemma_kept_were_seen(s, seen, (n - 1) as nat);
        let prev = kept_entries(s, seen, (n - 1) as nat);
        assert forall|x: (u32, u64)| #[trigger] kept_entries(s, seen, n).contains(x) implies exists|i: int|
            0 <= i < n && seen[i] && s[i] == x by {
            if seen[n - 1] && x == s[n - 1] {
                assert(seen[n - 1] && s[n - 1] == x);
            } else {
                let k = kept_entries(s, seen, n);
                let j = choose|j: int| 0 <= j < k.len() && k[j] == x;
                if seen[n - 1] {
                    assert(j < prev.len());
                    assert(prev[j] == x);
                }
                assert(prev.contains(x));
            }
        }
    }
}

/// A monitor added under an entity that no known monitor has is found by that
/// entity, and its display by the display.
pub proof fn lemma_find_after_add(s: Seq<(u32, u64)>, display: u32, entity: u64)
    requires
        forall|i: int| 0 <= i < s.len() ==> (#[trigger] s[i]).1 != entity,
        forall|i: int| 0 <= i < s.len() ==> (#[trigger] s[i]).0 != display,
    ensures
        spec_find_entity(s.push((display, entity)), entity) == Some(display),
        spec_find_display_entity(s.push((display, entity)), display) == Some(entity),
{
    reveal(first_with_entity);
    reveal(first_with_display);
    let t = s.push((display, entity));
    let n = s.len() as int;
    assert(t[n].1 == entity && forall|j: int| 0 <= j < n ==> (#[trigger] t[j]).1 != entity);
    assert(t[n].0 == display && forall|j: int| 0 <= j < n ==> (#[trigger] t[j]).0 != display);
    let k = first_with_entity(t, entity)->0;
    if k < n {
        assert(t[k] == s[k]);
    }
    let m = first_with_display(t, display)->0;
    if m < n {
        assert(t[m] == s[m]);
    }
}

/// The markers removed in a sync pass are exactly the marked monitors whose
/// marker is stale: a monitor whose display is the primary display keeps it.
pub proof fn lemma_stale_markers_exact(s: Seq<(u32, u64)>, primary: Option<u32>, marked: Seq<u64>, n: nat)
    requires
        n <= marked.len(),
    ensures
        forall|e: u64| #[trigger] stale_markers(s, primary, marked, n).contains(e) <==> exists|i: int|
            0 <= i < n && marked[i] == e && marker_is_stale(s, primary, e),
    decreases n,
{
    if n > 0 {
        lemma_stale_markers_exact(s, primary, marked, (n - 1) as nat);
        let prev = stale_markers(s, primary, marked, (n - 1) as nat);
        let cur = stale_markers(s, primary, marked, n);
        assert forall|e: u64| #[trigger] cur.contains(e) <==> exists|i: int|
            0 <= i < n && marked[i] == e && marker_is_stale(s, primary, e) by {
            if cur.contains(e) {
                let j = choose|j: int| 0 <= j < cur.len() && cur[j] == e;
                if j < prev.len() {
                    assert(prev[j] == e);
                    assert(prev.contains(e));
                } else {
                    assert(marked[n - 1] == e);
                }
            }
            if exists|i: int| 0 <= i < n && marked[i] == e && marker_is_stale(s, primary, e) {
                let i = choose|i: int| 0 <= i < n && marked[i] == e && marker_is_stale(s, primary, e);
                if i < n - 1 {
                    assert(prev.contains(e));
                    let j = choose|j: int| 0 <= j < prev.len() && prev[j] == e;
                    assert(cur[j] == e);
                } else {
                    assert(cur[cur.len() - 1] == e);
                }
            }
        }
    }
}


/// Every monitor entity in the list is found: its first entry exists.
pub proof fn lemma_known_entity_found(s: Seq<(u32, u64)>, entity: u64, i: int)
    requires
        0 <= i < s.len(),
        s[i].1 == entity,
    ensures
        spec_find_entity(s, entity) is Some,
    decreases i,
{
    reveal(first_with_entity);
    if exists|j: int| 0 <= j < i && (#[trigger] s[j]).1 == entity {
        let j = choose|j: int| 0 <= j < i && (#[trigger] s[j]).1 == entity;
        lemma_known_entity_found(s, entity, j);
    } else {
        assert(0 <= i < s.len() && s[i].1 == entity && forall|j: int| 0 <= j < i ==> (#[trigger] s[j]).1 != entity);
    }
}

/// Every display in the list is found: its first entry exists.
pub proof fn lemma_known_display_found(s: Seq<(u32, u64)>, display: u32, i: int)
    requires
        0 <= i < s.len(),
        s[i].0 == display,
    ensures
        spec_find_display_entity(s, display) is Some,
    decreases i,
{
    reveal(first_with_display);
    if exists|j: int| 0 <= j < i && (#[trigger] s[j]).0 == display {
        let j = choose|j: int| 0 <= j < i && (#[trigger] s[j]).0 == display;
        lemma_known_display_found(s, display, j);
    } else {
        assert(0 <= i < s.len() && s[i].0 == display && forall|j: int| 0 <= j < i ==> (#[trigger] s[j]).0 != display);
    }
}

/// No display is known twice.
pub open spec fn distinct_displays(s: Seq<(u32, u64)>) -> bool {
    forall|i: int, j: int| 0 <= i < j < s.len() ==> (#[trigger] s[i]).0 != (#[trigger] s[j]).0
}

/// The new displays of a scan are unknown before it and each appears once.
pub proof fn lemma_new_displays_fresh(s: Seq<(u32, u64)>, reported: Seq<(u32, bool)>, n: nat)
    requires
        n <= reported.len(),
    ensures
        forall|i: int| 0 <= i < new_displays_upto(s, reported, n).len()
            ==> !old_has_display(s, #[trigger] new_displays_upto(s, reported, n)[i]),
        forall|i: int, j: int| 0 <= i < j < new_displays_upto(s, reported, n).len()
            ==> (#[trigger] new_displays_upto(s, reported, n)[i]) != (#[trigger] new_displays_upto(s, reported, n)[j]),
    decreases n,
{
    if n > 0 {
        lemma_new_displays_fresh(s, reported, (n - 1) as nat);
        let prev = new_displays_upto(s, reported, (n - 1) as nat);
        let cur = new_displays_upto(s, reported, n);
        let d = reported[n - 1].0;
        if reported[n - 1].1 && !old_has_display(s, d) && !prev.contains(d) {
            assert forall|i: int, j: int| 0 <= i < j < cur.len() implies (#[trigger] cur[i]) != (#[trigger] cur[j]) by {
                if j == prev.len() {
                    assert(cur[i] == prev[i]);
                    if cur[i] == d {
                        assert(prev.contains(d));
                    }
                } else {
                    assert(cur[i] == prev[i] && cur[j] == prev[j]);
                }
            }
            assert forall|i: int| 0 <= i < cur.len() implies !old_has_display(s, #[trigger] cur[i]) by {
                if i < prev.len() {
                    assert(cur[i] == prev[i]);
                }
            }
        }
    }
}

/// The entries a sync pass keeps from known displays that are all distinct are
/// distinct too.
pub proof fn lemma_kept_distinct(s: Seq<(u32, u64)>, seen: Seq<bool>, n: nat)
    requires
        n <= s.len(),
        n <= seen.len(),
        distinct_displays(s),
    ensures
        distinct_displays(kept_entries(s, seen, n)),
    decreases n,
{
    if n > 0 {
        lemma_kept_distinct(s, seen, (n - 1) as nat);
        lemma_kept_were_seen(s, seen, (n - 1) as nat);
        let prev = kept_entries(s, seen, (n - 1) as nat);
        let cur = kept_entries(s, seen, n);
        if seen[n - 1] {
            assert forall|i: int, j: int| 0 <= i < j < cur.len() implies (#[trigger] cur[i]).0 != (#[trigger] cur[j]).0 by {
                if j == prev.len() {
                    assert(cur[i] == prev[i]);
                    assert(prev.contains(prev[i]));
                    let k = choose|k: int| 0 <= k < n - 1 && seen[k] && s[k] == prev[i];
                    assert(s[k].0 != s[n - 1].0);
                } else {
                    assert(cur[i] == prev[i] && cur[j] == prev[j]);
                }
            }
        }
    }
}

/// A sync pass over known displays that are all distinct keeps each known entry
/// exactly when SDL still reports its display, in order, follows them with the
/// new displays, and leaves no display known twice.
pub proof fn lemma_sync_pass(s: Seq<(u32, u64)>, reported: Seq<(u32, bool)>, entities: Seq<u64>)
    requires
        distinct_displays(s),
        entities.len() == spec_new_displays(s, reported).len(),
    ensures
        spec_seen(s, reported) == Seq::new(
            s.len(),
            |i: int| exists|r: int| 0 <= r < reported.len() && (#[trigger] reported[r]).0 == s[i].0,
        ),
        distinct_displays(spec_synced_displays(s, reported, entities)),
{
    let seen = spec_seen(s, reported);
    assert(seen =~= Seq::new(
        s.len(),
        |i: int| exists|r: int| 0 <= r < reported.len() && (#[trigger] reported[r]).0 == s[i].0,
    ));
    lemma_kept_distinct(s, seen, s.len());
    lemma_kept_were_seen(s, seen, s.len());
    lemma_new_displays_fresh(s, reported, reported.len());
    let kept = kept_entries(s, seen, s.len());
    let new = spec_new_displays(s, reported);
    let added = Seq::new(new.len(), |i: int| (new[i], entities[i]));
    let all = kept + added;
    assert forall|i: int, j: int| 0 <= i < j < all.len() implies (#[trigger] all[i]).0 != (#[trigger] all[j]).0 by {
        if j < kept.len() {
            assert(all[i] == kept[i] && all[j] == kept[j]);
        } else if i < kept.len() {
            assert(all[i] == kept[i]);
            assert(kept.contains(kept[i]));
            let k = choose|k: int| 0 <= k < s.len() && seen[k] && s[k] == kept[i];
            assert(all[j].0 == new[j - kept.len()]);
            assert(!old_has_display(s, new[j - kept.len()]));
        } else {
            assert(all[i].0 == new[i - kept.len()]);
            assert(all[j].0 == new[j - kept.len()]);
        }
    }
}

/// Each new monitor is flagged as the primary one exactly when its display is the
/// primary display, wherever it stands among the new displays.
pub proof fn lemma_primary_flags(new: Seq<u32>, primary: Option<u32>)
    ensures
        spec_primary_flags(new, primary).len() == new.len(),
        forall|i: int| 0 <= i < new.len() ==> (#[trigger] spec_primary_flags(new, primary)[i] <==> primary == Some(new[i])),
{
}

/// A display is among the new ones of a scan exactly when SDL reports it with
/// readable bounds and no known monitor has it.
pub proof fn lemma_new_displays_members(s: Seq<(u32, u64)>, reported: Seq<(u32, bool)>, n: nat)
    requires
        n <= reported.len(),
    ensures
        forall|d: u32| #[trigger] new_displays_upto(s, reported, n).contains(d) <==> (
            (exists|k: int| 0 <= k < n && #[trigger] reported[k] == (d, true))
            && !old_has_display(s, d)),
    decreases n,
{
    if n > 0 {
        lemma_new_displays_members(s, reported, (n - 1) as nat);
        lemma_new_displays_fresh(s, reported, (n - 1) as nat);
        let prev = new_displays_upto(s, reported, (n - 1) as nat);
        let cur = new_displays_upto(s, reported, n);
        let dn = reported[n - 1].0;
        assert forall|d: u32| #[trigger] cur.contains(d) <==> (
            (exists|k: int| 0 <= k < n && #[trigger] reported[k] == (d, true))
            && !old_has_display(s, d)) by {
            let pushed = reported[n - 1].1 && !old_has_display(s, dn) && !prev.contains(dn);
            if pushed {
                assert(cur == prev.push(dn));
                if cur.contains(d) && !prev.contains(d) {
                    let j = choose|j: int| 0 <= j < cur.len() && cur[j] == d;
                    if j < prev.len() {
                        assert(prev[j] == d);
                    }
                    assert(d == dn);
                    assert(reported[n - 1] == (d, true));
                }
                if prev.contains(d) {
                    let j = choose|j: int| 0 <= j < prev.len() && prev[j] == d;
                    assert(cur[j] == d);
                }
                if d == dn {
                    assert(cur[prev.len() as int] == d);
                }
            }
            if (exists|k: int| 0 <= k < n && #[trigger] reported[k] == (d, true)) && !old_has_display(s, d) {
                let k = choose|k: int| 0 <= k < n && #[trigger] reported[k] == (d, true);
                if k < n - 1 {
                    assert(prev.contains(d));
                    let j = choose|j: int| 0 <= j < prev.len() && prev[j] == d;
                    if pushed {
                        assert(cur[j] == d);
                    }
                } else if !prev.contains(d) {
                    assert(pushed);
                    assert(cur[prev.len() as int] == d);
                } else {
                    let j = choose|j: int| 0 <= j < prev.len() && prev[j] == d;
                    if pushed {
                        assert(cur[j] == d);
                    }
                }
            }
        }
    }
}

/// A refresh rate from an exact ratio is the ratio in millihertz rounded down;
/// without a usable ratio, it is the floating-point rate; either is dropped when
/// it exceeds `u32`.
pub proof fn lemma_refresh_rate(numerator: i32, denominator: i32, float_millihertz: Option<u64>)
    ensures
        numerator > 0 && denominator > 0 ==> match spec_refresh_rate_millihertz(numerator, denominator, float_millihertz) {
            Some(r) => r * denominator <= numerator * 1000 < (r + 1) * denominator,
            None => numerator * 1000 >= (u32::MAX + 1) * denominator,
        },
        !(numerator > 0 && denominator > 0) ==> spec_refresh_rate_millihertz(numerator, denominator, float_millihertz)
            == match float_millihertz {
                Some(m) => if m <= u32::MAX { Some(m as u32) } else { None::<u32> },
                None => None::<u32>,
            },
{
    if numerator > 0 && denominator > 0 {
        let n = numerator as int * 1000;
        let d = denominator as int;
        let q = n / d;
        assert(q * d <= n < (q + 1) * d) by (nonlinear_arith)
            requires
                d > 0,
                q == n / d,
        ;
        if q > u32::MAX {
            assert(n >= (u32::MAX + 1) * d) by (nonlinear_arith)
                requires
                    d > 0,
                    q >= u32::MAX + 1,
                    q * d <= n,
            ;
        }
    }
}

/// How a window's monitor link changes: a window whose display SDL cannot tell
/// loses its link when it has one; a window on a known display that it is not
/// linked to (because it has no link, or its linked monitor is on another
/// display) is linked to that display's monitor; otherwise the link stays.
pub proof fn lemma_monitor_link(s: Seq<(u32, u64)>, link: Option<u64>, current_display: Option<u32>)
    ensures
        link is Some && current_display is None ==> spec_monitor_link_update(s, link, current_display) == MonitorLinkUpdate::Unlink,
        link is None && current_display is None ==> spec_monitor_link_update(s, link, current_display) == MonitorLinkUpdate::Keep,
        forall|d: u32| #![trigger spec_find_display_entity(s, d)]
            current_display == Some(d) && (link is None || (link matches Some(l) && spec_find_entity(s, l) matches Some(ld) && ld != d))
                ==> spec_monitor_link_update(s, link, current_display) == match spec_find_display_entity(s, d) {
                    Some(e) => MonitorLinkUpdate::Link(e),
                    None => MonitorLinkUpdate::Keep,
                },
        forall|l: u64, d: u32| #![trigger spec_find_entity(s, l), spec_find_display_entity(s, d)]
            link == Some(l) && current_display == Some(d) && (spec_find_entity(s, l) is None || spec_find_entity(s, l) == Some(d))
                ==> spec_monitor_link_update(s, link, current_display) == MonitorLinkUpdate::Keep,
        spec_monitor_link_update(s, link, current_display) is Unlink ==> link is Some && current_display is None,
{
}

/// The display a monitor selection names: the window's current one, the primary
/// one, the one at the index of SDL's list when there is one, or that of the
/// monitor entity when it is known.
pub proof fn lemma_select_monitor(s: Seq<(u32, u64)>, current: u32, primary: Option<u32>, all_displays: Seq<u32>, n: usize, e: u64)
    ensures
        spec_select_monitor(s, MonitorSelection::Current, current, primary, all_displays) == Some(current),
        spec_select_monitor(s, MonitorSelection::Primary, current, primary, all_displays) == primary,
        n < all_displays.len() ==> spec_select_monitor(s, MonitorSelection::Index(n), current, primary, all_displays) == Some(all_displays[n as int]),
        n >= all_displays.len() ==> spec_select_monitor(s, MonitorSelection::Index(n), current, primary, all_displays) == None::<u32>,
        spec_select_monitor(s, MonitorSelection::Entity(e), current, primary, all_displays) == spec_find_entity(s, e),
        forall|i: int| 0 <= i < s.len() && s[i].1 == e && (forall|j: int| 0 <= j < i ==> (#[trigger] s[j]).1 != e)
            ==> spec_select_monitor(s, MonitorSelection::Entity(e), current, primary, all_displays) == Some(#[trigger] s[i].0),
{
    assert forall|i: int| 0 <= i < s.len() && s[i].1 == e && (forall|j: int| 0 <= j < i ==> (#[trigger] s[j]).1 != e)
        implies spec_select_monitor(s, MonitorSelection::Entity(e), current, primary, all_displays) == Some(#[trigger] s[i].0) by {
        reveal(first_with_entity);
        let k = first_with_entity(s, e)->0;
        assert(0 <= i < s.len() && s[i].1 == e && forall|j: int| 0 <= j < i ==> (#[trigger] s[j]).1 != e);
        if k < i {
            assert(s[k].1 != e);
        } else if k > i {
            assert(s[i].1 != e);
        }
    }
}

/// The video mode a selection picks: the current one is kept; a specific mode is
/// used at the index of its first equal among the display's modes, and is not
/// available when none is equal.
pub proof fn lemma_select_video_mode(selection: VideoModeSelection, modes: Seq<VideoMode>)
    requires
        modes.len() <= usize::MAX,
    ensures
        selection == VideoModeSelection::Current ==> spec_select_video_mode(selection, modes) == VideoModeChoice::KeepCurrent,
        forall|mode: VideoMode| selection == VideoModeSelection::Specific(mode) ==> match #[trigger] spec_select_video_mode(VideoModeSelection::Specific(mode), modes) {
            VideoModeChoice::Use(i) => i < modes.len() && modes[i as int] == mode && forall|j: int| 0 <= j < i ==> modes[j] != mode,
            VideoModeChoice::NotAvailable => !modes.contains(mode),
            VideoModeChoice::KeepCurrent => false,
        },
{
    assert forall|mode: VideoMode| selection == VideoModeSelection::Specific(mode) implies match #[trigger] spec_select_video_mode(VideoModeSelection::Specific(mode), modes) {
        VideoModeChoice::Use(i) => i < modes.len() && modes[i as int] == mode && forall|j: int| 0 <= j < i ==> modes[j] != mode,
        VideoModeChoice::NotAvailable => !modes.contains(mode),
        VideoModeChoice::KeepCurrent => false,
    } by {
        if modes.contains(mode) {
            let k = choose|k: int| 0 <= k < modes.len() && modes[k] == mode;
            lemma_first_mode_exists(modes, mode, k);
            let i = first_mode_index(modes, mode)->0;
            assert(0 <= i < modes.len() && modes[i] == mode && forall|j: int| 0 <= j < i ==> modes[j] != mode);
            assert((i as usize) as int == i);
        }
    }
}

proof fn lemma_first_mode_exists(modes: Seq<VideoMode>, mode: VideoMode, k: int)
    requires
        0 <= k < modes.len(),
        modes[k] == mode,
    ensures
        first_mode_index(modes, mode) is Some,
    decreases k,
{
    if exists|j: int| 0 <= j < k && modes[j] == mode {
        let j = choose|j: int| 0 <= j < k && modes[j] == mode;
        lemma_first_mode_exists(modes, mode, j);
    } else {
        assert(0 <= k < modes.len() && modes[k] == mode && forall|j: int| 0 <= j < k ==> modes[j] != mode);
    }
}

/// The new displays of a scan come in SDL's order: a new display listed before
/// another was reported with readable bounds before each such report of the other.
pub proof fn lemma_new_displays_order(s: Seq<(u32, u64)>, reported: Seq<(u32, bool)>, n: nat)
    requires
        n <= reported.len(),
    ensures
        forall|i: int, j: int, k2: int|
            0 <= i < j < new_displays_upto(s, reported, n).len() && 0 <= k2 < n
                && #[trigger] reported[k2] == (#[trigger] new_displays_upto(s, reported, n)[j], true)
                ==> exists|k1: int| 0 <= k1 < k2 && #[trigger] reported[k1] == (#[trigger] new_displays_upto(s, reported, n)[i], true),
    decreases n,
{
    if n > 0 {
        lemma_new_displays_order(s, reported, (n - 1) as nat);
        lemma_new_displays_members(s, reported, (n - 1) as nat);
        let prev = new_displays_upto(s, reported, (n - 1) as nat);
        let cur = new_displays_upto(s, reported, n);
        let dn = reported[n - 1].0;
        let pushed = reported[n - 1].1 && !old_has_display(s, dn) && !prev.contains(dn);
        assert forall|i: int, j: int, k2: int|
            0 <= i < j < cur.len() && 0 <= k2 < n && #[trigger] reported[k2] == (#[trigger] cur[j], true)
            implies exists|k1: int| 0 <= k1 < k2 && #[trigger] reported[k1] == (#[trigger] cur[i], true) by {
            assert(cur[i] == prev[i]);
            assert(prev.contains(prev[i]));
            if j < prev.len() {
                assert(cur[j] == prev[j]);
                if k2 == n - 1 {
                    assert(prev.contains(prev[j]));
                    let k3 = choose|k: int| 0 <= k < n - 1 && #[trigger] reported[k] == (prev[j], true);
                    assert(reported[k3] == (prev[j], true));
                    let k1 = choose|k1: int| 0 <= k1 < k3 && #[trigger] reported[k1] == (prev[i], true);
                    assert(0 <= k1 < k2 && reported[k1] == (cur[i], true));
                } else {
                    let k1 = choose|k1: int| 0 <= k1 < k2 && #[trigger] reported[k1] == (prev[i], true);
                    assert(0 <= k1 < k2 && reported[k1] == (cur[i], true));
                }
            } else {
                assert(pushed);
                assert(cur[j] == dn);
                if k2 < n - 1 {
                    assert(reported[k2] == (dn, true));
                    assert(prev.contains(dn));
                }
                let k1 = choose|k: int| 0 <= k < n - 1 && #[trigger] reported[k] == (prev[i], true);
                assert(0 <= k1 < k2 && reported[k1] == (cur[i], true));
            }
        }
    }
}

/// Every monitor a sync pass despawns stood for a known display that SDL no
/// longer reports (or for a second entry of a display).
pub proof fn lemma_removed_were_unseen(s: Seq<(u32, u64)>, seen: Seq<bool>, n: nat)
    requires
        n <= s.len(),
        n <= seen.len(),
    ensures
        forall|e: u64| #[trigger] removed_entities(s, seen, n).contains(e) ==> exists|i: int|
            0 <= i < n && !seen[i] && s[i].1 == e,
    decreases n,
{
    if n > 0 {
        lemma_removed_were_unseen(s, seen, (n - 1) as nat);
        let prev = removed_entities(s, seen, (n - 1) as nat);
        let cur = removed_entities(s, seen, n);
        assert forall|e: u64| #[trigger] cur.contains(e) implies exists|i: int| 0 <= i < n && !seen[i] && s[i].1 == e by {
            let j = choose|j: int| 0 <= j < cur.len() && cur[j] == e;
            if j < prev.len() {
                assert(prev[j] == e);
                assert(prev.contains(e));
            } else {
                assert(!seen[n - 1] && s[n - 1].1 == e);
            }
        }
    }
}

} // verus!

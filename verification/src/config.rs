use vstd::prelude::*;

verus! {

/// Nanoseconds in one second.
pub const NANOS_PER_SEC: u64 = 1_000_000_000;

/// The frame time used while no window is focused: one sixtieth of a second,
/// rounded to the nearest nanosecond.
pub const UNFOCUSED_FRAME_TIME_NANOS: u64 = 16_666_667;

/// How often the application loop may run an update.
#[derive(Debug, Clone, Copy, PartialEq, Eq, Structural)]
pub enum FrameRate {
    /// Run the next frame as soon as the current one is done.
    Uncapped,
    /// Each frame takes at least `frame_time` nanoseconds.
    Limited { frame_time: u64 },
}

/// The frame rates that the application loop applies in each state of the app.
#[derive(Debug, Clone)]
pub struct SdlSettings {
    /// Frame rate while the app is active and one of its windows has the focus.
    pub focused: FrameRate,
    /// Frame rate while the app is active and no window has the focus.
    pub unfocused: FrameRate,
    /// Frame rate while the app is not active (idle or suspended).
    pub suspended: FrameRate,
}

impl Default for SdlSettings {
    fn default() -> (settings: Self)
        ensures
            settings.focused == FrameRate::Uncapped,
            settings.unfocused == (FrameRate::Limited { frame_time: UNFOCUSED_FRAME_TIME_NANOS }),
            settings.suspended == (FrameRate::Limited { frame_time: NANOS_PER_SEC }),
    {
        SdlSettings {
            focused: FrameRate::Uncapped,
            unfocused: FrameRate::Limited { frame_time: UNFOCUSED_FRAME_TIME_NANOS },
            suspended: FrameRate::Limited { frame_time: NANOS_PER_SEC },
        }
    }
}

impl SdlSettings {
    /// The frame rate that applies to the app in the given state.
    pub open spec fn spec_frame_rate(&self, is_active: bool, any_window_focused: bool) -> FrameRate {
        if !is_active {
            self.suspended
        } else if any_window_focused {
            self.focused
        } else {
            self.unfocused
        }
    }

    /// Picks the frame rate for the next frame: the suspended rate when the app is
    /// not active, else the focused or unfocused rate.
    pub fn frame_rate(&self, is_active: bool, any_window_focused: bool) -> (rate: FrameRate)
        ensures
            rate == self.spec_frame_rate(is_active, any_window_focused),
    {
        if is_active {
            if any_window_focused {
                self.focused
            } else {
                self.unfocused
            }
        } else {
            self.suspended
        }
    }
}

impl FrameRate {
    /// How long the loop sleeps after a frame that took `elapsed` nanoseconds.
    pub open spec fn spec_sleep_nanos(self, elapsed: u64) -> Option<u64> {
        match self {
            FrameRate::Uncapped => None,
            FrameRate::Limited { frame_time } => if elapsed < frame_time {
                Some((frame_time - elapsed) as u64)
            } else {
                None
            },
        }
    }

    /// The time left to sleep so that the frame lasts at least the frame time:
    /// `None` when the rate is uncapped or the frame already took long enough.
    pub fn sleep_nanos(&self, elapsed: u64) -> (sleep: Option<u64>)
        ensures
            sleep == self.spec_sleep_nanos(elapsed),
    {
        match self {
            FrameRate::Uncapped => None,
            FrameRate::Limited { frame_time } => {
                if elapsed < *frame_time {
                    Some(*frame_time - elapsed)
                } else {
                    None
                }
            },
        }
    }
}

/// A frame never lasts less than its frame time: when the loop sleeps, the
/// elapsed time and the sleep add up to the frame time, and an uncapped rate
/// never sleeps.
pub proof fn lemma_frame_pacing(rate: FrameRate, elapsed: u64)
    ensures
        rate is Uncapped ==> rate.spec_sleep_nanos(elapsed) is None,
        rate.spec_sleep_nanos(elapsed) matches Some(s) ==> (rate matches FrameRate::Limited {
            frame_time,
        } && s + elapsed == frame_time && s > 0),
        (rate matches FrameRate::Limited { frame_time } && elapsed >= frame_time)
            ==> rate.spec_sleep_nanos(elapsed) is None,
{
}

/// The focused rate applies while the app is active and a window has the
/// focus, the unfocused rate while it is active and none has, and the suspended
/// rate whenever it is not active.
pub proof fn lemma_frame_rate_choice(settings: SdlSettings, focused: bool)
    ensures
        settings.spec_frame_rate(true, true) == settings.focused,
        settings.spec_frame_rate(true, false) == settings.unfocused,
        settings.spec_frame_rate(false, focused) == settings.suspended,
{
}

} // verus!

//! Pacing of the core loop: the decisions that the loop takes between
//! receiving messages and rendered frames and sending the model to the
//! interface. Frames are dropped while a render is in flight, the frame rate
//! is sampled over half-second windows and the interface is sent the model at
//! most once every 16 ms. Times are microseconds on a monotonic clock.

use vstd::prelude::*;

verus! {

/// The length of a frame-rate window, in microseconds.
pub const FPS_WINDOW_MICROS: u64 = 500_000;

/// The shortest interval between two updates of the interface, in
/// microseconds (about 60 updates a second).
pub const UI_UPDATE_INTERVAL_MICROS: u64 = 16_000;

/// The frames rendered over a frame-rate window; the rate is `frames`
/// divided by `elapsed_micros` (in seconds).
#[derive(Debug, Clone, Copy, PartialEq, Eq, Structural)]
pub struct FrameStats {
    pub frames: u32,
    pub elapsed_micros: u64,
}

/// The state that the core loop keeps besides the model.
#[derive(Debug, Clone, Copy, PartialEq, Eq, Structural)]
pub struct CorePacing {
    /// A render is in flight.
    pub is_rendering: bool,
    /// Frames received since the current frame-rate window began.
    pub frame_count: u32,
    /// When the current frame-rate window began.
    pub fps_window_start: u64,
    /// When the interface was last sent the model.
    pub last_ui_update: u64,
    /// The model changed since the interface was last sent it.
    pub needs_update: bool,
}

/// `later - earlier`, or zero when `later` is not after `earlier` (an
/// instant's `duration_since` saturates the same way).
pub open spec fn elapsed(later: u64, earlier: u64) -> u64 {
    if later >= earlier { (later - earlier) as u64 } else { 0 }
}

/// The state at the start of the loop, at `now`: nothing rendering, no
/// frames counted, and the first model still to be sent.
pub open spec fn spec_start(now: u64) -> CorePacing {
    CorePacing { is_rendering: false, frame_count: 0, fps_window_start: now, last_ui_update: now, needs_update: true }
}

/// A render is asked for: it starts (`true`) unless one is in flight, in
/// which case the frame is dropped (`false`). Either way a render is in
/// flight afterwards.
pub open spec fn spec_request(s: CorePacing) -> (bool, CorePacing) {
    (!s.is_rendering, CorePacing { is_rendering: true, ..s })
}

/// A rendered frame arrives at `now`: nothing is rendering any more, the
/// model changed, and the frame is counted. When the window has lasted at
/// least [`FPS_WINDOW_MICROS`], its frames and length are reported and a new
/// window begins at `now`.
pub open spec fn spec_receive(s: CorePacing, now: u64) -> (Option<FrameStats>, CorePacing) {
    let count = (s.frame_count + 1) as u32;
    let e = elapsed(now, s.fps_window_start);
    if e >= FPS_WINDOW_MICROS {
        (
            Some(FrameStats { frames: count, elapsed_micros: e }),
            CorePacing { is_rendering: false, frame_count: 0, fps_window_start: now, needs_update: true, ..s },
        )
    } else {
        (None, CorePacing { is_rendering: false, frame_count: count, needs_update: true, ..s })
    }
}

/// A message changed the model.
pub open spec fn spec_changed(s: CorePacing) -> CorePacing {
    CorePacing { needs_update: true, ..s }
}

/// The end of a pass of the loop at `now`: the interface is sent the model
/// (`true`) when it changed and the last update is at least
/// [`UI_UPDATE_INTERVAL_MICROS`] old.
pub open spec fn spec_tick(s: CorePacing, now: u64) -> (bool, CorePacing) {
    if s.needs_update && elapsed(now, s.last_ui_update) >= UI_UPDATE_INTERVAL_MICROS {
        (true, CorePacing { last_ui_update: now, needs_update: false, ..s })
    } else {
        (false, s)
    }
}

impl CorePacing {
    /// The state at the start of the loop (see [`spec_start`]).
    pub fn new(now: u64) -> (res: Self)
        ensures
            res == spec_start(now),
    {
        CorePacing { is_rendering: false, frame_count: 0, fps_window_start: now, last_ui_update: now, needs_update: true }
    }

    /// Asks for a render; returns whether it starts (see [`spec_request`]).
    pub fn request_render(&mut self) -> (start: bool)
        ensures
            (start, *final(self)) == spec_request(*old(self)),
    {
        let start = !self.is_rendering;
        self.is_rendering = true;
        start
    }

    /// Takes in a rendered frame that arrived at `now`; returns the
    /// frame-rate sample when a window closes (see [`spec_receive`]).
    pub fn frame_received(&mut self, now: u64) -> (stats: Option<FrameStats>)
        requires
            old(self).frame_count < u32::MAX,
        ensures
            (stats, *final(self)) == spec_receive(*old(self), now),
    {
        self.is_rendering = false;
        self.needs_update = true;
        self.frame_count = self.frame_count + 1;
        let e = now.saturating_sub(self.fps_window_start);
        if e >= FPS_WINDOW_MICROS {
            let stats = FrameStats { frames: self.frame_count, elapsed_micros: e };
            self.frame_count = 0;
            self.fps_window_start = now;
            Some(stats)
        } else {
            None
        }
    }

    /// Notes that a message changed the model (see [`spec_changed`]).
    pub fn model_changed(&mut self)
        ensures
            *final(self) == spec_changed(*old(self)),
    {
        self.needs_update = true;
    }

    /// Ends a pass of the loop at `now`; returns whether to send the model
    /// to the interface (see [`spec_tick`]).
    pub fn ui_tick(&mut self, now: u64) -> (send: bool)
        ensures
            (send, *final(self)) == spec_tick(*old(self), now),
    {
        if self.needs_update && now.saturating_sub(self.last_ui_update) >= UI_UPDATE_INTERVAL_MICROS {
            self.last_ui_update = now;
            self.needs_update = false;
            true
        } else {
            false
        }
    }
}

/// At most one render is in flight: once a render has started, the next
/// request drops its frame, until a rendered frame arrives; after that a
/// request starts a render again.
pub proof fn law_one_render_in_flight(s: CorePacing, now: u64)
    ensures
        !spec_request(spec_request(s).1).0,
        spec_request(spec_receive(s, now).1).0,
{
}

/// The interface is updated at most once per interval: after an update at
/// `t1`, however the model changes and frames arrive, the next update comes
/// no earlier than [`UI_UPDATE_INTERVAL_MICROS`] after `t1`.
pub proof fn law_ui_updates_rate_limited(s: CorePacing, t1: u64, t2: u64, frame_time: u64)
    requires
        spec_tick(s, t1).0,
        t1 <= t2,
    ensures
        spec_tick(spec_changed(spec_tick(s, t1).1), t2).0 ==> t2 - t1 >= UI_UPDATE_INTERVAL_MICROS,
        spec_tick(spec_receive(spec_tick(s, t1).1, frame_time).1, t2).0 ==> t2 - t1 >= UI_UPDATE_INTERVAL_MICROS,
{
}

/// No change is held back longer than the interval: a changed model is sent
/// at the first pass at least [`UI_UPDATE_INTERVAL_MICROS`] after the last
/// update, and a received frame always counts as a change.
pub proof fn law_changes_reach_the_interface(s: CorePacing, now: u64, frame_time: u64)
    requires
        elapsed(now, s.last_ui_update) >= UI_UPDATE_INTERVAL_MICROS,
    ensures
        spec_tick(spec_changed(s), now).0,
        spec_tick(spec_receive(s, frame_time).1, now).0,
{
}

/// A frame-rate sample covers at least a whole window and at least the
/// frame that closed it; the frames of the window are all counted, and the
/// count starts again from zero.
pub proof fn law_fps_samples_cover_a_window(s: CorePacing, now: u64)
    requires
        s.frame_count < u32::MAX,
    ensures
        spec_receive(s, now).0 matches Some(stats) ==> stats.elapsed_micros >= FPS_WINDOW_MICROS
            && stats.frames == s.frame_count + 1 && spec_receive(s, now).1.frame_count == 0,
        spec_receive(s, now).0 is None ==> spec_receive(s, now).1.frame_count == s.frame_count + 1,
{
}

} // verus!

//! Frame pacing and the host's shutdown request.
use vstd::prelude::*;

verus! {

/// Frame rate the driver aims at unless told otherwise.
pub const DEFAULT_FPS_MAX: usize = 60;

/// What the host asks of the machine after a frame.
#[derive(PartialEq, Eq, Structural, Clone, Copy, Debug)]
pub enum Shutdown {
    Yes,
    No,
    Reset,
}

pub open spec fn shutdown_of_bool(b: bool) -> Shutdown {
    if b {
        Shutdown::Yes
    } else {
        Shutdown::No
    }
}

impl From<bool> for Shutdown {
    fn from(b: bool) -> (r: Shutdown)
        ensures
            r == shutdown_of_bool(b),
    {
        if b {
            Shutdown::Yes
        } else {
            Shutdown::No
        }
    }
}

impl vstd::std_specs::convert::FromSpecImpl<bool> for Shutdown {
    open spec fn obeys_from_spec() -> bool {
        true
    }

    open spec fn from_spec(b: bool) -> Shutdown {
        shutdown_of_bool(b)
    }
}

/// Frame counter and pacing state of the frame driver.
pub struct FrameTiming {
    /// Frames completed so far.
    pub frame_n: usize,
    /// Host clock (ms) when the previous frame was done; 0 before the first.
    pub last_frame_timestamp: usize,
    /// Target duration of one frame in milliseconds.
    pub frame_limit_ms: usize,
}

/// The delay owed after a frame: the rest of the target period, if the frame
/// finished early. Nothing is owed before the first frame has been stamped.
pub open spec fn pacing_delay(last: int, elapsed: int, limit: int) -> Option<int> {
    if last != 0 && elapsed - last < limit {
        Some(limit - (elapsed - last))
    } else {
        None
    }
}

/// Average frames per second over `elapsed` milliseconds, in whole seconds.
pub open spec fn average_fps(frames: int, elapsed: int) -> int {
    if elapsed / 1000 != 0 {
        frames / (elapsed / 1000)
    } else {
        0
    }
}

impl FrameTiming {
    pub fn new() -> (r: FrameTiming)
        ensures
            r.frame_n == 0,
            r.last_frame_timestamp == 0,
            r.frame_limit_ms == 1000usize / DEFAULT_FPS_MAX,
    {
        FrameTiming { frame_n: 0, last_frame_timestamp: 0, frame_limit_ms: 1000 / DEFAULT_FPS_MAX }
    }

    /// Sets the target frame rate.
    pub fn fps_max(&mut self, fps_max: usize)
        requires
            fps_max > 0,
        ensures
            final(self).frame_limit_ms == 1000usize / fps_max,
            final(self).frame_n == old(self).frame_n,
            final(self).last_frame_timestamp == old(self).last_frame_timestamp,
    {
        self.frame_limit_ms = 1000 / fps_max;
    }

    pub fn fps_avg(&mut self, elapsed: usize) -> (r: usize)
        ensures
            r == average_fps(old(self).frame_n as int, elapsed as int),
            *final(self) == *old(self),
    {
        let secs = elapsed / 1000;
        if secs != 0 {
            self.frame_n / secs
        } else {
            0
        }
    }

    /// Milliseconds to wait after a frame was rendered at host time `elapsed`,
    /// or `None` when the frame took at least the target period.
    pub fn post_render(&mut self, elapsed: usize) -> (r: Option<u64>)
        requires
            old(self).last_frame_timestamp == 0 || old(self).last_frame_timestamp <= elapsed,
        ensures
            *final(self) == *old(self),
            match r {
                Some(d) => pacing_delay(
                    old(self).last_frame_timestamp as int,
                    elapsed as int,
                    old(self).frame_limit_ms as int,
                ) == Some(d as int),
                None => pacing_delay(
                    old(self).last_frame_timestamp as int,
                    elapsed as int,
                    old(self).frame_limit_ms as int,
                ) is None,
            },
    {
        if self.last_frame_timestamp != 0 {
            let ms_to_render_frame = elapsed - self.last_frame_timestamp;
            if ms_to_render_frame < self.frame_limit_ms {
                return Some((self.frame_limit_ms - ms_to_render_frame) as u64);
            }
        }
        None
    }

    /// Records that a frame has been completed at host time `elapsed`.
    pub fn post_delay(&mut self, elapsed: usize)
        requires
            old(self).frame_n < usize::MAX,
        ensures
            final(self).frame_n == old(self).frame_n + 1,
            final(self).last_frame_timestamp == elapsed,
            final(self).frame_limit_ms == old(self).frame_limit_ms,
    {
        self.frame_n += 1;
        self.last_frame_timestamp = elapsed;
    }
}

} // verus!

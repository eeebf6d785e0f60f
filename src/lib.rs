pub mod capture;
pub mod dda;
pub mod error;
pub mod frame;
pub mod gdi;
pub mod region;
pub mod setup;

pub use capture::Capture;
pub use error::{ScreenShootError, ScreenShootResult};
pub use frame::Frame;
pub use region::Cords;
pub use setup::CaptureMethod;

use vstd::prelude::*;

verus! {

/// A constructed capture backend and the number of frames captured with it.
#[derive(Debug)]
pub struct ScreenShooter {
    capture: Capture,
    frame_count: usize,
}

impl ScreenShooter {
    /// Number of frames captured so far.
    pub closed spec fn frames(&self) -> nat {
        self.frame_count as nat
    }

    /// The backend that captures the frames.
    pub closed spec fn backend(&self) -> Capture {
        self.capture
    }

    /// The backend, to drive a capture with.
    pub fn capture_mut(&mut self) -> (r: &mut Capture)
        ensures
            *r == old(self).backend(),
            final(self).backend() == *final(r),
            final(self).frames() == old(self).frames(),
    {
        &mut self.capture
    }

    /// The backend, to inspect or tear down.
    pub fn capture(&self) -> (r: &Capture)
        ensures
            *r == self.backend(),
    {
        &self.capture
    }

    /// A shooter over a constructed backend that has captured nothing yet.
    pub fn new(capture: Capture) -> (r: Self)
        ensures
            r.backend() == capture,
            r.frames() == 0,
    {
        ScreenShooter { capture, frame_count: 0 }
    }

    /// Counts one more captured frame.
    pub fn record_frame(&mut self)
        requires
            old(self).frames() < usize::MAX,
        ensures
            final(self).frames() == old(self).frames() + 1,
            final(self).backend() == old(self).backend(),
    {
        self.frame_count = self.frame_count + 1;
    }

    /// Number of frames captured so far.
    pub fn frame_count(&self) -> (r: usize)
        ensures
            r == self.frames(),
    {
        self.frame_count
    }
}

} // verus!

use vstd::prelude::*;
use crate::region::Cords;
use crate::setup::{Resource, ResourceKind};

verus! {

/// The call was invalid in the current state; raised when the duplication
/// interface has been invalidated.
pub const DXGI_ERROR_INVALID_CALL: i32 = -0x7785_FFFF;

/// The resource is still being written by the GPU; a non-blocking map gave up.
pub const DXGI_ERROR_WAS_STILL_DRAWING: i32 = -0x7785_FFF6;

/// Access to the desktop duplication was lost (mode change, session lock).
pub const DXGI_ERROR_ACCESS_LOST: i32 = -0x7785_FFDA;

/// No new frame arrived within the acquisition timeout.
pub const DXGI_ERROR_WAIT_TIMEOUT: i32 = -0x7785_FFD9;

/// Milliseconds that one frame acquisition waits for the compositor.
pub const ACQUIRE_TIMEOUT_MS: u32 = 99999;

/// Result codes after which the whole device chain must be rebuilt.
pub open spec fn device_lost(hresult: i32) -> bool {
    hresult == DXGI_ERROR_ACCESS_LOST || hresult == DXGI_ERROR_INVALID_CALL
}

/// Whether a result code means the device chain must be rebuilt.
pub fn is_device_lost(hresult: i32) -> (r: bool)
    ensures
        r == device_lost(hresult),
{
    hresult == DXGI_ERROR_ACCESS_LOST || hresult == DXGI_ERROR_INVALID_CALL
}

/// The native handles that a duplication backend owns.
#[derive(Clone, Copy, Debug, PartialEq, Eq)]
pub struct DdaHandles {
    pub device: usize,
    pub context: usize,
    pub out_dup: usize,
    pub cpu_texture: usize,
}

/// What the caller of a duplication capture performs next.
#[derive(Clone, Copy, Debug, PartialEq, Eq)]
pub enum DdaAction {
    /// Release the compositor frame that is still held.
    ReleaseFrame,
    /// Acquire the next compositor frame, waiting up to the timeout.
    AcquireFrame,
    /// Take the acquired frame's resource, copy the crop box into the staging
    /// texture and release the per-frame resources.
    CopyFrame,
    /// Map the staging texture for reading without waiting.
    MapStaging,
    /// Release every owned handle, create a fresh device and context and
    /// construct the backend again with the same region.
    Rebuild,
    /// Unmap the staging texture and hand out a view of the frame's bytes.
    Deliver,
    /// Give up the capture with this result code.
    Fail { hresult: i32 },
}

/// One step of the capture protocol: the action that follows `pending` when
/// it came back with `hresult`, and whether a compositor frame is then held.
pub open spec fn next_step(pending: DdaAction, locked: bool, hresult: i32) -> (DdaAction, bool) {
    match pending {
        DdaAction::ReleaseFrame => (DdaAction::AcquireFrame, false),
        DdaAction::AcquireFrame => {
            if hresult == 0 {
                (DdaAction::CopyFrame, true)
            } else if hresult == DXGI_ERROR_WAIT_TIMEOUT {
                (DdaAction::AcquireFrame, locked)
            } else if device_lost(hresult) {
                (DdaAction::Rebuild, locked)
            } else {
                (DdaAction::Fail { hresult }, locked)
            }
        },
        DdaAction::CopyFrame => {
            if hresult == 0 {
                (DdaAction::MapStaging, locked)
            } else if device_lost(hresult) {
                (DdaAction::Rebuild, locked)
            } else {
                (DdaAction::Fail { hresult }, locked)
            }
        },
        DdaAction::MapStaging => {
            if hresult == 0 {
                (DdaAction::Deliver, locked)
            } else if hresult == DXGI_ERROR_WAS_STILL_DRAWING {
                (DdaAction::MapStaging, locked)
            } else if device_lost(hresult) {
                (DdaAction::Rebuild, locked)
            } else {
                (DdaAction::Fail { hresult }, locked)
            }
        },
        DdaAction::Rebuild => {
            if hresult == 0 {
                (DdaAction::AcquireFrame, false)
            } else {
                (DdaAction::Fail { hresult }, false)
            }
        },
        DdaAction::Deliver => (DdaAction::Deliver, locked),
        DdaAction::Fail { hresult: h } => (DdaAction::Fail { hresult: h }, locked),
    }
}

/// The state after the outcomes `outcomes` come back one by one.
pub open spec fn run_steps(pending: DdaAction, locked: bool, outcomes: Seq<i32>) -> (DdaAction, bool)
    decreases outcomes.len(),
{
    if outcomes.len() == 0 {
        (pending, locked)
    } else {
        let (a, l) = next_step(pending, locked, outcomes[0]);
        run_steps(a, l, outcomes.drop_first())
    }
}

/// The protocol's invariant on the compositor frame lock: no frame is held
/// when one is acquired, and one is held when one is released.
pub open spec fn lock_consistent(pending: DdaAction, locked: bool) -> bool {
    &&& pending == DdaAction::AcquireFrame ==> !locked
    &&& pending == DdaAction::ReleaseFrame ==> locked
}

/// The output-duplication backend: its native handles, the region it
/// captures, whether a compositor frame is held, and the step of the capture
/// in progress.
#[derive(Debug)]
pub struct DDA {
    pub handles: DdaHandles,
    pub cords: Cords,
    pub frame_lock: bool,
    pub pending: DdaAction,
}

impl DDA {
    /// The region can be captured, the frame lock agrees with the step in
    /// progress, and a failed capture carries a failing result code.
    pub open spec fn wf(&self) -> bool {
        &&& self.cords.capturable()
        &&& lock_consistent(self.pending, self.frame_lock)
        &&& self.pending matches DdaAction::Fail { hresult } ==> hresult != 0
    }

    /// A freshly constructed backend over `handles`, holding no frame; no
    /// capture is in progress.
    pub fn new(handles: DdaHandles, cords: Cords) -> (r: Self)
        requires
            cords.capturable(),
        ensures
            r.wf(),
            r.handles == handles,
            r.cords == cords,
            !r.frame_lock,
            r.pending == DdaAction::Deliver,
    {
        DDA { handles, cords, frame_lock: false, pending: DdaAction::Deliver }
    }

    /// Starts a capture: a frame still held from the previous capture is
    /// released first, then the next one is acquired.
    pub fn begin_capture(&mut self) -> (r: DdaAction)
        requires
            old(self).wf(),
        ensures
            final(self).wf(),
            r == (if old(self).frame_lock {
                DdaAction::ReleaseFrame
            } else {
                DdaAction::AcquireFrame
            }),
            final(self).pending == r,
            final(self).frame_lock == old(self).frame_lock,
            final(self).handles == old(self).handles,
            final(self).cords == old(self).cords,
    {
        let r = if self.frame_lock {
            DdaAction::ReleaseFrame
        } else {
            DdaAction::AcquireFrame
        };
        self.pending = r;
        r
    }

    /// Records the result code of the pending action and returns the next one.
    /// Acquisition timeouts and maps that find the GPU still drawing are
    /// retried, a lost device leads to a rebuild, any other failure ends the
    /// capture.
    pub fn advance(&mut self, hresult: i32) -> (r: DdaAction)
        requires
            old(self).wf(),
        ensures
            final(self).wf(),
            (r, final(self).frame_lock) == next_step(old(self).pending, old(self).frame_lock, hresult),
            final(self).pending == r,
            final(self).handles == old(self).handles,
            final(self).cords == old(self).cords,
    {
        let locked = self.frame_lock;
        let (r, l) = match self.pending {
            DdaAction::ReleaseFrame => (DdaAction::AcquireFrame, false),
            DdaAction::AcquireFrame => {
                if hresult == 0 {
                    (DdaAction::CopyFrame, true)
                } else if hresult == DXGI_ERROR_WAIT_TIMEOUT {
                    (DdaAction::AcquireFrame, locked)
                } else if is_device_lost(hresult) {
                    (DdaAction::Rebuild, locked)
                } else {
                    (DdaAction::Fail { hresult }, locked)
                }
            },
            DdaAction::CopyFrame => {
                if hresult == 0 {
                    (DdaAction::MapStaging, locked)
                } else if is_device_lost(hresult) {
                    (DdaAction::Rebuild, locked)
                } else {
                    (DdaAction::Fail { hresult }, locked)
                }
            },
            DdaAction::MapStaging => {
                if hresult == 0 {
                    (DdaAction::Deliver, locked)
                } else if hresult == DXGI_ERROR_WAS_STILL_DRAWING {
                    (DdaAction::MapStaging, locked)
                } else if is_device_lost(hresult) {
                    (DdaAction::Rebuild, locked)
                } else {
                    (DdaAction::Fail { hresult }, locked)
                }
            },
            DdaAction::Rebuild => {
                if hresult == 0 {
                    (DdaAction::AcquireFrame, false)
                } else {
                    (DdaAction::Fail { hresult }, false)
                }
            },
            DdaAction::Deliver => (DdaAction::Deliver, locked),
            DdaAction::Fail { hresult: h } => (DdaAction::Fail { hresult: h }, locked),
        };
        self.pending = r;
        self.frame_lock = l;
        r
    }

    /// Swaps in the handles of a rebuilt device chain; the old chain's frame
    /// lock went with it.
    pub fn replace_handles(&mut self, handles: DdaHandles)
        requires
            old(self).wf(),
            old(self).pending == DdaAction::Rebuild,
        ensures
            final(self).wf(),
            final(self).handles == handles,
            final(self).cords == old(self).cords,
            final(self).pending == old(self).pending,
            !final(self).frame_lock,
    {
        self.handles = handles;
        self.frame_lock = false;
    }

    /// What tearing the backend down releases, in order: the staging texture,
    /// the duplication, the context and the device.
    pub open spec fn release_spec(&self) -> Seq<Resource> {
        seq![
            Resource { kind: ResourceKind::StagingTexture, handle: self.handles.cpu_texture },
            Resource { kind: ResourceKind::Duplication, handle: self.handles.out_dup },
            Resource { kind: ResourceKind::Context, handle: self.handles.context },
            Resource { kind: ResourceKind::Device, handle: self.handles.device },
        ]
    }

    /// The handles that tearing the backend down releases, in order.
    pub fn release_list(&self) -> (r: Vec<Resource>)
        ensures
            r@ == self.release_spec(),
    {
        let mut out: Vec<Resource> = Vec::new();
        out.push(Resource { kind: ResourceKind::StagingTexture, handle: self.handles.cpu_texture });
        out.push(Resource { kind: ResourceKind::Duplication, handle: self.handles.out_dup });
        out.push(Resource { kind: ResourceKind::Context, handle: self.handles.context });
        out.push(Resource { kind: ResourceKind::Device, handle: self.handles.device });
        out
    }

    /// Length in bytes of the view that a delivered capture hands out.
    pub fn frame_len(&self) -> (r: usize)
        requires
            self.wf(),
        ensures
            r == self.cords.byte_len(),
    {
        self.cords.frame_len()
    }
}

/// Every step keeps the frame lock consistent: a compositor frame is released
/// before the next one is acquired, so at most one is ever held.
pub proof fn lemma_step_keeps_lock_consistent(pending: DdaAction, locked: bool, hresult: i32)
    requires
        lock_consistent(pending, locked),
    ensures
        lock_consistent(next_step(pending, locked, hresult).0, next_step(pending, locked, hresult).1),
{
}

/// A lost device during acquisition, copy or map is never surfaced: it leads
/// to a rebuild, after which acquisition starts over with no frame held, and
/// when every later call succeeds the capture delivers a frame.
pub proof fn lemma_device_loss_recovers(pending: DdaAction, locked: bool, hresult: i32)
    requires
        pending == DdaAction::AcquireFrame || pending == DdaAction::CopyFrame || pending
            == DdaAction::MapStaging,
        lock_consistent(pending, locked),
        device_lost(hresult),
    ensures
        next_step(pending, locked, hresult).0 == DdaAction::Rebuild,
        next_step(DdaAction::Rebuild, locked, 0) == (DdaAction::AcquireFrame, false),
        run_steps(pending, locked, seq![hresult, 0i32, 0i32, 0i32, 0i32]) == (
            DdaAction::Deliver,
            true,
        ),
{
    reveal_with_fuel(run_steps, 6);
}

/// A map that finds the GPU still drawing is retried, as often as it comes
/// back so, without a failure; the first success then delivers the frame.
pub proof fn lemma_still_drawing_retries(locked: bool, n: nat)
    ensures
        run_steps(DdaAction::MapStaging, locked, Seq::new(n, |i: int| DXGI_ERROR_WAS_STILL_DRAWING))
            == (DdaAction::MapStaging, locked),
        run_steps(
            DdaAction::MapStaging,
            locked,
            Seq::new(n, |i: int| DXGI_ERROR_WAS_STILL_DRAWING).push(0i32),
        ) == (DdaAction::Deliver, locked),
    decreases n,
{
    let s = Seq::new(n, |i: int| DXGI_ERROR_WAS_STILL_DRAWING);
    if n > 0 {
        lemma_still_drawing_retries(locked, (n - 1) as nat);
        let t = Seq::new((n - 1) as nat, |i: int| DXGI_ERROR_WAS_STILL_DRAWING);
        assert(s.drop_first() =~= t);
        assert(s.push(0i32).drop_first() =~= t.push(0i32));
        assert(s.push(0i32)[0] == DXGI_ERROR_WAS_STILL_DRAWING);
    } else {
        assert(s.push(0i32).drop_first() =~= Seq::<i32>::empty());
        reveal_with_fuel(run_steps, 2);
    }
}

} // verus!

use vstd::prelude::*;
use crate::region::Cords;

verus! {

/// A native resource that a backend acquires.
#[derive(Clone, Copy, Debug, PartialEq, Eq)]
pub enum ResourceKind {
    /// The desktop window's device context.
    ScreenDc,
    /// An in-memory device context compatible with the screen's.
    MemoryDc,
    /// A bitmap of the region's size, compatible with the screen.
    Bitmap,
    /// A hardware graphics device.
    Device,
    /// The device's immediate context.
    Context,
    /// The device's graphics-infrastructure interface.
    DxgiDevice,
    /// The adapter that the device runs on.
    Adapter,
    /// The adapter's primary output.
    Output,
    /// The output's extended interface, which can duplicate it.
    Output1,
    /// The output duplication.
    Duplication,
    /// The CPU-readable staging texture of the region's size.
    StagingTexture,
}

/// An acquired native handle and what it is.
#[derive(Clone, Copy, Debug, PartialEq, Eq)]
pub struct Resource {
    pub kind: ResourceKind,
    pub handle: usize,
}

/// The two capture backends.
#[derive(Clone, Copy, Debug, PartialEq, Eq)]
pub enum CaptureMethod {
    /// Block copy from the screen's device context.
    GDI,
    /// Output duplication on a graphics device.
    DDA,
}

/// The resources that constructing a backend acquires, in order.
pub open spec fn setup_steps(method: CaptureMethod) -> Seq<ResourceKind> {
    match method {
        CaptureMethod::GDI => seq![ResourceKind::ScreenDc, ResourceKind::MemoryDc, ResourceKind::Bitmap],
        CaptureMethod::DDA => seq![
            ResourceKind::Device,
            ResourceKind::Context,
            ResourceKind::DxgiDevice,
            ResourceKind::Adapter,
            ResourceKind::Output,
            ResourceKind::Output1,
            ResourceKind::Duplication,
            ResourceKind::StagingTexture,
        ],
    }
}

/// Number of resources that constructing a backend acquires.
pub fn setup_len(method: CaptureMethod) -> (r: usize)
    ensures
        r == setup_steps(method).len(),
{
    match method {
        CaptureMethod::GDI => 3,
        CaptureMethod::DDA => 8,
    }
}

/// The `i`-th resource that constructing a backend acquires.
pub fn setup_step(method: CaptureMethod, i: usize) -> (r: ResourceKind)
    requires
        i < setup_steps(method).len(),
    ensures
        r == setup_steps(method)[i as int],
{
    match method {
        CaptureMethod::GDI => {
            if i == 0 {
                ResourceKind::ScreenDc
            } else if i == 1 {
                ResourceKind::MemoryDc
            } else {
                ResourceKind::Bitmap
            }
        },
        CaptureMethod::DDA => {
            if i == 0 {
                ResourceKind::Device
            } else if i == 1 {
                ResourceKind::Context
            } else if i == 2 {
                ResourceKind::DxgiDevice
            } else if i == 3 {
                ResourceKind::Adapter
            } else if i == 4 {
                ResourceKind::Output
            } else if i == 5 {
                ResourceKind::Output1
            } else if i == 6 {
                ResourceKind::Duplication
            } else {
                ResourceKind::StagingTexture
            }
        },
    }
}

/// The reverse of a sequence.
pub open spec fn reversed<T>(s: Seq<T>) -> Seq<T> {
    Seq::new(s.len(), |i: int| s[s.len() - 1 - i])
}

/// A backend under construction: the resources acquired so far, in order.
#[derive(Debug)]
pub struct Setup {
    pub method: CaptureMethod,
    pub cords: Cords,
    pub held: Vec<Resource>,
}

impl View for Setup {
    type V = Seq<Resource>;

    open spec fn view(&self) -> Seq<Resource> {
        self.held@
    }
}

impl Setup {
    /// The acquired resources follow the backend's steps, and the region can
    /// be captured.
    pub open spec fn wf(&self) -> bool {
        &&& self.cords.capturable()
        &&& self@.len() <= setup_steps(self.method).len()
        &&& forall|i: int| 0 <= i < self@.len() ==> #[trigger] self@[i].kind == setup_steps(self.method)[i]
    }

    /// Every resource of the backend has been acquired.
    pub open spec fn complete(&self) -> bool {
        self@.len() == setup_steps(self.method).len()
    }

    /// Starts constructing a backend of `method` for `cords`, holding nothing.
    pub fn new(method: CaptureMethod, cords: Cords) -> (r: Self)
        requires
            cords.capturable(),
        ensures
            r.wf(),
            r.method == method,
            r.cords == cords,
            r@ == Seq::<Resource>::empty(),
    {
        Setup { method, cords, held: Vec::new() }
    }

    /// The resource to acquire next, or `None` once all are held.
    pub fn next_resource(&self) -> (r: Option<ResourceKind>)
        requires
            self.wf(),
        ensures
            self.complete() <==> r is None,
            r matches Some(k) ==> k == setup_steps(self.method)[self@.len() as int],
    {
        let n = self.held.len();
        if n < setup_len(self.method) {
            Some(setup_step(self.method, n))
        } else {
            None
        }
    }

    /// Records the handle of the resource that was acquired next.
    pub fn acquired(&mut self, handle: usize)
        requires
            old(self).wf(),
            !old(self).complete(),
        ensures
            final(self).wf(),
            final(self).method == old(self).method,
            final(self).cords == old(self).cords,
            final(self)@ == old(self)@.push(
                Resource { kind: setup_steps(old(self).method)[old(self)@.len() as int], handle },
            ),
    {
        let kind = setup_step(self.method, self.held.len());
        self.held.push(Resource { kind, handle });
    }

    /// Gives up the construction: the resources to release, the most recent
    /// first, which are all those acquired, each once.
    pub fn abandon(self) -> (r: Vec<Resource>)
        requires
            self.wf(),
        ensures
            r@ == reversed(self@),
    {
        let n = self.held.len();
        let mut out: Vec<Resource> = Vec::with_capacity(n);
        let mut i: usize = 0;
        while i < n
            invariant
                n == self@.len(),
                i <= n,
                out@.len() == i,
                forall|j: int| 0 <= j < i ==> out@[j] == self@[n - 1 - j],
            decreases n - i,
        {
            out.push(self.held[n - 1 - i]);
            i = i + 1;
        }
        assert(out@ =~= reversed(self@));
        out
    }

    /// The handle acquired at step `i`.
    pub fn handle(&self, i: usize) -> (r: usize)
        requires
            i < self@.len(),
        ensures
            r == self@[i as int].handle,
    {
        self.held[i].handle
    }
}

/// Abandoning a construction releases every handle acquired before the
/// failure and nothing else, each exactly once: the handle acquired at step
/// `i` is released at position `len - 1 - i`.
pub proof fn lemma_abandon_releases_all(held: Seq<Resource>)
    ensures
        reversed(held).len() == held.len(),
        forall|i: int| 0 <= i < held.len() ==> reversed(held)[held.len() - 1 - i] == #[trigger] held[i],
        forall|i: int| 0 <= i < held.len() ==> reversed(held).contains(#[trigger] held[i]),
        forall|j: int| 0 <= j < held.len() ==> held.contains(#[trigger] reversed(held)[j]),
{
    assert forall|i: int| 0 <= i < held.len() implies reversed(held).contains(#[trigger] held[i]) by {
        assert(reversed(held)[held.len() - 1 - i] == held[i]);
    }
    assert forall|j: int| 0 <= j < held.len() implies held.contains(#[trigger] reversed(held)[j]) by {
        assert(held[held.len() - 1 - j] == reversed(held)[j]);
    }
}

} // verus!

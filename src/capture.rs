use vstd::prelude::*;
use crate::dda::{DDA, DdaHandles};
use crate::gdi::GDI;
use crate::region::Cords;
use crate::setup::{CaptureMethod, Resource, ResourceKind, Setup, setup_steps};

verus! {

/// The active capture backend.
#[derive(Debug)]
pub enum Capture {
    GDI { gdi: GDI },
    DDA { dda: DDA },
}

impl Capture {
    pub open spec fn wf(&self) -> bool {
        match self {
            Capture::GDI { gdi } => gdi.wf(),
            Capture::DDA { dda } => dda.wf(),
        }
    }

    pub open spec fn cords(&self) -> Cords {
        match self {
            Capture::GDI { gdi } => gdi.cords,
            Capture::DDA { dda } => dda.cords,
        }
    }

    /// Starts constructing the backend of `method` for `cords`: the returned
    /// setup names each resource to acquire in turn.
    pub fn new(method: CaptureMethod, cords: Cords) -> (r: Setup)
        requires
            cords.capturable(),
        ensures
            r.wf(),
            r.method == method,
            r.cords == cords,
            r@ == Seq::<Resource>::empty(),
    {
        Setup::new(method, cords)
    }

    /// Completes a construction: the backend over the handles that it keeps,
    /// and the transient ones, most recent first, that only led to them and are
    /// released now.
    pub fn from_setup(setup: Setup) -> (r: (Capture, Vec<Resource>))
        requires
            setup.wf(),
            setup.complete(),
        ensures
            r.0.wf(),
            r.0.cords() == setup.cords,
            setup.method == CaptureMethod::GDI ==> r.0 == (Capture::GDI {
                gdi: GDI {
                    screen_dc: setup@[0].handle,
                    memory_dc: setup@[1].handle,
                    bitmap: setup@[2].handle,
                    cords: setup.cords,
                },
            }) && r.1@ == Seq::<Resource>::empty(),
            setup.method == CaptureMethod::DDA ==> (r.0 matches Capture::DDA { dda } && dda.handles
                == (DdaHandles {
                device: setup@[0].handle,
                context: setup@[1].handle,
                out_dup: setup@[6].handle,
                cpu_texture: setup@[7].handle,
            }) && !dda.frame_lock) && r.1@ == seq![setup@[5], setup@[4], setup@[3], setup@[2]],
    {
        let cords = setup.cords;
        match setup.method {
            CaptureMethod::GDI => {
                let gdi = GDI::new(setup.handle(0), setup.handle(1), setup.handle(2), cords);
                (Capture::GDI { gdi }, Vec::new())
            },
            CaptureMethod::DDA => {
                let handles = DdaHandles {
                    device: setup.handle(0),
                    context: setup.handle(1),
                    out_dup: setup.handle(6),
                    cpu_texture: setup.handle(7),
                };
                let mut out: Vec<Resource> = Vec::new();
                out.push(Resource { kind: ResourceKind::Output1, handle: setup.handle(5) });
                out.push(Resource { kind: ResourceKind::Output, handle: setup.handle(4) });
                out.push(Resource { kind: ResourceKind::Adapter, handle: setup.handle(3) });
                out.push(Resource { kind: ResourceKind::DxgiDevice, handle: setup.handle(2) });
                proof {
                    assert(setup@[2].kind == setup_steps(setup.method)[2]);
                    assert(setup@[3].kind == setup_steps(setup.method)[3]);
                    assert(setup@[4].kind == setup_steps(setup.method)[4]);
                    assert(setup@[5].kind == setup_steps(setup.method)[5]);
                    assert(out@ =~= seq![setup@[5], setup@[4], setup@[3], setup@[2]]);
                }
                (Capture::DDA { dda: DDA::new(handles, cords) }, out)
            },
        }
    }

    /// The handles that tearing the backend down releases, in order.
    pub fn release_list(&self) -> (r: Vec<Resource>)
        ensures
            self matches Capture::GDI { gdi } ==> r@ == gdi.release_spec(),
            self matches Capture::DDA { dda } ==> r@ == dda.release_spec(),
    {
        match self {
            Capture::GDI { gdi } => gdi.release_list(),
            Capture::DDA { dda } => dda.release_list(),
        }
    }
}

} // verus!

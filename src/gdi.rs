use vstd::prelude::*;
use crate::region::Cords;
use crate::setup::{Resource, ResourceKind};

verus! {

/// Uncompressed pixel data in a bitmap header.
pub const BI_RGB: u32 = 0;

/// The block copy of a capture: from the screen's crop box to the origin of the
/// in-memory device context.
#[derive(Clone, Copy, Debug, PartialEq, Eq)]
pub struct BlitRequest {
    pub dest_x: i32,
    pub dest_y: i32,
    pub width: i32,
    pub height: i32,
    pub src_x: i32,
    pub src_y: i32,
}

/// The pixel format that a readback asks for.
#[derive(Clone, Copy, Debug, PartialEq, Eq)]
pub struct DibHeader {
    pub width: i32,
    pub height: i32,
    pub planes: u16,
    pub bit_count: u16,
    pub compression: u32,
    pub size_image: u32,
}

/// The blit backend: the screen's device context, a compatible in-memory
/// device context, and a bitmap of the region's size selected into it.
#[derive(Debug)]
pub struct GDI {
    pub screen_dc: usize,
    pub bitmap: usize,
    pub memory_dc: usize,
    pub cords: Cords,
}

impl GDI {
    pub open spec fn wf(&self) -> bool {
        self.cords.capturable()
    }

    /// A backend over the given handles.
    pub fn new(screen_dc: usize, memory_dc: usize, bitmap: usize, cords: Cords) -> (r: Self)
        requires
            cords.capturable(),
        ensures
            r.wf(),
            r == (GDI { screen_dc, bitmap, memory_dc, cords }),
    {
        GDI { screen_dc, bitmap, memory_dc, cords }
    }

    /// The block copy of the crop box into the memory context's origin.
    pub fn blit_request(&self) -> (r: BlitRequest)
        requires
            self.wf(),
        ensures
            r.dest_x == 0,
            r.dest_y == 0,
            r.width == self.cords.fov_x,
            r.height == self.cords.fov_y,
            r.src_x == self.cords.left as i32,
            r.src_y == self.cords.top as i32,
    {
        BlitRequest {
            dest_x: 0,
            dest_y: 0,
            width: self.cords.fov_x as i32,
            height: self.cords.fov_y as i32,
            src_x: self.cords.left as i32,
            src_y: self.cords.top as i32,
        }
    }

    /// The readback format: top-down rows (a negative height), one plane,
    /// 32 bits per pixel, uncompressed, exactly the buffer's size.
    pub fn dib_header(&self) -> (r: DibHeader)
        requires
            self.wf(),
        ensures
            r.width == self.cords.fov_x,
            r.height == -self.cords.fov_y,
            r.planes == 1,
            r.bit_count == 32,
            r.compression == BI_RGB,
            r.size_image == self.cords.byte_len(),
    {
        let len = self.cords.frame_len();
        DibHeader {
            width: self.cords.fov_x as i32,
            height: -(self.cords.fov_y as i32),
            planes: 1,
            bit_count: 32,
            compression: BI_RGB,
            size_image: len as u32,
        }
    }

    /// What tearing the backend down releases, in order: the bitmap, then the
    /// memory and the screen device contexts.
    pub open spec fn release_spec(&self) -> Seq<Resource> {
        seq![
            Resource { kind: ResourceKind::Bitmap, handle: self.bitmap },
            Resource { kind: ResourceKind::MemoryDc, handle: self.memory_dc },
            Resource { kind: ResourceKind::ScreenDc, handle: self.screen_dc },
        ]
    }

    /// The handles that tearing the backend down releases, in order.
    pub fn release_list(&self) -> (r: Vec<Resource>)
        ensures
            r@ == self.release_spec(),
    {
        let mut out: Vec<Resource> = Vec::new();
        out.push(Resource { kind: ResourceKind::Bitmap, handle: self.bitmap });
        out.push(Resource { kind: ResourceKind::MemoryDc, handle: self.memory_dc });
        out.push(Resource { kind: ResourceKind::ScreenDc, handle: self.screen_dc });
        out
    }

    /// A zeroed buffer that holds exactly one frame of the region; every
    /// capture gets a fresh one of the same size.
    pub fn frame_buffer(&self) -> (r: Vec<u8>)
        requires
            self.wf(),
        ensures
            r@.len() == self.cords.byte_len(),
            forall|i: int| 0 <= i < r@.len() ==> r@[i] == 0,
    {
        let len = self.cords.frame_len();
        let mut buf: Vec<u8> = Vec::with_capacity(len);
        let mut i: usize = 0;
        while i < len
            invariant
                i <= len,
                buf@.len() == i,
                forall|j: int| 0 <= j < i ==> buf@[j] == 0,
            decreases len - i,
        {
            buf.push(0);
            i = i + 1;
        }
        buf
    }
}

} // verus!

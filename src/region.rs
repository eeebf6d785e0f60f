use vstd::prelude::*;

verus! {

/// Wraps an integer that lies within one turn of the `u32` range back into it,
/// as `u32` wrapping arithmetic does.
pub open spec fn wrap_u32(x: int) -> int {
    if x < 0 {
        x + 0x1_0000_0000
    } else if x > u32::MAX {
        x - 0x1_0000_0000
    } else {
        x
    }
}

/// Start of the crop interval on one axis of the screen.
pub open spec fn span_start(fov: u32, screen: u32) -> int {
    if fov == screen {
        0
    } else {
        wrap_u32(screen / 2 - fov / 2)
    }
}

/// End of the crop interval on one axis of the screen.
pub open spec fn span_end(fov: u32, screen: u32) -> int {
    if fov == screen {
        fov as int
    } else {
        wrap_u32(span_start(fov, screen) + fov)
    }
}

/// A capture region: the requested field of view and the crop box that it
/// occupies in full-screen coordinates.
#[derive(Clone, Copy, Debug, PartialEq, Eq)]
pub struct Cords {
    pub fov_x: u32,
    pub fov_y: u32,
    pub left: u32,
    pub top: u32,
    pub right: u32,
    pub bottom: u32,
}

/// The copy rectangle handed to a sub-resource copy: a crop box one slice deep.
#[derive(Clone, Copy, Debug, PartialEq, Eq)]
pub struct CopyBox {
    pub left: u32,
    pub top: u32,
    pub front: u32,
    pub right: u32,
    pub bottom: u32,
    pub back: u32,
}

/// Crop interval `(start, end)` of a field of view of `fov` pixels centered on
/// an axis of `screen` pixels.
fn axis_span(fov: u32, screen: u32) -> (r: (u32, u32))
    ensures
        r.0 == span_start(fov, screen),
        r.1 == span_end(fov, screen),
{
    if fov == screen {
        (0, fov)
    } else {
        let start = (screen / 2).wrapping_sub(fov / 2);
        (start, start.wrapping_add(fov))
    }
}

impl Cords {
    /// Number of bytes in a frame of this region: four per pixel.
    pub open spec fn byte_len(&self) -> int {
        self.fov_x * self.fov_y * 4
    }

    /// The region's sizes fit the native calls that capture it: each side in an
    /// `i32`, and the byte length of a frame in a `u32`.
    pub open spec fn capturable(&self) -> bool {
        &&& self.byte_len() <= u32::MAX
        &&& self.fov_x <= i32::MAX
        &&& self.fov_y <= i32::MAX
    }

    /// Whether the region's sizes fit the native calls that capture it.
    pub fn is_capturable(&self) -> (r: bool)
        ensures
            r == self.capturable(),
    {
        proof {
            assert(self.fov_x * self.fov_y <= u32::MAX * u32::MAX) by (nonlinear_arith)
                requires
                    self.fov_x <= u32::MAX,
                    self.fov_y <= u32::MAX,
            ;
        }
        let n = (self.fov_x as u64) * (self.fov_y as u64);
        if n > 0x4000_0000 {
            proof {
                assert(self.byte_len() > u32::MAX) by (nonlinear_arith)
                    requires
                        self.fov_x * self.fov_y > 0x4000_0000,
                        self.byte_len() == self.fov_x * self.fov_y * 4,
                ;
            }
            false
        } else {
            n * 4 <= 0xFFFF_FFFF && self.fov_x <= 0x7FFF_FFFF && self.fov_y <= 0x7FFF_FFFF
        }
    }

    /// Number of bytes in a frame of this region.
    pub fn frame_len(&self) -> (r: usize)
        requires
            self.capturable(),
        ensures
            r == self.byte_len(),
    {
        proof {
            assert(self.fov_x * self.fov_y <= u32::MAX) by (nonlinear_arith)
                requires
                    self.fov_x * self.fov_y * 4 <= u32::MAX,
            ;
        }
        (self.fov_x as usize) * (self.fov_y as usize) * 4
    }

    /// The crop box is the one that `new` derives from `screen_width` and
    /// `screen_height`.
    pub open spec fn centered_in(&self, screen_width: u32, screen_height: u32) -> bool {
        &&& self.left == span_start(self.fov_x, screen_width)
        &&& self.right == span_end(self.fov_x, screen_width)
        &&& self.top == span_start(self.fov_y, screen_height)
        &&& self.bottom == span_end(self.fov_y, screen_height)
    }

    /// Centers a field of view of `fov_x` by `fov_y` pixels on a screen of
    /// `width` by `height` pixels. Sizes larger than the screen are taken as
    /// they are, with `u32` wrapping in the halving arithmetic.
    pub fn new(fov_x: u32, fov_y: u32, width: u32, height: u32) -> (r: Self)
        ensures
            r.fov_x == fov_x,
            r.fov_y == fov_y,
            r.centered_in(width, height),
    {
        let (left, right) = axis_span(fov_x, width);
        let (top, bottom) = axis_span(fov_y, height);
        Cords { fov_x, fov_y, left, top, right, bottom }
    }

    /// The copy rectangle of this region's crop box.
    pub fn copy_box(&self) -> (r: CopyBox)
        ensures
            r == (CopyBox {
                left: self.left,
                top: self.top,
                front: 0,
                right: self.right,
                bottom: self.bottom,
                back: 1,
            }),
    {
        CopyBox {
            left: self.left,
            top: self.top,
            front: 0,
            right: self.right,
            bottom: self.bottom,
            back: 1,
        }
    }
}

/// When the field of view equals the screen on an axis, the crop box spans
/// the whole axis, from zero to the screen size.
pub proof fn lemma_full_axis_spans_screen(fov_x: u32, fov_y: u32, width: u32, height: u32, c: Cords)
    requires
        c.fov_x == fov_x,
        c.fov_y == fov_y,
        c.centered_in(width, height),
    ensures
        fov_x == width ==> c.left == 0 && c.right == width,
        fov_y == height ==> c.top == 0 && c.bottom == height,
{
}

/// When the field of view is smaller than the screen on an axis and both are
/// even, the crop box is centered: it starts at half the difference and is
/// exactly as wide as the field of view.
pub proof fn lemma_smaller_axis_is_centered(fov_x: u32, fov_y: u32, width: u32, height: u32, c: Cords)
    requires
        c.fov_x == fov_x,
        c.fov_y == fov_y,
        c.centered_in(width, height),
    ensures
        fov_x < width && fov_x % 2 == 0 && width % 2 == 0 ==> c.left == (width - fov_x) / 2
            && c.right - c.left == fov_x,
        fov_y < height && fov_y % 2 == 0 && height % 2 == 0 ==> c.top == (height - fov_y) / 2
            && c.bottom - c.top == fov_y,
{
}

} // verus!

use vstd::prelude::*;

verus! {

/// One captured frame: four bytes per pixel in blue, green, red, alpha order,
/// row-major, top-down and without padding.
#[derive(Debug)]
pub enum Frame<'a> {
    /// A buffer that belongs to the caller.
    OwnedData(Vec<u8>),
    /// A view into memory of the capture backend, valid until its next call.
    BorrowedData(&'a [u8]),
}

impl<'a> View for Frame<'a> {
    type V = Seq<u8>;

    open spec fn view(&self) -> Seq<u8> {
        match self {
            Frame::OwnedData(v) => v@,
            Frame::BorrowedData(b) => b@,
        }
    }
}

impl<'a> Frame<'a> {
    /// The frame's bytes, whichever variant holds them.
    pub fn as_slice(&self) -> (r: &[u8])
        ensures
            r@ == self@,
    {
        match self {
            Frame::OwnedData(v) => v.as_slice(),
            Frame::BorrowedData(b) => b,
        }
    }

    /// Number of bytes in the frame.
    pub fn len(&self) -> (r: usize)
        ensures
            r == self@.len(),
    {
        self.as_slice().len()
    }

    /// The byte at position `i`.
    pub fn byte_at(&self, i: usize) -> (r: u8)
        requires
            i < self@.len(),
        ensures
            r == self@[i as int],
    {
        self.as_slice()[i]
    }
}

/// Byte `i` of the red-green-blue-alpha form of a blue-green-red-alpha buffer:
/// the first and third byte of each pixel trade places.
pub open spec fn rgba_byte(bgra: Seq<u8>, i: int) -> u8 {
    if i % 4 == 0 {
        bgra[i + 2]
    } else if i % 4 == 2 {
        bgra[i - 2]
    } else {
        bgra[i]
    }
}

/// Reorders each four-byte pixel from blue-green-red-alpha to
/// red-green-blue-alpha.
pub fn bgra_to_rgba(bgra: &[u8]) -> (r: Vec<u8>)
    requires
        bgra@.len() % 4 == 0,
    ensures
        r@.len() == bgra@.len(),
        forall|i: int| 0 <= i < r@.len() ==> r@[i] == rgba_byte(bgra@, i),
{
    let n = bgra.len();
    let mut out: Vec<u8> = Vec::with_capacity(n);
    let mut i: usize = 0;
    while i < n
        invariant
            n == bgra@.len(),
            n % 4 == 0,
            i % 4 == 0,
            i <= n,
            out@.len() == i,
            forall|j: int| 0 <= j < i ==> out@[j] == rgba_byte(bgra@, j),
        decreases n - i,
    {
        out.push(bgra[i + 2]);
        out.push(bgra[i + 1]);
        out.push(bgra[i]);
        out.push(bgra[i + 3]);
        assert forall|j: int| 0 <= j < i + 4 implies out@[j] == rgba_byte(bgra@, j) by {
            if j >= i {
                assert((j - i) % 4 == j % 4);
            }
        }
        i = i + 4;
    }
    out
}

} // verus!

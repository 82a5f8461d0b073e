//! The shared frame buffer: raw RGBA8 pixel bytes for one frame.
//!
//! The buffer is never grown or shrunk in place. Whenever the dimensions
//! change it is rebuilt from scratch and swapped in whole, so a consumer
//! holding the previous allocation still sees a fully valid frame of the
//! old size — never a partially rewritten one.

use vstd::prelude::*;

use crate::config::{frame_bytes, ViewportConfig, MAX_DIMENSION};

verus! {

/// A byte buffer holding one frame, tagged with its pixel dimensions.
pub struct FrameBuffer {
    bytes: Vec<u8>,
    width: u32,
    height: u32,
}

impl FrameBuffer {
    /// The buffer holds exactly four bytes per pixel of its dimensions.
    pub open spec fn wf(self) -> bool {
        &&& 1 <= self.spec_width() <= MAX_DIMENSION
        &&& 1 <= self.spec_height() <= MAX_DIMENSION
        &&& self.spec_bytes().len() == frame_bytes(self.spec_width(), self.spec_height())
    }

    pub closed spec fn spec_width(self) -> u32 {
        self.width
    }

    pub closed spec fn spec_height(self) -> u32 {
        self.height
    }

    /// The pixel bytes, row-major, four bytes per pixel.
    pub closed spec fn spec_bytes(self) -> Seq<u8> {
        self.bytes@
    }

    /// A fresh, fully zeroed buffer for the given dimensions.
    pub fn new(width: u32, height: u32) -> (r: FrameBuffer)
        requires
            1 <= width <= MAX_DIMENSION,
            1 <= height <= MAX_DIMENSION,
        ensures
            r.wf(),
            r.spec_width() == width,
            r.spec_height() == height,
            forall|i: int| 0 <= i < r.spec_bytes().len() ==> r.spec_bytes()[i] == 0,
    {
        proof {
            assert(width * height * 4 <= 0x4000_0000int) by (nonlinear_arith)
                requires
                    width <= MAX_DIMENSION,
                    height <= MAX_DIMENSION,
            ;
        }
        let len: usize = (width as usize) * (height as usize) * 4;
        let mut bytes: Vec<u8> = Vec::new();
        let mut i: usize = 0;
        while i < len
            invariant
                i <= len,
                bytes@.len() == i,
                forall|j: int| 0 <= j < i ==> bytes@[j] == 0,
            decreases len - i,
        {
            bytes.push(0);
            i = i + 1;
        }
        FrameBuffer { bytes, width, height }
    }

    pub fn width(&self) -> (r: u32)
        ensures
            r == self.spec_width(),
    {
        self.width
    }

    pub fn height(&self) -> (r: u32)
        ensures
            r == self.spec_height(),
    {
        self.height
    }

    /// Length of the pixel byte sequence.
    pub fn len(&self) -> (r: usize)
        requires
            self.wf(),
        ensures
            r == self.spec_bytes().len(),
    {
        self.bytes.len()
    }

    /// The byte at one index, for an explicit pull of frame data.
    pub fn byte_at(&self, i: usize) -> (r: u8)
        requires
            i < self.spec_bytes().len(),
        ensures
            r == self.spec_bytes()[i as int],
    {
        self.bytes[i]
    }

    /// A copy of the whole frame, for delivery to the consumer.
    pub fn to_bytes(&self) -> (r: Vec<u8>)
        ensures
            r@ == self.spec_bytes(),
    {
        let mut out: Vec<u8> = Vec::new();
        let mut i: usize = 0;
        while i < self.bytes.len()
            invariant
                i <= self.bytes@.len(),
                out@ == self.bytes@.subrange(0, i as int),
            decreases self.bytes@.len() - i,
        {
            out.push(self.bytes[i]);
            assert(out@ =~= self.bytes@.subrange(0, i + 1));
            i = i + 1;
        }
        assert(out@ =~= self.bytes@);
        out
    }

    /// Replaces the buffer wholesale with a zeroed one of the new
    /// dimensions. The old allocation is discarded, never resized in
    /// place.
    pub fn reallocate(&mut self, width: u32, height: u32)
        requires
            1 <= width <= MAX_DIMENSION,
            1 <= height <= MAX_DIMENSION,
        ensures
            final (self).wf(),
            final (self).spec_width() == width,
            final (self).spec_height() == height,
            forall|i: int|
                0 <= i < final (self).spec_bytes().len() ==> final (self).spec_bytes()[i] == 0,
    {
        *self = FrameBuffer::new(width, height);
    }

    /// Overwrites every byte of the frame with one value, the library's
    /// plain way of producing a frame's pixel data.
    pub fn fill(&mut self, value: u8)
        ensures
            final (self).spec_width() == old(self).spec_width(),
            final (self).spec_height() == old(self).spec_height(),
            final (self).spec_bytes().len() == old(self).spec_bytes().len(),
            forall|i: int|
                0 <= i < final (self).spec_bytes().len() ==> final (self).spec_bytes()[i] == value,
            old(self).wf() ==> final (self).wf(),
    {
        let len = self.bytes.len();
        let mut i: usize = 0;
        while i < len
            invariant
                i <= len,
                self.bytes@.len() == len,
                self.width == old(self).width,
                self.height == old(self).height,
                forall|j: int| 0 <= j < i ==> self.bytes@[j] == value,
            decreases len - i,
        {
            self.bytes.set(i, value);
            i = i + 1;
        }
    }

    /// Matches one configuration's dimensions.
    pub open spec fn matches(self, config: ViewportConfig) -> bool {
        self.spec_width() == config.width && self.spec_height() == config.height
    }
}

} // verus!

//! Full-frame coverage mask for per-draw compositing (GPU samples in fine stage).

use std::sync::Arc;
use vstd::prelude::*;

verus! {

/// Row-major alpha mask (`width * height` bytes), same dimensions as the render target.
#[derive(Debug)]
pub struct CoverageMask {
    pub width: u32,
    pub height: u32,
    pub data: Arc<Vec<u8>>,
}

impl Clone for CoverageMask {
    fn clone(&self) -> (m: Self)
        ensures
            m == *self,
    {
        CoverageMask { width: self.width, height: self.height, data: self.data.clone() }
    }
}

impl CoverageMask {
    /// One byte for each pixel of a mask that is not empty.
    pub open spec fn wf(self) -> bool {
        &&& self.width > 0
        &&& self.height > 0
        &&& self.data@.len() == self.width * self.height
    }

    /// Creates a mask from raw bytes (typically one byte per pixel).
    pub fn new(width: u32, height: u32, data: Arc<Vec<u8>>) -> (m: Option<Self>)
        ensures
            m is Some <==> width > 0 && height > 0 && data@.len() == width * height,
            m matches Some(mask) ==> mask.wf() && mask.width == width && mask.height == height && mask.data == data,
    {
        if width == 0 || height == 0 {
            return None;
        }
        assert(width * height <= 0xffff_ffff * 0xffff_ffff) by (nonlinear_arith)
            requires
                width <= 0xffff_ffff,
                height <= 0xffff_ffff,
        ;
        let pixels: u64 = (width as u64) * (height as u64);
        if data.len() as u64 != pixels {
            return None;
        }
        Some(CoverageMask { width, height, data })
    }
}

} // verus!

//! The published display image: the last RGB raster a job produced, and
//! whether the window's cached texture of it is out of date.
use vstd::prelude::*;

verus! {

/// Bytes of a row-major RGB raster of `dims` = (height, width).
pub open spec fn raster_len(dims: (usize, usize)) -> int {
    dims.0 * dims.1 * 3
}

/// Bytes of a row-major RGB raster of `dims` = (height, width), or `None`
/// where that count does not fit a `usize`.
pub fn rgb_buffer_len(dims: (usize, usize)) -> (r: Option<usize>)
    ensures
        r matches Some(n) ==> n == raster_len(dims),
        r is None ==> raster_len(dims) > usize::MAX,
{
    let (h, w) = dims;
    match h.checked_mul(w) {
        Some(hw) => match hw.checked_mul(3) {
            Some(n) => {
                assert(n == h * w * 3) by (nonlinear_arith)
                    requires
                        hw == h * w,
                        n == hw * 3,
                ;
                Some(n)
            },
            None => {
                assert(h * w * 3 == hw * 3);
                None
            },
        },
        None => {
            assert(h * w * 3 >= h * w) by (nonlinear_arith)
                requires
                    h * w >= 0,
            ;
            None
        },
    }
}

/// The image on display.
#[derive(Debug)]
pub struct ItersImage {
    /// (height, width) of the raster.
    pub mat_dims: (usize, usize),
    /// Row-major RGB bytes; empty until a first raster is published.
    pub rgb: Vec<u8>,
    /// The texture drawn from `rgb` must be rebuilt before it is shown.
    pub texture_stale: bool,
}

impl ItersImage {
    /// An image of `mat_dims` with nothing published yet.
    pub fn new(mat_dims: (usize, usize)) -> (r: Self)
        ensures
            r.mat_dims == mat_dims,
            r.rgb@ == Seq::<u8>::empty(),
            r.texture_stale,
    {
        ItersImage { mat_dims, rgb: Vec::new(), texture_stale: true }
    }

    /// Publishes `rgb` where it is a full raster of this image's
    /// dimensions, and marks the texture stale; otherwise changes nothing.
    pub fn update(&mut self, rgb: Vec<u8>) -> (r: bool)
        ensures
            r == (rgb@.len() == raster_len(old(self).mat_dims)),
            r ==> *final(self) == (ItersImage {
                mat_dims: old(self).mat_dims,
                rgb,
                texture_stale: true,
            }),
            !r ==> *final(self) == *old(self),
    {
        let got = rgb.len();
        match rgb_buffer_len(self.mat_dims) {
            Some(n) => {
                if got == n {
                    self.rgb = rgb;
                    self.texture_stale = true;
                    true
                } else {
                    false
                }
            },
            None => false,
        }
    }

    /// Whether the texture must be rebuilt from `rgb`; afterwards it counts
    /// as fresh.
    pub fn take_texture_refresh(&mut self) -> (r: bool)
        ensures
            r == old(self).texture_stale,
            *final(self) == (ItersImage { texture_stale: false, ..*old(self) }),
    {
        let r = self.texture_stale;
        self.texture_stale = false;
        r
    }
}

} // verus!

//! Parameter records shared with the device program, and the user-facing
//! shared parameters from which they are built.
//!
//! Every `u64` field named like a real quantity holds the IEEE-754 bit
//! pattern of an `f64`.
use vstd::prelude::*;

verus! {

/// Bit pattern of `-0.7`.
pub const BITS_MINUS_0_7: u64 = 0xbfe6666666666666;

/// Bit pattern of `0.3`.
pub const BITS_0_3: u64 = 0x3fd3333333333333;

/// Bit pattern of `-0.4`.
pub const BITS_MINUS_0_4: u64 = 0xbfd999999999999a;

/// Bit pattern of `0.0`.
pub const BITS_0_0: u64 = 0x0;

/// Bit pattern of `1.0`.
pub const BITS_1_0: u64 = 0x3ff0000000000000;

/// Bit pattern of `1.1`.
pub const BITS_1_1: u64 = 0x3ff199999999999a;

/// Bit pattern of `3.3`.
pub const BITS_3_3: u64 = 0x400a666666666666;

/// Bit pattern of `9.9`.
pub const BITS_9_9: u64 = 0x4023cccccccccccd;

/// A rectangle of the complex plane.
#[derive(Clone, Copy, Debug, PartialEq, Eq, Structural)]
pub struct BBox {
    pub left: u64,
    pub right: u64,
    pub bot: u64,
    pub top: u64,
}

impl Default for BBox {
    fn default() -> (r: Self)
        ensures
            r == (BBox { left: BITS_0_0, right: BITS_0_0, bot: BITS_0_0, top: BITS_0_0 }),
    {
        BBox { left: BITS_0_0, right: BITS_0_0, bot: BITS_0_0, top: BITS_0_0 }
    }
}

/// A complex number.
#[derive(Clone, Copy, Debug, PartialEq, Eq, Structural)]
pub struct Complex {
    pub re: u64,
    pub im: u64,
}

impl Default for Complex {
    /// `-0.7 + 0.3i`.
    fn default() -> (r: Self)
        ensures
            r == (Complex { re: BITS_MINUS_0_7, im: BITS_0_3 }),
    {
        Complex { re: BITS_MINUS_0_7, im: BITS_0_3 }
    }
}

/// The record every field kernel receives: mode flag, constant, view and
/// iteration bound.
#[derive(Clone, Copy, Debug, PartialEq, Eq, Structural)]
pub struct SFParam {
    pub mode_int: i32,
    pub c: Complex,
    pub view: BBox,
    pub max_iter: i32,
}

/// Frequencies of the sine colour map, one per channel.
#[derive(Clone, Copy, Debug, PartialEq, Eq, Structural)]
pub struct Freqs {
    pub r: u64,
    pub g: u64,
    pub b: u64,
}

impl Freqs {
    pub open spec fn default_spec() -> Self {
        Freqs { r: BITS_1_1, g: BITS_3_3, b: BITS_9_9 }
    }
}

impl Default for Freqs {
    /// `{1.1, 3.3, 9.9}`.
    fn default() -> (r: Self)
        ensures
            r == Freqs::default_spec(),
    {
        Freqs { r: BITS_1_1, g: BITS_3_3, b: BITS_9_9 }
    }
}

/// Targets of the orbit proximity measure.
#[derive(Clone, Copy, Debug, PartialEq, Eq, Structural)]
pub struct ProxType {
    pub to_unit_circ: bool,
    pub to_horizontal: bool,
    pub to_vertical: bool,
}

impl Default for ProxType {
    /// Proximity to the unit circle only.
    fn default() -> (r: Self)
        ensures
            r == (ProxType { to_unit_circ: true, to_horizontal: false, to_vertical: false }),
    {
        ProxType { to_unit_circ: true, to_horizontal: false, to_vertical: false }
    }
}

/// Height and width of an externally sampled image, as the device program
/// reads them.
#[derive(Clone, Copy, Debug, PartialEq, Eq, Structural)]
pub struct ImDims {
    pub height: i32,
    pub width: i32,
}

impl Default for ImDims {
    fn default() -> (r: Self)
        ensures
            r == (ImDims { height: 0, width: 0 }),
    {
        ImDims { height: 0, width: 0 }
    }
}

impl ImDims {
    /// The dimensions of an image of `height` rows and `width` columns, or
    /// `None` where either does not fit an `i32`.
    pub fn from_shape(height: usize, width: usize) -> (r: Option<ImDims>)
        ensures
            r == (if height <= i32::MAX && width <= i32::MAX {
                Some(ImDims { height: height as i32, width: width as i32 })
            } else {
                None
            }),
    {
        if height <= i32::MAX as usize && width <= i32::MAX as usize {
            Some(ImDims { height: height as i32, width: width as i32 })
        } else {
            None
        }
    }
}

/// Whether the fractal iterates from `z = 0` with a per-pixel constant, or
/// from the pixel with a fixed constant `c`.
#[derive(Clone, Copy, Debug, PartialEq, Eq, Structural)]
pub enum FractalMode {
    Mandel,
    Julia { c: Complex },
}

impl Default for FractalMode {
    fn default() -> (r: Self)
        ensures
            r == FractalMode::Mandel,
    {
        FractalMode::Mandel
    }
}

impl FractalMode {
    /// The constant handed to the device: the Julia constant, or the default
    /// complex number in Mandelbrot mode (where the device ignores it).
    pub open spec fn spec_c(self) -> Complex {
        match self {
            FractalMode::Mandel => Complex { re: BITS_MINUS_0_7, im: BITS_0_3 },
            FractalMode::Julia { c } => c,
        }
    }

    /// The device's mode flag: `1` for Mandelbrot mode, `0` for Julia mode.
    pub open spec fn spec_mode_int(self) -> i32 {
        match self {
            FractalMode::Mandel => 1,
            FractalMode::Julia { .. } => 0,
        }
    }

    pub fn get_c(&self) -> (r: Complex)
        ensures
            r == self.spec_c(),
    {
        match self {
            FractalMode::Mandel => Complex::default(),
            FractalMode::Julia { c } => *c,
        }
    }
}

/// The shared parameters as the user edits them.
#[derive(Clone, Copy, Debug, PartialEq, Eq, Structural)]
pub struct SFParamUI {
    pub mode: FractalMode,
    pub view_center: Complex,
    pub zoom: u64,
    pub aspect: u64,
    pub max_iter: i32,
}

impl Default for SFParamUI {
    fn default() -> (r: Self)
        ensures
            r == SFParamUI::default_spec(),
    {
        SFParamUI {
            max_iter: 100,
            view_center: Complex { re: BITS_MINUS_0_4, im: BITS_0_0 },
            mode: FractalMode::default(),
            zoom: BITS_1_0,
            aspect: BITS_1_0,
        }
    }
}

impl SFParamUI {
    /// Mandelbrot mode, centre `-0.4 + 0i`, zoom and aspect `1.0`, 100
    /// iterations.
    pub open spec fn default_spec() -> Self {
        SFParamUI {
            mode: FractalMode::Mandel,
            view_center: Complex { re: BITS_MINUS_0_4, im: BITS_0_0 },
            zoom: BITS_1_0,
            aspect: BITS_1_0,
            max_iter: 100,
        }
    }

    /// The device record for these parameters, over the view rectangle
    /// `view` that they resolve to.
    pub open spec fn spec_c_struct(self, view: BBox) -> SFParam {
        SFParam {
            mode_int: self.mode.spec_mode_int(),
            c: self.mode.spec_c(),
            view,
            max_iter: self.max_iter,
        }
    }

    pub fn get_c_struct(&self, view: BBox) -> (r: SFParam)
        ensures
            r == self.spec_c_struct(view),
    {
        SFParam {
            mode_int: match self.mode {
                FractalMode::Mandel => 1,
                FractalMode::Julia { .. } => 0,
            },
            c: self.mode.get_c(),
            view,
            max_iter: self.max_iter,
        }
    }
}

} // verus!

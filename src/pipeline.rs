//! The field pipeline: which device kernels a visualisation needs, against
//! which field buffers, and in what order.
use crate::params::{BBox, Freqs, ImDims, ProxType, SFParam, SFParamUI};
use vstd::prelude::*;

verus! {

/// A scalar field that a device kernel computes per pixel.
#[derive(Clone, Copy, Debug, PartialEq, Eq, Structural)]
pub enum FractalFieldType {
    ItersToEscape,
    ChainMinProximity { prox_type: ProxType },
    BoxTrapRe { box_: BBox },
    BoxTrapIm { box_: BBox },
}

impl Default for FractalFieldType {
    fn default() -> (r: Self)
        ensures
            r == FractalFieldType::ItersToEscape,
    {
        FractalFieldType::ItersToEscape
    }
}

/// Two optional paths name the same file, or both are absent.
pub open spec fn same_path(a: Option<String>, b: Option<String>) -> bool {
    match (a, b) {
        (None, None) => true,
        (Some(x), Some(y)) => x@ == y@,
        _ => false,
    }
}

fn copy_path(p: &Option<String>) -> (r: Option<String>)
    ensures
        r == *p,
{
    match p {
        Some(s) => Some(s.clone()),
        None => None,
    }
}

fn eq_path(a: &Option<String>, b: &Option<String>) -> (r: bool)
    ensures
        r == same_path(*a, *b),
{
    match (a, b) {
        (None, None) => true,
        (Some(x), Some(y)) => <String as PartialEq>::eq(x, y),
        _ => false,
    }
}

/// The image that a dual-field visualisation samples, by path.
#[derive(Debug, Default)]
pub struct SelectedImage {
    pub path: Option<String>,
}

impl SelectedImage {
    pub fn capture(&self) -> (r: Self)
        ensures
            r == *self,
    {
        SelectedImage { path: copy_path(&self.path) }
    }
}

impl PartialEq for SelectedImage {
    fn eq(&self, other: &SelectedImage) -> (r: bool) {
        eq_path(&self.path, &other.path)
    }
}

impl vstd::std_specs::cmp::PartialEqSpecImpl for SelectedImage {
    open spec fn obeys_eq_spec() -> bool {
        true
    }

    open spec fn eq_spec(&self, other: &SelectedImage) -> bool {
        same_path(self.path, other.path)
    }
}

/// How the computed fields become an RGB raster.
#[derive(Debug)]
pub enum FractalVisualisationType {
    /// One field through a sine colour map.
    SingleFieldCmaped { field_type: FractalFieldType, cmap_freqs: Freqs },
    /// Two fields as coordinates into a sampled image.
    DualFieldImageMap {
        u_field_type: FractalFieldType,
        v_field_type: FractalFieldType,
        selected_image: SelectedImage,
        bilinear_interp: bool,
    },
    /// Three fields as the red, green and blue channels.
    TriFieldRGB {
        r_field_type: FractalFieldType,
        g_field_type: FractalFieldType,
        b_field_type: FractalFieldType,
        normalise_colors: bool,
    },
}

impl Default for FractalVisualisationType {
    fn default() -> (r: Self)
        ensures
            r == (FractalVisualisationType::SingleFieldCmaped {
                field_type: FractalFieldType::ItersToEscape,
                cmap_freqs: Freqs::default_spec(),
            }),
    {
        FractalVisualisationType::SingleFieldCmaped {
            field_type: FractalFieldType::default(),
            cmap_freqs: Freqs::default(),
        }
    }
}

impl FractalVisualisationType {
    /// Equality by value, paths compared by their text.
    pub open spec fn same_as(self, other: Self) -> bool {
        match (self, other) {
            (
                FractalVisualisationType::SingleFieldCmaped { field_type: a, cmap_freqs: fa },
                FractalVisualisationType::SingleFieldCmaped { field_type: b, cmap_freqs: fb },
            ) => a == b && fa == fb,
            (
                FractalVisualisationType::DualFieldImageMap {
                    u_field_type: ua,
                    v_field_type: va,
                    selected_image: sa,
                    bilinear_interp: ba,
                },
                FractalVisualisationType::DualFieldImageMap {
                    u_field_type: ub,
                    v_field_type: vb,
                    selected_image: sb,
                    bilinear_interp: bb,
                },
            ) => ua == ub && va == vb && same_path(sa.path, sb.path) && ba == bb,
            (
                FractalVisualisationType::TriFieldRGB {
                    r_field_type: ra,
                    g_field_type: ga,
                    b_field_type: ba,
                    normalise_colors: na,
                },
                FractalVisualisationType::TriFieldRGB {
                    r_field_type: rb,
                    g_field_type: gb,
                    b_field_type: bb,
                    normalise_colors: nb,
                },
            ) => ra == rb && ga == gb && ba == bb && na == nb,
            _ => false,
        }
    }

    pub fn capture(&self) -> (r: Self)
        ensures
            r == *self,
    {
        match self {
            FractalVisualisationType::SingleFieldCmaped { field_type, cmap_freqs } => {
                FractalVisualisationType::SingleFieldCmaped {
                    field_type: *field_type,
                    cmap_freqs: *cmap_freqs,
                }
            },
            FractalVisualisationType::DualFieldImageMap {
                u_field_type,
                v_field_type,
                selected_image,
                bilinear_interp,
            } => FractalVisualisationType::DualFieldImageMap {
                u_field_type: *u_field_type,
                v_field_type: *v_field_type,
                selected_image: selected_image.capture(),
                bilinear_interp: *bilinear_interp,
            },
            FractalVisualisationType::TriFieldRGB {
                r_field_type,
                g_field_type,
                b_field_type,
                normalise_colors,
            } => FractalVisualisationType::TriFieldRGB {
                r_field_type: *r_field_type,
                g_field_type: *g_field_type,
                b_field_type: *b_field_type,
                normalise_colors: *normalise_colors,
            },
        }
    }
}

impl PartialEq for FractalVisualisationType {
    fn eq(&self, other: &FractalVisualisationType) -> (r: bool) {
        match (self, other) {
            (
                FractalVisualisationType::SingleFieldCmaped { field_type: a, cmap_freqs: fa },
                FractalVisualisationType::SingleFieldCmaped { field_type: b, cmap_freqs: fb },
            ) => *a == *b && *fa == *fb,
            (
                FractalVisualisationType::DualFieldImageMap {
                    u_field_type: ua,
                    v_field_type: va,
                    selected_image: sa,
                    bilinear_interp: ba,
                },
                FractalVisualisationType::DualFieldImageMap {
                    u_field_type: ub,
                    v_field_type: vb,
                    selected_image: sb,
                    bilinear_interp: bb,
                },
            ) => *ua == *ub && *va == *vb && eq_path(&sa.path, &sb.path) && *ba == *bb,
            (
                FractalVisualisationType::TriFieldRGB {
                    r_field_type: ra,
                    g_field_type: ga,
                    b_field_type: ba,
                    normalise_colors: na,
                },
                FractalVisualisationType::TriFieldRGB {
                    r_field_type: rb,
                    g_field_type: gb,
                    b_field_type: bb,
                    normalise_colors: nb,
                },
            ) => *ra == *rb && *ga == *gb && *ba == *bb && *na == *nb,
            _ => false,
        }
    }
}

impl vstd::std_specs::cmp::PartialEqSpecImpl for FractalVisualisationType {
    open spec fn obeys_eq_spec() -> bool {
        true
    }

    open spec fn eq_spec(&self, other: &FractalVisualisationType) -> bool {
        self.same_as(*other)
    }
}

/// One full configuration: the shared parameters and the visualisation.
#[derive(Debug)]
pub struct FractalParams {
    pub sfparam: SFParamUI,
    pub vis_type: FractalVisualisationType,
}

impl Default for FractalParams {
    fn default() -> (r: Self)
        ensures
            r == FractalParams::default_spec(),
    {
        FractalParams {
            sfparam: SFParamUI::default(),
            vis_type: FractalVisualisationType::default(),
        }
    }
}

impl FractalParams {
    /// Equality by value, paths compared by their text.
    pub open spec fn same_as(self, other: Self) -> bool {
        self.sfparam == other.sfparam && self.vis_type.same_as(other.vis_type)
    }

    pub open spec fn default_spec() -> Self {
        FractalParams {
            sfparam: SFParamUI::default_spec(),
            vis_type: FractalVisualisationType::SingleFieldCmaped {
                field_type: FractalFieldType::ItersToEscape,
                cmap_freqs: Freqs::default_spec(),
            },
        }
    }

    pub fn capture(&self) -> (r: Self)
        ensures
            r == *self,
    {
        FractalParams { sfparam: self.sfparam, vis_type: self.vis_type.capture() }
    }
}

impl PartialEq for FractalParams {
    fn eq(&self, other: &FractalParams) -> (r: bool) {
        self.sfparam == other.sfparam && self.vis_type == other.vis_type
    }
}

impl vstd::std_specs::cmp::PartialEqSpecImpl for FractalParams {
    open spec fn obeys_eq_spec() -> bool {
        true
    }

    open spec fn eq_spec(&self, other: &FractalParams) -> bool {
        self.same_as(*other)
    }
}

/// One device kernel invocation, with the arguments it is given. Field
/// kernels write the field buffer `slot` (1, 2 or 3); combine kernels read
/// field buffers and write the RGB buffer.
#[derive(Clone, Copy, Debug, PartialEq, Eq, Structural)]
pub enum KernelCall {
    /// Escape-time iteration count.
    EscapeIter { slot: usize, param: SFParam },
    /// Minimum proximity of the orbit to the chosen targets.
    MinProx { slot: usize, param: SFParam, prox_type: ProxType },
    /// Orbit trap on a box, real part (`real_part`) or imaginary part.
    BoxTrap { slot: usize, param: SFParam, box_: BBox, real_part: bool },
    /// Sine colour map of field 1.
    MapSines { freqs: Freqs },
    /// Lookup of fields 1 and 2 in the sampled image of size `dims`,
    /// nearest-neighbour or bilinear.
    MapImg { bilinear: bool, dims: ImDims },
    /// Fields 1, 2 and 3 packed as channels, raw or normalised.
    Pack { normalise: bool },
}

impl KernelCall {
    /// The name of the device program's entry point for this call.
    pub open spec fn spec_entry_point(self) -> Seq<char> {
        match self {
            KernelCall::EscapeIter { .. } => "escape_iter_fpn"@,
            KernelCall::MinProx { .. } => "min_prox"@,
            KernelCall::BoxTrap { real_part, .. } => if real_part {
                "orbit_trap_re"@
            } else {
                "orbit_trap_im"@
            },
            KernelCall::MapSines { .. } => "map_sines"@,
            KernelCall::MapImg { bilinear, .. } => if bilinear {
                "map_img3"@
            } else {
                "map_img2"@
            },
            KernelCall::Pack { normalise } => if normalise {
                "pack_norm"@
            } else {
                "pack"@
            },
        }
    }

    pub fn entry_point(&self) -> (r: &'static str)
        ensures
            r@ == self.spec_entry_point(),
    {
        match self {
            KernelCall::EscapeIter { .. } => "escape_iter_fpn",
            KernelCall::MinProx { .. } => "min_prox",
            KernelCall::BoxTrap { real_part, .. } => if *real_part {
                "orbit_trap_re"
            } else {
                "orbit_trap_im"
            },
            KernelCall::MapSines { .. } => "map_sines",
            KernelCall::MapImg { bilinear, .. } => if *bilinear {
                "map_img3"
            } else {
                "map_img2"
            },
            KernelCall::Pack { normalise } => if *normalise {
                "pack_norm"
            } else {
                "pack"
            },
        }
    }
}

/// The kernel that computes `field_type` into field buffer `slot`.
pub open spec fn spec_field_kernel(slot: usize, field_type: FractalFieldType, param: SFParam) -> KernelCall {
    match field_type {
        FractalFieldType::ItersToEscape => KernelCall::EscapeIter { slot, param },
        FractalFieldType::ChainMinProximity { prox_type } => KernelCall::MinProx {
            slot,
            param,
            prox_type,
        },
        FractalFieldType::BoxTrapRe { box_ } => KernelCall::BoxTrap { slot, param, box_, real_part: true },
        FractalFieldType::BoxTrapIm { box_ } => KernelCall::BoxTrap {
            slot,
            param,
            box_,
            real_part: false,
        },
    }
}

pub fn field_kernel(slot: usize, field_type: &FractalFieldType, param: SFParam) -> (r: KernelCall)
    requires
        1 <= slot <= 3,
    ensures
        r == spec_field_kernel(slot, *field_type, param),
{
    match field_type {
        FractalFieldType::ItersToEscape => KernelCall::EscapeIter { slot, param },
        FractalFieldType::ChainMinProximity { prox_type } => KernelCall::MinProx {
            slot,
            param,
            prox_type: *prox_type,
        },
        FractalFieldType::BoxTrapRe { box_ } => KernelCall::BoxTrap {
            slot,
            param,
            box_: *box_,
            real_part: true,
        },
        FractalFieldType::BoxTrapIm { box_ } => KernelCall::BoxTrap {
            slot,
            param,
            box_: *box_,
            real_part: false,
        },
    }
}

/// The kernels a job runs for `vis`, in order: one field kernel per field
/// (into buffers 1, 2, 3 in turn), then the one combine kernel of the
/// visualisation. A dual-field visualisation runs nothing while no sampled
/// image (of size `sampled`) is loaded.
pub open spec fn planned_kernels(
    vis: FractalVisualisationType,
    param: SFParam,
    sampled: Option<ImDims>,
) -> Seq<KernelCall> {
    match vis {
        FractalVisualisationType::SingleFieldCmaped { field_type, cmap_freqs } => seq![
            spec_field_kernel(1, field_type, param),
            KernelCall::MapSines { freqs: cmap_freqs },
        ],
        FractalVisualisationType::DualFieldImageMap {
            u_field_type,
            v_field_type,
            bilinear_interp,
            ..
        } => match sampled {
            Some(dims) => seq![
                spec_field_kernel(1, u_field_type, param),
                spec_field_kernel(2, v_field_type, param),
                KernelCall::MapImg { bilinear: bilinear_interp, dims },
            ],
            None => seq![],
        },
        FractalVisualisationType::TriFieldRGB {
            r_field_type,
            g_field_type,
            b_field_type,
            normalise_colors,
        } => seq![
            spec_field_kernel(1, r_field_type, param),
            spec_field_kernel(2, g_field_type, param),
            spec_field_kernel(3, b_field_type, param),
            KernelCall::Pack { normalise: normalise_colors },
        ],
    }
}

pub fn plan_kernels(
    vis: &FractalVisualisationType,
    param: SFParam,
    sampled: Option<ImDims>,
) -> (r: Vec<KernelCall>)
    ensures
        r@ == planned_kernels(*vis, param, sampled),
{
    let mut calls: Vec<KernelCall> = Vec::new();
    match vis {
        FractalVisualisationType::SingleFieldCmaped { field_type, cmap_freqs } => {
            calls.push(field_kernel(1, field_type, param));
            calls.push(KernelCall::MapSines { freqs: *cmap_freqs });
        },
        FractalVisualisationType::DualFieldImageMap {
            u_field_type,
            v_field_type,
            bilinear_interp,
            ..
        } => {
            if let Some(dims) = sampled {
                calls.push(field_kernel(1, u_field_type, param));
                calls.push(field_kernel(2, v_field_type, param));
                calls.push(KernelCall::MapImg { bilinear: *bilinear_interp, dims });
            }
        },
        FractalVisualisationType::TriFieldRGB {
            r_field_type,
            g_field_type,
            b_field_type,
            normalise_colors,
        } => {
            calls.push(field_kernel(1, r_field_type, param));
            calls.push(field_kernel(2, g_field_type, param));
            calls.push(field_kernel(3, b_field_type, param));
            calls.push(KernelCall::Pack { normalise: *normalise_colors });
        },
    }
    assert(calls@ =~= planned_kernels(*vis, param, sampled));
    calls
}

/// The image a job must load before its kernels run: the path that a
/// dual-field visualisation selects, where it differs from the path of the
/// image already loaded (`cached`).
pub open spec fn reload_path(vis: FractalVisualisationType, cached: Option<String>) -> Option<String> {
    match vis {
        FractalVisualisationType::DualFieldImageMap { selected_image, .. } => match selected_image.path {
            Some(p) => if same_path(cached, Some(p)) {
                None
            } else {
                Some(p)
            },
            None => None,
        },
        _ => None,
    }
}

pub fn sampled_reload(vis: &FractalVisualisationType, cached: &Option<String>) -> (r: Option<String>)
    ensures
        r == reload_path(*vis, *cached),
{
    match vis {
        FractalVisualisationType::DualFieldImageMap { selected_image, .. } => {
            if eq_path(cached, &selected_image.path) {
                None
            } else {
                copy_path(&selected_image.path)
            }
        },
        _ => None,
    }
}

/// Two equal snapshots, resolved over the same view rectangle and the same
/// sampled image, run the same kernels with the same arguments in the same
/// order.
pub proof fn lemma_plan_determined_by_snapshot(
    a: FractalParams,
    b: FractalParams,
    view: BBox,
    sampled: Option<ImDims>,
)
    requires
        a.same_as(b),
    ensures
        planned_kernels(a.vis_type, a.sfparam.spec_c_struct(view), sampled) == planned_kernels(
            b.vis_type,
            b.sfparam.spec_c_struct(view),
            sampled,
        ),
{
}

} // verus!

//! The scheduler: change detection, at-most-one-job dispatch, collection of
//! finished jobs, and the recompile path.
//!
//! The window calls [`FractalViewer::tick`] once per frame. It hands in the
//! outcome of the outstanding job once that job has finished, and receives
//! the status to show and, at most once per tick, a job to start on a worker.
use crate::image::{raster_len, ItersImage};
use crate::params::{BBox, ImDims, SFParamUI};
use crate::pipeline::{planned_kernels, FractalParams, FractalVisualisationType};
use vstd::prelude::*;

verus! {

/// (height, width) of the raster a fresh viewer renders.
pub const INITIAL_IM_MAT_DIMS: (usize, usize) = (768, 1280);

/// The iteration function a fresh editor holds.
pub const DEFAULT_ITER_FUNC: &'static str =
    "// Define custom iteration function f: (Complex_t, Complex_t) -> Complex_t
// first argument is spatially dependent while the second is either 
// z_0 for mandel-like and user input for julia-like options.
// Complex_t has fields re and im. Convenience functions
// `complex_add: (Complex_t, Complex_t) -> Complex_t`
// `complex_mult: (Complex_t, Complex_t) -> Complex_t`
// and `complex_pow: (Complex_t, int) -> Complex_t` are in scope.
inline Complex_t f(Complex_t z, Complex_t c) {
  return complex_add(complex_pow(z, 2), c);
}";

/// The text of the user's iteration function.
#[derive(Debug)]
pub struct FunctionEditor {
    pub code: String,
}

impl Default for FunctionEditor {
    fn default() -> (r: Self)
        ensures
            r.code@ == DEFAULT_ITER_FUNC@,
    {
        FunctionEditor { code: String::from_str(DEFAULT_ITER_FUNC) }
    }
}

/// Why a finished job published nothing.
#[derive(Debug)]
pub enum JobError {
    /// A kernel enqueue or the read-back failed on the device.
    Kernel(String),
    /// The raster read back has `got` bytes, not a full raster of the
    /// image's dimensions.
    RasterSize { got: usize },
}

impl JobError {
    pub fn capture(&self) -> (r: Self)
        ensures
            r == *self,
    {
        match self {
            JobError::Kernel(m) => JobError::Kernel(m.clone()),
            JobError::RasterSize { got } => JobError::RasterSize { got: *got },
        }
    }
}

/// How a job ended, as the worker reports it.
#[derive(Debug)]
pub enum JobOutcome {
    /// The kernels ran; these are the RGB bytes read back.
    Rendered(Vec<u8>),
    /// The compute context was locked; the job did nothing.
    Busy,
    /// A kernel or the read-back failed.
    Failed(String),
}

/// What the window shows as the device's state.
#[derive(Debug)]
pub enum Status {
    /// A job is outstanding.
    Busy,
    /// Nothing to do.
    Waiting,
    /// Nothing to do; the last job failed.
    Error(JobError),
}

/// A render job: the snapshot it renders and the raster (height, width).
#[derive(Debug)]
pub struct Job {
    pub params: FractalParams,
    pub dims: (usize, usize),
}

/// The result of one tick.
#[derive(Debug)]
pub struct Tick {
    pub status: Status,
    /// The job to start now, if any.
    pub job: Option<Job>,
}

/// Why the last recompile left the compute context as it was.
#[derive(Debug)]
pub enum RecompileError {
    /// A job was outstanding, or the context was locked.
    Busy,
    /// The device program did not build; the builder's message.
    Build(String),
}

/// A recompile the window is to carry out: build a context of `dims`
/// (height, width) from the template with `code` spliced in.
#[derive(Debug)]
pub struct RecompileRequest {
    pub dims: (usize, usize),
    pub code: String,
}

/// How the window's attempt at a requested recompile ended.
#[derive(Debug)]
pub enum RecompileOutcome {
    /// The new context was built and has replaced the old one.
    Built,
    /// The context was locked; nothing was built.
    LockBusy,
    /// The build failed with this message; the old context stays.
    BuildFailed(String),
}

/// The scheduler's state.
#[derive(Debug)]
pub struct FractalViewer {
    /// The configuration as currently edited.
    pub fp: FractalParams,
    /// The snapshot of the last dispatched job.
    pub old_fp: FractalParams,
    pub editor: FunctionEditor,
    /// (height, width) for the next recompile.
    pub size_selection: (usize, usize),
    /// Why the last recompile failed, if it did.
    pub error: Option<RecompileError>,
    /// Why the last finished job failed, if it did.
    pub job_error: Option<JobError>,
    /// The published image; its dimensions are those of the active
    /// compute context.
    pub iters_image: ItersImage,
    /// A dispatched job has not been collected yet.
    pub job_outstanding: bool,
    /// The last job found the context locked and must be run again.
    pub retry: bool,
}

impl FractalViewer {
    /// The current configuration needs a job: it differs from the last
    /// dispatched one, or that job found the context locked.
    pub open spec fn is_dirty(self) -> bool {
        !self.fp.same_as(self.old_fp) || self.retry
    }

    /// This state with the configuration edited to `fp`.
    pub open spec fn edited(self, fp: FractalParams) -> Self {
        FractalViewer { fp, ..self }
    }

    /// The state after the outcome of a finished job (if one is handed in
    /// while a job is outstanding) is taken in.
    pub open spec fn collected(self, finished: Option<JobOutcome>) -> Self {
        if !self.job_outstanding {
            self
        } else {
            match finished {
                None => self,
                Some(JobOutcome::Rendered(rgb)) => if rgb@.len() == raster_len(
                    self.iters_image.mat_dims,
                ) {
                    FractalViewer {
                        job_outstanding: false,
                        job_error: None,
                        iters_image: ItersImage {
                            mat_dims: self.iters_image.mat_dims,
                            rgb,
                            texture_stale: true,
                        },
                        ..self
                    }
                } else {
                    FractalViewer {
                        job_outstanding: false,
                        job_error: Some(JobError::RasterSize { got: rgb@.len() as usize }),
                        ..self
                    }
                },
                Some(JobOutcome::Busy) => FractalViewer {
                    job_outstanding: false,
                    retry: true,
                    ..self
                },
                Some(JobOutcome::Failed(m)) => FractalViewer {
                    job_outstanding: false,
                    job_error: Some(JobError::Kernel(m)),
                    ..self
                },
            }
        }
    }

    /// The state and tick after scheduling: busy while a job is
    /// outstanding; otherwise a job for the current configuration where it
    /// is dirty; otherwise waiting, or the last job's error.
    pub open spec fn scheduled(self) -> (Self, Tick) {
        if self.job_outstanding {
            (self, Tick { status: Status::Busy, job: None })
        } else if self.is_dirty() {
            (
                FractalViewer { old_fp: self.fp, job_outstanding: true, retry: false, ..self },
                Tick {
                    status: Status::Busy,
                    job: Some(Job { params: self.fp, dims: self.iters_image.mat_dims }),
                },
            )
        } else {
            (
                self,
                Tick {
                    status: match self.job_error {
                        Some(e) => Status::Error(e),
                        None => Status::Waiting,
                    },
                    job: None,
                },
            )
        }
    }

    /// One tick: collection, then scheduling.
    pub open spec fn ticked(self, finished: Option<JobOutcome>) -> (Self, Tick) {
        self.collected(finished).scheduled()
    }

    /// `self` is `before` after a successful rebuild of the compute context
    /// at `dims`: the image is a fresh one of `dims`, the last dispatched
    /// snapshot's iteration bound is zeroed so that the next tick renders
    /// again, and the recompile error is cleared.
    pub open spec fn rebuilt_from(self, before: Self, dims: (usize, usize)) -> bool {
        &&& self.iters_image.mat_dims == dims
        &&& self.iters_image.rgb@ == Seq::<u8>::empty()
        &&& self.iters_image.texture_stale
        &&& self.old_fp == FractalParams {
            sfparam: SFParamUI { max_iter: 0, ..before.old_fp.sfparam },
            ..before.old_fp
        }
        &&& self.error is None
        &&& self.fp == before.fp
        &&& self.editor == before.editor
        &&& self.size_selection == before.size_selection
        &&& self.job_error == before.job_error
        &&& self.job_outstanding == before.job_outstanding
        &&& self.retry == before.retry
    }

    /// A viewer of the initial size with the default configuration and the
    /// default iteration function. The last dispatched snapshot is the
    /// default with an iteration bound of zero, so the first tick renders.
    pub fn new() -> (r: Self)
        ensures
            r.fp == FractalParams::default_spec(),
            r.old_fp == (FractalParams {
                sfparam: SFParamUI { max_iter: 0, ..SFParamUI::default_spec() },
                ..FractalParams::default_spec()
            }),
            r.editor.code@ == DEFAULT_ITER_FUNC@,
            r.size_selection == INITIAL_IM_MAT_DIMS,
            r.error is None,
            r.job_error is None,
            r.iters_image.mat_dims == INITIAL_IM_MAT_DIMS,
            r.iters_image.rgb@ == Seq::<u8>::empty(),
            r.iters_image.texture_stale,
            !r.job_outstanding,
            !r.retry,
    {
        let mut old_fp = FractalParams::default();
        old_fp.sfparam.max_iter = 0;
        FractalViewer {
            fp: FractalParams::default(),
            old_fp,
            editor: FunctionEditor::default(),
            size_selection: INITIAL_IM_MAT_DIMS,
            error: None,
            job_error: None,
            iters_image: ItersImage::new(INITIAL_IM_MAT_DIMS),
            job_outstanding: false,
            retry: false,
        }
    }

    /// One frame's scheduling step. `finished` is the outcome of the
    /// outstanding job where it has finished (it is ignored while no job
    /// is outstanding).
    pub fn tick(&mut self, finished: Option<JobOutcome>) -> (r: Tick)
        ensures
            (*final(self), r) == old(self).ticked(finished),
    {
        if self.job_outstanding {
            match finished {
                None => {},
                Some(JobOutcome::Rendered(rgb)) => {
                    let got = rgb.len();
                    self.job_outstanding = false;
                    if self.iters_image.update(rgb) {
                        self.job_error = None;
                    } else {
                        self.job_error = Some(JobError::RasterSize { got });
                    }
                },
                Some(JobOutcome::Busy) => {
                    self.job_outstanding = false;
                    self.retry = true;
                },
                Some(JobOutcome::Failed(m)) => {
                    self.job_outstanding = false;
                    self.job_error = Some(JobError::Kernel(m));
                },
            }
        }
        if self.job_outstanding {
            return Tick { status: Status::Busy, job: None };
        }
        if self.fp != self.old_fp || self.retry {
            let params = self.fp.capture();
            self.old_fp = self.fp.capture();
            self.retry = false;
            self.job_outstanding = true;
            Tick { status: Status::Busy, job: Some(Job { params, dims: self.iters_image.mat_dims }) }
        } else {
            let status = match &self.job_error {
                Some(e) => Status::Error(e.capture()),
                None => Status::Waiting,
            };
            Tick { status, job: None }
        }
    }

    /// Asks to rebuild the compute context from the edited iteration
    /// function at the selected size. Refused, with a busy error and no
    /// other change, while a job is outstanding.
    pub fn begin_recompile(&mut self) -> (r: Option<RecompileRequest>)
        ensures
            old(self).job_outstanding ==> r is None && *final(self) == (FractalViewer {
                error: Some(RecompileError::Busy),
                ..*old(self)
            }),
            !old(self).job_outstanding ==> r == Some(
                RecompileRequest { dims: old(self).size_selection, code: old(self).editor.code },
            ) && *final(self) == *old(self),
    {
        if self.job_outstanding {
            self.error = Some(RecompileError::Busy);
            None
        } else {
            Some(RecompileRequest { dims: self.size_selection, code: self.editor.code.clone() })
        }
    }

    /// Takes in how a requested recompile ended. On success the new
    /// context's dimensions become the image's and a render is forced; on
    /// failure the error is kept and nothing else changes.
    pub fn finish_recompile(&mut self, request: RecompileRequest, outcome: RecompileOutcome)
        ensures
            outcome is Built ==> final(self).rebuilt_from(*old(self), request.dims),
            outcome is LockBusy ==> *final(self) == (FractalViewer {
                error: Some(RecompileError::Busy),
                ..*old(self)
            }),
            outcome matches RecompileOutcome::BuildFailed(m) ==> *final(self) == (FractalViewer {
                error: Some(RecompileError::Build(m)),
                ..*old(self)
            }),
    {
        match outcome {
            RecompileOutcome::Built => {
                self.iters_image = ItersImage::new(request.dims);
                self.old_fp.sfparam.max_iter = 0;
                self.error = None;
            },
            RecompileOutcome::LockBusy => {
                self.error = Some(RecompileError::Busy);
            },
            RecompileOutcome::BuildFailed(m) => {
                self.error = Some(RecompileError::Build(m));
            },
        }
    }
}

/// The state and the number of jobs dispatched after each configuration of
/// `edits` in turn is made current and followed by one tick in which no job
/// finishes.
pub open spec fn edits_then_ticks(v: FractalViewer, edits: Seq<FractalParams>) -> (FractalViewer, nat)
    decreases edits.len(),
{
    if edits.len() == 0 {
        (v, 0)
    } else {
        let prev = edits_then_ticks(v, edits.drop_last());
        let step = prev.0.edited(edits.last()).ticked(None);
        (step.0, prev.1 + if step.1.job is Some {
            1nat
        } else {
            0nat
        })
    }
}

/// An idle viewer whose configuration is dirty dispatches exactly one job,
/// which captures the current configuration at the image's dimensions. Once
/// that job is collected, whatever its outcome and whatever was edited in
/// the meantime, the last dispatched snapshot is the one the job captured.
pub proof fn lemma_dirty_idle_dispatches(v: FractalViewer, edit: FractalParams, outcome: JobOutcome)
    requires
        !v.job_outstanding,
        v.is_dirty(),
    ensures
        v.ticked(None).1.job == Some(Job { params: v.fp, dims: v.iters_image.mat_dims }),
        v.ticked(None).0.old_fp == v.fp,
        v.ticked(None).0.job_outstanding,
        v.ticked(None).0.edited(edit).collected(Some(outcome)).old_fp == v.fp,
        !v.ticked(None).0.edited(edit).collected(Some(outcome)).job_outstanding,
{
}

/// A tick dispatches a job only where no job is outstanding once the tick's
/// finished job (if any) is collected, so no two jobs ever hold the compute
/// context together. After the tick the outstanding job is the one just
/// dispatched, or the earlier one that has not finished.
pub proof fn lemma_one_job_at_a_time(v: FractalViewer, finished: Option<JobOutcome>)
    ensures
        v.ticked(finished).1.job is Some ==> !v.collected(finished).job_outstanding,
        v.ticked(finished).1.job is Some ==> !v.job_outstanding || finished is Some,
        v.ticked(finished).0.job_outstanding == (v.ticked(finished).1.job is Some || (
        v.job_outstanding && finished is None)),
{
}

proof fn lemma_edits_while_busy(v: FractalViewer, edits: Seq<FractalParams>)
    requires
        v.job_outstanding,
    ensures
        edits_then_ticks(v, edits).1 == 0,
        edits_then_ticks(v, edits).0 == (if edits.len() == 0 {
            v
        } else {
            v.edited(edits.last())
        }),
    decreases edits.len(),
{
    if edits.len() > 0 {
        lemma_edits_while_busy(v, edits.drop_last());
    }
}

/// Any number of edits made while a job runs dispatch nothing. Once the job
/// finishes, at most one job follows, and it captures the last edit; after
/// it nothing is dirty until the next edit.
pub proof fn lemma_edits_while_busy_coalesce(
    v: FractalViewer,
    edits: Seq<FractalParams>,
    outcome: JobOutcome,
)
    requires
        v.job_outstanding,
        edits.len() > 0,
    ensures
        edits_then_ticks(v, edits).1 == 0,
        edits_then_ticks(v, edits).0.job_outstanding,
        edits_then_ticks(v, edits).0.ticked(Some(outcome)).1.job matches Some(j) ==> j.params
            == edits.last(),
        edits_then_ticks(v, edits).0.ticked(Some(outcome)).1.job is Some ==> !edits_then_ticks(
            v,
            edits,
        ).0.ticked(Some(outcome)).0.is_dirty(),
{
    lemma_edits_while_busy(v, edits);
}

/// Switching the visualisation away and back: any job dispatched once the
/// configuration is `s` again captures exactly `s`, and so runs the same
/// kernels with the same arguments as a job for `s` before the switch.
pub proof fn lemma_visualisation_round_trip(
    v: FractalViewer,
    s: FractalParams,
    other: FractalVisualisationType,
    finished: Option<JobOutcome>,
    view: BBox,
    sampled: Option<ImDims>,
)
    requires
        v.fp == (FractalParams { vis_type: other, ..s }),
    ensures
        v.edited(s).ticked(finished).1.job matches Some(j) ==> j.params == s && planned_kernels(
            j.params.vis_type,
            j.params.sfparam.spec_c_struct(view),
            sampled,
        ) == planned_kernels(s.vis_type, s.sfparam.spec_c_struct(view), sampled),
{
}

/// After a rebuild of the compute context at new dimensions, an idle viewer
/// whose configuration has a positive iteration bound dispatches a job at
/// exactly those dimensions, and a raster of any other size is never
/// published into the new image.
pub proof fn lemma_rebuild_uses_new_dims(
    before: FractalViewer,
    after: FractalViewer,
    dims: (usize, usize),
    stale: Vec<u8>,
)
    requires
        after.rebuilt_from(before, dims),
        !after.job_outstanding,
        after.fp.sfparam.max_iter > 0,
        stale@.len() != raster_len(dims),
    ensures
        after.ticked(None).1.job matches Some(j) && j.dims == dims,
        after.ticked(None).0.collected(Some(JobOutcome::Rendered(stale))).iters_image
            == after.iters_image,
{
}

} // verus!

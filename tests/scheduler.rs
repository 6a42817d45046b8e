use fractal_viewer::image::{rgb_buffer_len, ItersImage};
use fractal_viewer::params::{BBox, Freqs, SFParamUI};
use fractal_viewer::pipeline::{
    plan_kernels, FractalFieldType, FractalParams, FractalVisualisationType, KernelCall,
};
use fractal_viewer::viewer::{
    FractalViewer, JobError, JobOutcome, RecompileError, RecompileOutcome, Status,
    DEFAULT_ITER_FUNC, INITIAL_IM_MAT_DIMS,
};

const FULL: usize = 768 * 1280 * 3;

fn tri() -> FractalVisualisationType {
    FractalVisualisationType::TriFieldRGB {
        r_field_type: FractalFieldType::ItersToEscape,
        g_field_type: FractalFieldType::ItersToEscape,
        b_field_type: FractalFieldType::ItersToEscape,
        normalise_colors: false,
    }
}

/// A viewer whose first job has been dispatched and rendered.
fn rendered_viewer() -> FractalViewer {
    let mut v = FractalViewer::new();
    assert!(v.tick(None).job.is_some());
    v.tick(Some(JobOutcome::Rendered(vec![7; FULL])));
    v
}

#[test]
fn fresh_viewer_renders_default_snapshot_at_initial_size() {
    let mut v = FractalViewer::new();
    assert_eq!(INITIAL_IM_MAT_DIMS, (768, 1280));
    assert_eq!(v.editor.code, DEFAULT_ITER_FUNC);
    let t = v.tick(None);
    assert!(matches!(t.status, Status::Busy));
    let job = t.job.unwrap();
    assert_eq!(job.dims, (768, 1280));
    assert!(job.params == FractalParams::default());
    let view = BBox {
        left: (-1.4f64).to_bits(),
        right: 0.6f64.to_bits(),
        bot: (-1.0f64).to_bits(),
        top: 1.0f64.to_bits(),
    };
    let p = job.params.sfparam.get_c_struct(view);
    assert_eq!(p.mode_int, 1);
    assert_eq!(p.max_iter, 100);
    let calls = plan_kernels(&job.params.vis_type, p, None);
    assert_eq!(
        calls,
        vec![
            KernelCall::EscapeIter { slot: 1, param: p },
            KernelCall::MapSines { freqs: Freqs::default() },
        ]
    );
    assert_eq!(rgb_buffer_len(job.dims), Some(768 * 1280 * 3));
    let t = v.tick(Some(JobOutcome::Rendered(vec![255; 768 * 1280 * 3])));
    assert!(matches!(t.status, Status::Waiting));
    assert!(t.job.is_none());
    assert_eq!(v.iters_image.rgb.len(), 768 * 1280 * 3);
    assert!(v.iters_image.rgb.iter().all(|&b| b == 255));
    assert!(v.iters_image.take_texture_refresh());
    assert!(!v.iters_image.take_texture_refresh());
}

#[test]
fn idle_dirty_viewer_dispatches_latest_snapshot_once() {
    let mut v = rendered_viewer();
    v.fp.sfparam.max_iter = 500;
    let t = v.tick(None);
    let job = t.job.unwrap();
    assert_eq!(job.params.sfparam.max_iter, 500);
    assert!(v.old_fp == v.fp);
    let t = v.tick(Some(JobOutcome::Rendered(vec![1; FULL])));
    assert!(t.job.is_none());
    assert_eq!(v.old_fp.sfparam.max_iter, 500);
    assert!(v.old_fp == job.params);
}

#[test]
fn edit_during_job_is_dispatched_on_completion() {
    let mut v = rendered_viewer();
    v.fp.sfparam.max_iter = 500;
    assert!(v.tick(None).job.is_some());
    v.fp.sfparam.max_iter = 600;
    let t = v.tick(Some(JobOutcome::Rendered(vec![1; FULL])));
    assert_eq!(t.job.unwrap().params.sfparam.max_iter, 600);
    assert_eq!(v.iters_image.rgb, vec![1; FULL]);
}

#[test]
fn clean_idle_viewer_waits() {
    let mut v = rendered_viewer();
    let t = v.tick(None);
    assert!(matches!(t.status, Status::Waiting));
    assert!(t.job.is_none());
}

#[test]
fn running_job_blocks_further_dispatch() {
    let mut v = FractalViewer::new();
    assert!(v.tick(None).job.is_some());
    for i in 0..5 {
        v.fp.sfparam.max_iter = 200 + i;
        let t = v.tick(None);
        assert!(t.job.is_none());
        assert!(matches!(t.status, Status::Busy));
        assert!(v.job_outstanding);
    }
}

#[test]
fn edits_while_busy_coalesce_into_one_job() {
    let mut v = FractalViewer::new();
    assert!(v.tick(None).job.is_some());
    let mut dispatched = 0;
    for i in 1..=10 {
        v.fp.sfparam.max_iter = 100 + i;
        if v.tick(None).job.is_some() {
            dispatched += 1;
        }
    }
    assert_eq!(dispatched, 0);
    let t = v.tick(Some(JobOutcome::Rendered(vec![0; FULL])));
    assert_eq!(t.job.unwrap().params.sfparam.max_iter, 110);
    v.tick(Some(JobOutcome::Rendered(vec![0; FULL])));
    let t = v.tick(None);
    assert!(t.job.is_none());
    assert!(matches!(t.status, Status::Waiting));
}

#[test]
fn recompile_while_busy_is_rejected_and_image_kept() {
    let mut v = rendered_viewer();
    v.fp.sfparam.max_iter = 300;
    assert!(v.tick(None).job.is_some());
    let before = v.iters_image.rgb.clone();
    assert!(v.begin_recompile().is_none());
    assert!(matches!(v.error, Some(RecompileError::Busy)));
    assert_eq!(v.iters_image.rgb, before);
    assert_eq!(v.iters_image.mat_dims, (768, 1280));
    assert!(v.job_outstanding);
}

#[test]
fn identical_snapshots_dispatch_identical_jobs() {
    let mut v = FractalViewer::new();
    let first = v.tick(None).job.unwrap();
    v.tick(Some(JobOutcome::Rendered(vec![0; FULL])));
    let req = v.begin_recompile().unwrap();
    v.finish_recompile(req, RecompileOutcome::Built);
    let second = v.tick(None).job.unwrap();
    assert!(first.params == second.params);
    assert_eq!(first.dims, second.dims);
    let view = BBox::default();
    let a = plan_kernels(&first.params.vis_type, first.params.sfparam.get_c_struct(view), None);
    let b = plan_kernels(&second.params.vis_type, second.params.sfparam.get_c_struct(view), None);
    assert_eq!(a, b);
}

#[test]
fn visualisation_round_trip_restores_the_same_job() {
    let mut v = FractalViewer::new();
    let first = v.tick(None).job.unwrap();
    v.tick(Some(JobOutcome::Rendered(vec![0; FULL])));
    v.fp.vis_type = tri();
    let second = v.tick(None).job.unwrap();
    assert!(second.params != first.params);
    v.tick(Some(JobOutcome::Rendered(vec![0; FULL])));
    v.fp.vis_type = FractalVisualisationType::default();
    let third = v.tick(None).job.unwrap();
    assert!(third.params == first.params);
    let view = BBox::default();
    let a = plan_kernels(&first.params.vis_type, first.params.sfparam.get_c_struct(view), None);
    let c = plan_kernels(&third.params.vis_type, third.params.sfparam.get_c_struct(view), None);
    assert_eq!(a, c);
}

#[test]
fn round_trip_before_any_tick_needs_no_job() {
    let mut v = rendered_viewer();
    v.fp.vis_type = tri();
    v.fp.vis_type = FractalVisualisationType::default();
    let t = v.tick(None);
    assert!(t.job.is_none());
}

#[test]
fn resize_rebuild_uses_new_dimensions() {
    let mut v = rendered_viewer();
    v.size_selection = (400, 600);
    let req = v.begin_recompile().unwrap();
    assert_eq!(req.dims, (400, 600));
    assert_eq!(req.code, DEFAULT_ITER_FUNC);
    v.finish_recompile(req, RecompileOutcome::Built);
    assert_eq!(v.iters_image.mat_dims, (400, 600));
    assert!(v.iters_image.rgb.is_empty());
    assert!(v.error.is_none());
    assert_eq!(v.old_fp.sfparam.max_iter, 0);
    let job = v.tick(None).job.unwrap();
    assert_eq!(job.dims, (400, 600));
    assert_eq!(rgb_buffer_len(job.dims), Some(400 * 600 * 3));
    // a raster of the old size is refused
    let t = v.tick(Some(JobOutcome::Rendered(vec![0; FULL])));
    assert!(v.iters_image.rgb.is_empty());
    assert!(matches!(t.status, Status::Error(JobError::RasterSize { got }) if got == FULL));
}

#[test]
fn failed_build_keeps_context_and_reports() {
    let mut v = rendered_viewer();
    v.size_selection = (10, 10);
    let req = v.begin_recompile().unwrap();
    v.finish_recompile(req, RecompileOutcome::BuildFailed("syntax error".to_string()));
    assert!(matches!(&v.error, Some(RecompileError::Build(m)) if m == "syntax error"));
    assert_eq!(v.iters_image.mat_dims, (768, 1280));
    assert_eq!(v.iters_image.rgb.len(), FULL);
    assert!(v.tick(None).job.is_none());
}

#[test]
fn locked_context_on_recompile_reports_busy() {
    let mut v = rendered_viewer();
    let req = v.begin_recompile().unwrap();
    v.finish_recompile(req, RecompileOutcome::LockBusy);
    assert!(matches!(v.error, Some(RecompileError::Busy)));
    assert_eq!(v.iters_image.mat_dims, (768, 1280));
}

#[test]
fn busy_job_is_retried_on_next_tick() {
    let mut v = FractalViewer::new();
    let first = v.tick(None).job.unwrap();
    let t = v.tick(Some(JobOutcome::Busy));
    let again = t.job.unwrap();
    assert!(again.params == first.params);
    assert!(v.job_outstanding);
    assert!(!v.retry);
}

#[test]
fn kernel_failure_is_reported_and_image_kept() {
    let mut v = rendered_viewer();
    v.fp.sfparam.max_iter = 42;
    assert!(v.tick(None).job.is_some());
    let t = v.tick(Some(JobOutcome::Failed("enqueue failed".to_string())));
    assert!(matches!(&t.status, Status::Error(JobError::Kernel(m)) if m == "enqueue failed"));
    assert!(t.job.is_none());
    assert!(v.iters_image.rgb.iter().all(|&b| b == 7));
}

#[test]
fn finished_outcome_ignored_while_idle() {
    let mut v = rendered_viewer();
    let t = v.tick(Some(JobOutcome::Rendered(vec![9; FULL])));
    assert!(t.job.is_none());
    assert!(v.iters_image.rgb.iter().all(|&b| b == 7));
}

#[test]
fn image_update_checks_raster_length() {
    let mut img = ItersImage::new((2, 3));
    assert!(img.take_texture_refresh());
    assert!(!img.update(vec![0; 17]));
    assert!(img.rgb.is_empty());
    assert!(!img.take_texture_refresh());
    assert!(img.update(vec![5; 18]));
    assert_eq!(img.rgb, vec![5; 18]);
    assert!(img.take_texture_refresh());
}

#[test]
fn raster_length_overflow_is_none() {
    assert_eq!(rgb_buffer_len((0, 1280)), Some(0));
    assert_eq!(rgb_buffer_len((usize::MAX, 2)), None);
    assert_eq!(rgb_buffer_len((usize::MAX / 2, 1)), None);
}

#[test]
fn default_shared_params_have_positive_iterations() {
    assert!(SFParamUI::default().max_iter > 0);
}

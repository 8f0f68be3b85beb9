use canvas_shell::pipeline::{AcquireOutcome, AcquireStep, FramePipeline, FrameStage};

#[test]
fn lost_surface_retries_once_then_completes() {
    // The surface is lost once; the pipeline asks for a resize to the last
    // known size and a retry; the retry succeeds and the frame completes
    // through Presented.
    let mut p = FramePipeline::new(1000, 600);
    let step = p.on_acquire(AcquireOutcome::Lost);
    assert_eq!(step, AcquireStep::RetryAfterResize { width: 1000, height: 600 });
    assert_eq!(p.stage, FrameStage::Idle);
    let step2 = p.on_acquire(AcquireOutcome::Acquired);
    assert_eq!(step2, AcquireStep::Proceed);
    assert_eq!(p.stage, FrameStage::TargetAcquired);
    assert!(p.vector_pass());
    assert_eq!(p.stage, FrameStage::VectorDrawn);
    assert!(!p.overlay_pass());
    assert_eq!(p.stage, FrameStage::OverlayDrawn);
    p.present();
    assert_eq!(p.stage, FrameStage::Presented);
    p.finish_frame();
    assert_eq!(p.stage, FrameStage::Idle);
    assert!(!p.retried);
}

#[test]
fn second_consecutive_loss_is_fatal() {
    let mut p = FramePipeline::new(320, 240);
    assert_eq!(
        p.on_acquire(AcquireOutcome::Lost),
        AcquireStep::RetryAfterResize { width: 320, height: 240 }
    );
    assert_eq!(p.on_acquire(AcquireOutcome::Lost), AcquireStep::Fatal);
}

#[test]
fn recovery_uses_the_last_recorded_size() {
    let mut p = FramePipeline::new(100, 100);
    p.record_size(640, 480);
    assert_eq!(
        p.on_acquire(AcquireOutcome::Lost),
        AcquireStep::RetryAfterResize { width: 640, height: 480 }
    );
}

#[test]
fn a_successful_acquire_resets_the_retry_budget() {
    let mut p = FramePipeline::new(100, 100);
    assert_eq!(
        p.on_acquire(AcquireOutcome::Lost),
        AcquireStep::RetryAfterResize { width: 100, height: 100 }
    );
    assert_eq!(p.on_acquire(AcquireOutcome::Acquired), AcquireStep::Proceed);
    p.vector_pass();
    p.overlay_pass();
    p.present();
    p.finish_frame();
    // a loss in the next frame is again answered with one retry
    assert_eq!(
        p.on_acquire(AcquireOutcome::Lost),
        AcquireStep::RetryAfterResize { width: 100, height: 100 }
    );
}

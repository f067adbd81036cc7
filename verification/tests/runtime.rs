//! Frame pacing, the timing report, the frame state machine, and the
//! swapchain and queue policies.

use voxel_render::benchmark::ActiveTimeline;
use voxel_render::framerate::Framerate;
use voxel_render::queue::{QueueDesc, QueueType, Queues};
use voxel_render::scheduler::{
    classify_acquire, classify_present, AcquireOutcome, DrawError, FrameScheduler, FrameState,
    PresentOutcome, SubmitOutcome,
};
use voxel_render::pipeline::{
    pipeline_config, render_pass_config, BlendFactorKind, Culling, LoadOp, StoreOp, Topology,
    Winding, FORMAT_D32_SFLOAT,
};
use voxel_render::swapchain::{choose_format, choose_present_mode, min_image_count, SwapchainManager};

const PERIOD: u64 = 1_000_000_000 / 60;

#[test]
fn pacer_not_due_right_after_refresh() {
    let mut fr = Framerate::new(Some(60), 0);
    // One period in, a frame is due; after refreshing it no longer is,
    // and it becomes due again one period later.
    assert!(fr.should_render(PERIOD));
    fr.refresh(PERIOD);
    assert!(!fr.should_render(PERIOD));
    assert!(fr.should_render(PERIOD + PERIOD));
}

#[test]
fn pacer_unpaced_always_due() {
    let fr = Framerate::new(None, 0);
    assert!(fr.should_render(0));
    assert!(fr.should_render(1));
}

#[test]
fn pacer_fps_counts_window() {
    let mut fr = Framerate::new(Some(60), 0);
    for n in 0..10u64 {
        fr.refresh(n * PERIOD);
    }
    // All ten stamps lie within one second.
    assert_eq!(fr.fps(), 10);
    // Two seconds later the stamps have aged out but the new one stays.
    fr.refresh(3_000_000_000);
    assert_eq!(fr.fps(), 1);
}

#[test]
fn print_test() {
    let mut now: u64 = 0;
    let mut tick = || {
        now += 1_000;
        now
    };
    let mut timeline = ActiveTimeline::new();
    timeline.begin("Event Handling", tick());
    {
        timeline.begin("Window", tick());
        {
            timeline.begin("Movement", tick());
            timeline.end(tick());
            timeline.begin("Cursor", tick());
            timeline.end(tick());
        }
        timeline.end(tick());
        timeline.begin("Custom", tick());
        {
            timeline.begin("Physics", tick());
            let mut k = 0;
            for _ in 0..1_000_000 {
                k += 1;
            }
            assert_eq!(k, 1_000_000);
            timeline.end(tick());
        }
        timeline.end(tick());
    }
    timeline.end(tick());
    timeline.begin("Rendering", tick());
    {
        timeline.begin("Swapchain", tick());
        timeline.end(tick());
        timeline.begin("Render Pass", tick());
        timeline.end(tick());
        timeline.begin("Pipeline", tick());
        timeline.end(tick());
        timeline.begin("Commands", tick());
        timeline.end(tick());
    }
    timeline.end(tick());

    for line in timeline.complete().unwrap().print() {
        println!("{}", line);
    }
}

#[test]
fn timeline_parses_structure() {
    let mut timeline = ActiveTimeline::new();
    timeline.begin("outer", 10);
    timeline.begin("inner", 20);
    timeline.end(30);
    timeline.end(50);
    timeline.begin("second", 60);
    timeline.end(100);
    let t = timeline.complete().unwrap();
    assert_eq!(t.total.name, "Total");
    assert_eq!(t.total.duration, 90);
    assert_eq!(t.total.sub.len(), 2);
    assert_eq!(t.total.sub[0].name, "outer");
    assert_eq!(t.total.sub[0].duration, 40);
    assert_eq!(t.total.sub[0].sub.len(), 1);
    assert_eq!(t.total.sub[0].sub[0].name, "inner");
    assert_eq!(t.total.sub[0].sub[0].duration, 10);
    assert_eq!(t.total.sub[1].name, "second");
    assert_eq!(t.total.sub[1].duration, 40);
    assert!(t.total.sub[1].sub.is_empty());
}

#[test]
fn timeline_rejects_unbalanced() {
    let mut open_only = ActiveTimeline::new();
    open_only.begin("never closed", 1);
    assert!(open_only.complete().is_err());

    let mut surplus = ActiveTimeline::new();
    surplus.begin("a", 1);
    surplus.end(2);
    surplus.end(3);
    assert!(surplus.complete().is_err());
}

#[test]
fn acquire_classification() {
    assert_eq!(classify_acquire(AcquireOutcome::Ready { image_index: 2 }), Ok(2));
    assert_eq!(
        classify_acquire(AcquireOutcome::Suboptimal { image_index: 2 }),
        Err(DrawError::RecreationRequired)
    );
    assert_eq!(classify_acquire(AcquireOutcome::OutOfDate), Err(DrawError::RecreationRequired));
    assert_eq!(classify_acquire(AcquireOutcome::OtherError), Err(DrawError::AcquisitionFailed));
}

#[test]
fn present_classification() {
    assert_eq!(classify_present(PresentOutcome::Completed), Ok(()));
    assert_eq!(classify_present(PresentOutcome::OutOfDate), Err(DrawError::RecreationRequired));
    assert_eq!(classify_present(PresentOutcome::OtherError), Err(DrawError::ExecutionFailed));
}

#[test]
fn frame_cycle_happy_path() {
    let mut s = FrameScheduler::new();
    assert_eq!(s.state(), FrameState::Idle);
    assert_eq!(s.acquire(AcquireOutcome::Ready { image_index: 1 }), Ok(1));
    assert_eq!(s.state(), FrameState::Recording { image_index: 1 });
    assert_eq!(s.submit(SubmitOutcome::Enqueued), Ok(()));
    assert_eq!(s.state(), FrameState::Submitted { image_index: 1 });
    assert_eq!(s.present(PresentOutcome::Completed), Ok(()));
    assert_eq!(s.state(), FrameState::Idle);
}

#[test]
fn frame_cycle_stale_surface() {
    let mut s = FrameScheduler::new();
    assert_eq!(s.acquire(AcquireOutcome::OutOfDate), Err(DrawError::RecreationRequired));
    assert_eq!(s.state(), FrameState::RecreatePending);
    s.mark_rebuilt();
    assert_eq!(s.state(), FrameState::Idle);
    // A resize forces the rebuild state from anywhere.
    assert_eq!(s.acquire(AcquireOutcome::Ready { image_index: 0 }), Ok(0));
    s.notify_resize();
    assert_eq!(s.state(), FrameState::RecreatePending);
}

#[test]
fn swapchain_recreate_same_extent_is_noop() {
    let mut sc = SwapchainManager::create(800, 600);
    assert_eq!(sc.generation, 0);
    assert!(sc.recreate(1024, 768));
    assert_eq!(sc.generation, 1);
    let before = sc;
    // The second call with the same extent rebuilds nothing: the
    // framebuffer generation is unchanged.
    assert!(!sc.recreate(1024, 768));
    assert_eq!(sc, before);
    assert_eq!(sc.generation, 1);
}

#[test]
fn swapchain_policies() {
    let formats = vec![(44, 0), (50, 1), (50, 0), (50, 0)];
    // The first pair matching the required format and color space wins.
    assert_eq!(choose_format(&formats), Some(2));
    assert_eq!(choose_format(&vec![(44, 0)]), None);

    let preferences = vec![7u32, 2, 1];
    let supported = vec![1u32, 2];
    assert_eq!(choose_present_mode(&preferences, &supported), Some(2));
    assert_eq!(choose_present_mode(&preferences, &vec![9u32]), None);

    assert_eq!(min_image_count(1), 3);
    assert_eq!(min_image_count(2), 3);
    assert_eq!(min_image_count(5), 6);
}

#[test]
fn queue_selection_fallbacks() {
    let gp = QueueDesc { graphics: true, compute: true, transfer: true, present: true };
    let g = QueueDesc { graphics: true, compute: true, transfer: true, present: false };
    let c = QueueDesc { graphics: false, compute: true, transfer: true, present: false };
    let t = QueueDesc { graphics: false, compute: false, transfer: true, present: false };

    let q = Queues::new(vec![g, gp, c, t]);
    assert_eq!(q.get(QueueType::Graphics), Ok(0));
    assert_eq!(q.get(QueueType::GraphicsPresent), Ok(1));
    assert_eq!(q.get(QueueType::Compute), Ok(2));
    assert_eq!(q.get(QueueType::Transfer), Ok(3));

    // Without dedicated queues everything falls back to graphics.
    let q2 = Queues::new(vec![g]);
    assert_eq!(q2.get(QueueType::Compute), Ok(0));
    assert_eq!(q2.get(QueueType::Transfer), Ok(0));
    assert!(q2.get(QueueType::GraphicsPresent).is_err());

    let q3 = Queues::new(vec![]);
    assert!(q3.get(QueueType::Graphics).is_err());
    assert!(q3.get(QueueType::Transfer).is_err());
}

#[test]
fn pipeline_config_is_fixed() {
    let c = pipeline_config(1200, 800, true);
    assert_eq!(c.topology, Topology::TriangleList);
    assert_eq!(c.cull_mode, Culling::Back);
    assert_eq!(c.front_face, Winding::CounterClockwise);
    assert_eq!((c.viewport_width, c.viewport_height), (1200, 800));
    // Standard non-premultiplied alpha blending.
    assert_eq!(c.blend.src_color, BlendFactorKind::SrcAlpha);
    assert_eq!(c.blend.dst_color, BlendFactorKind::OneMinusSrcAlpha);
    assert_eq!(c.blend.src_alpha, BlendFactorKind::One);
    assert_eq!(c.blend.dst_alpha, BlendFactorKind::OneMinusSrcAlpha);
    assert!(c.depth_test);
    assert!(!pipeline_config(1, 1, false).depth_test);
}

#[test]
fn render_pass_config_attachments() {
    let with_depth = render_pass_config(50, true);
    assert_eq!(with_depth.color.format, 50);
    assert_eq!(with_depth.color.load_op, LoadOp::Clear);
    assert_eq!(with_depth.color.store_op, StoreOp::Store);
    let depth = with_depth.depth.unwrap();
    assert_eq!(depth.format, FORMAT_D32_SFLOAT);
    assert_eq!(depth.store_op, StoreOp::Discard);
    assert!(render_pass_config(50, false).depth.is_none());
}

use terrain_render::context::{
    configure_surface, AcquireOutcome, AlphaMode, FrameAction, FramePacer, GraphicsSystem, PresentMode,
    SurfaceConfig,
};

#[test]
fn context_for_800_by_600_target_presents_one_frame() {
    let mut g = GraphicsSystem::new(&vec![23, 7, 9], 800, 600);
    let c = g.config();
    assert_eq!((c.width, c.height), (800, 600));
    assert_eq!(c.format, 23);
    assert_eq!(c.present_mode, PresentMode::Fifo);
    assert!(c.render_attachment);
    assert_eq!(g.begin_frame(AcquireOutcome::Ready), FrameAction::Draw(0));
    assert!(g.end_frame(0));
    assert_eq!(g.begin_frame(AcquireOutcome::Ready), FrameAction::Draw(1));
    assert!(g.end_frame(1));
}

#[test]
fn no_reported_format_gives_no_context() {
    assert_eq!(configure_surface(&vec![], 1, 1), None);
}

#[test]
fn surface_configuration_takes_first_format() {
    assert_eq!(
        configure_surface(&vec![5, 6], 640, 480),
        Some(SurfaceConfig {
            render_attachment: true,
            format: 5,
            width: 640,
            height: 480,
            present_mode: PresentMode::Fifo,
            alpha_mode: AlphaMode::Auto,
        })
    );
}

#[test]
fn frames_are_presented_once_and_in_order() {
    let mut p = FramePacer::new();
    assert_eq!(p.acquire(), Some(0));
    assert_eq!(p.acquire(), None);
    assert!(!p.present(1));
    assert!(p.present(0));
    assert!(!p.present(0));
    assert_eq!(p.pending_frame(), None);
    assert_eq!(p.acquire(), Some(1));
    assert_eq!(p.pending_frame(), Some(1));
    assert!(p.present(1));
}

#[test]
fn outdated_or_lost_surface_asks_for_reconfiguration() {
    let mut g = GraphicsSystem::new(&vec![1], 800, 600);
    let resized = g.resize(1024, 768);
    assert_eq!((resized.width, resized.height), (1024, 768));
    assert_eq!(g.begin_frame(AcquireOutcome::Outdated), FrameAction::Reconfigure(resized));
    assert_eq!(g.begin_frame(AcquireOutcome::Lost), FrameAction::Reconfigure(resized));
    assert_eq!(g.begin_frame(AcquireOutcome::Ready), FrameAction::Draw(0));
}

#[test]
fn out_of_memory_is_fatal_and_timeout_skips() {
    let mut g = GraphicsSystem::new(&vec![1], 8, 8);
    assert_eq!(g.begin_frame(AcquireOutcome::OutOfMemory), FrameAction::Fatal);
    assert_eq!(g.begin_frame(AcquireOutcome::Timeout), FrameAction::Skip);
    assert_eq!(g.begin_frame(AcquireOutcome::Ready), FrameAction::Draw(0));
    assert_eq!(g.begin_frame(AcquireOutcome::Ready), FrameAction::Skip);
    assert!(!g.end_frame(1));
    assert!(g.end_frame(0));
}

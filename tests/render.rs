use rust_graphics::render::{
    FrameAction, FrameLifecycle, FrameState, SurfaceError, SurfaceSize, WindowEvent,
};

fn size(width: u32, height: u32) -> SurfaceSize {
    SurfaceSize::new(width, height)
}

fn attachments_match(lc: &FrameLifecycle) -> bool {
    lc.config_size() == lc.size() && lc.render_textures().depth_size == lc.size()
}

#[test]
fn new_lifecycle_is_configured_at_its_size() {
    let lc = FrameLifecycle::new(size(800, 600));
    assert_eq!(lc.state(), FrameState::Configured);
    assert_eq!(lc.size(), size(800, 600));
    assert!(attachments_match(&lc));
}

#[test]
fn new_lifecycle_of_zero_size_is_one_pixel() {
    let lc = FrameLifecycle::new(size(0, 0));
    assert_eq!(lc.size(), size(1, 1));
    assert!(attachments_match(&lc));
}

#[test]
fn resize_to_zero_is_clamped_to_one_pixel() {
    let mut lc = FrameLifecycle::new(size(800, 600));
    let action = lc.resize(size(0, 0));
    assert_eq!(action, FrameAction::Reconfigure(size(1, 1)));
    assert_eq!(lc.size(), size(1, 1));
    let s = lc.size();
    let aspect = s.width as f32 / s.height as f32;
    assert_eq!(aspect, 1.0);
    assert!(attachments_match(&lc));
}

#[test]
fn resize_sequence_ends_at_the_last_size() {
    let mut lc = FrameLifecycle::new(size(800, 600));
    assert_eq!(lc.resize(size(800, 600)), FrameAction::Reconfigure(size(800, 600)));
    assert!(attachments_match(&lc));
    assert_eq!(lc.resize(size(0, 5)), FrameAction::Reconfigure(size(1, 5)));
    assert!(attachments_match(&lc));
    assert_eq!(lc.resize(size(1024, 768)), FrameAction::Reconfigure(size(1024, 768)));
    assert!(attachments_match(&lc));
    let s = lc.size();
    assert_eq!(s.width as f32 / s.height as f32, 1024.0 / 768.0);
}

#[test]
fn resize_to_the_same_size_reconfigures_again() {
    let mut lc = FrameLifecycle::new(size(640, 480));
    assert_eq!(lc.resize(size(640, 480)), FrameAction::Reconfigure(size(640, 480)));
    assert_eq!(lc.size(), size(640, 480));
    assert_eq!(lc.state(), FrameState::Configured);
}

#[test]
fn redraw_then_present_leaves_ready() {
    let mut lc = FrameLifecycle::new(size(800, 600));
    assert_eq!(lc.handle_event(WindowEvent::RedrawRequested), FrameAction::Render);
    assert_eq!(lc.state(), FrameState::Rendering);
    assert_eq!(lc.finish_frame(Ok(())), FrameAction::Wait);
    assert_eq!(lc.state(), FrameState::Ready);
    assert_eq!(lc.request_redraw(), FrameAction::Render);
}

#[test]
fn redraw_during_a_frame_waits() {
    let mut lc = FrameLifecycle::new(size(800, 600));
    assert_eq!(lc.request_redraw(), FrameAction::Render);
    assert_eq!(lc.request_redraw(), FrameAction::Wait);
    assert_eq!(lc.state(), FrameState::Rendering);
}

#[test]
fn lost_surface_asks_for_reconfiguration_at_current_size() {
    let mut lc = FrameLifecycle::new(size(800, 600));
    lc.request_redraw();
    assert_eq!(lc.finish_frame(Err(SurfaceError::Lost)), FrameAction::Reconfigure(size(800, 600)));
    assert_eq!(lc.state(), FrameState::Lost);
    assert_eq!(lc.request_redraw(), FrameAction::Reconfigure(size(800, 600)));
    assert_eq!(lc.resize(size(800, 600)), FrameAction::Reconfigure(size(800, 600)));
    assert_eq!(lc.state(), FrameState::Configured);
    assert_eq!(lc.request_redraw(), FrameAction::Render);
}

#[test]
fn out_of_memory_ends_the_loop() {
    let mut lc = FrameLifecycle::new(size(800, 600));
    lc.request_redraw();
    assert_eq!(lc.finish_frame(Err(SurfaceError::OutOfMemory)), FrameAction::Exit);
    assert_eq!(lc.state(), FrameState::Closed);
    assert_eq!(lc.request_redraw(), FrameAction::Wait);
}

#[test]
fn other_surface_errors_drop_the_frame() {
    let mut lc = FrameLifecycle::new(size(800, 600));
    lc.request_redraw();
    assert_eq!(lc.finish_frame(Err(SurfaceError::Timeout)), FrameAction::DropFrame);
    assert_eq!(lc.state(), FrameState::Ready);
    lc.request_redraw();
    assert_eq!(lc.finish_frame(Err(SurfaceError::Outdated)), FrameAction::DropFrame);
    assert_eq!(lc.request_redraw(), FrameAction::Render);
}

#[test]
fn close_request_exits_and_stays_closed() {
    let mut lc = FrameLifecycle::new(size(800, 600));
    assert_eq!(lc.handle_event(WindowEvent::CloseRequested), FrameAction::Exit);
    assert_eq!(lc.state(), FrameState::Closed);
    assert_eq!(lc.handle_event(WindowEvent::Resized(size(0, 0))), FrameAction::Wait);
    assert_eq!(lc.state(), FrameState::Closed);
    assert_eq!(lc.size(), size(1, 1));
    assert!(attachments_match(&lc));
    assert_eq!(lc.finish_frame(Ok(())), FrameAction::Exit);
}

#[test]
fn resized_event_clamps_each_dimension() {
    let mut lc = FrameLifecycle::new(size(800, 600));
    assert_eq!(lc.handle_event(WindowEvent::Resized(size(300, 0))), FrameAction::Reconfigure(size(300, 1)));
    assert_eq!(lc.size(), size(300, 1));
    assert_eq!(size(0, 7).clamped(), size(1, 7));
    assert_eq!(size(u32::MAX, 2).clamped(), size(u32::MAX, 2));
}

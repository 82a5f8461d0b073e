//! Unit exercises of the viewport's parts: frame buffer, timing history,
//! surface context, command batching and surface-creation planning.

use viewport::command::{plan_batch, BatchPlan, ViewportCommand};
use viewport::config::{ViewportConfig, ViewportError};
use viewport::frame_buffer::FrameBuffer;
use viewport::surface::{
    plan_surface_creation, select_graphics_queue_family, SurfaceContext, SurfaceCreationPlan,
};
use viewport::timing::FrameTiming;

fn config(width: u32, height: u32) -> ViewportConfig {
    ViewportConfig { x: 0, y: 0, width, height, device_pixel_ratio_milli: 1000 }
}

#[test]
fn frame_buffer_holds_four_bytes_per_pixel() {
    let fb = FrameBuffer::new(800, 600);
    assert_eq!(fb.width(), 800);
    assert_eq!(fb.height(), 600);
    assert_eq!(fb.len(), 1_920_000);
    assert_eq!(fb.byte_at(0), 0);
    assert_eq!(fb.byte_at(1_919_999), 0);
}

#[test]
fn frame_buffer_fill_overwrites_every_byte() {
    let mut fb = FrameBuffer::new(4, 3);
    fb.fill(7);
    let bytes = fb.to_bytes();
    assert_eq!(bytes.len(), 4 * 3 * 4);
    assert!(bytes.iter().all(|b| *b == 7));
}

#[test]
fn frame_buffer_reallocate_replaces_wholesale() {
    let mut fb = FrameBuffer::new(4, 3);
    fb.fill(9);
    fb.reallocate(2, 5);
    assert_eq!(fb.width(), 2);
    assert_eq!(fb.height(), 5);
    assert_eq!(fb.len(), 2 * 5 * 4);
    assert!(fb.to_bytes().iter().all(|b| *b == 0));
}

#[test]
fn validate_accepts_and_rejects_exactly() {
    assert!(config(1, 1).validate().is_ok());
    assert!(config(16384, 16384).validate().is_ok());
    assert_eq!(config(0, 5).validate(), Err(ViewportError::InvalidDimensions));
    assert_eq!(config(5, 0).validate(), Err(ViewportError::InvalidDimensions));
    assert_eq!(config(16385, 5).validate(), Err(ViewportError::InvalidDimensions));
    let zero_ratio = ViewportConfig { x: 0, y: 0, width: 5, height: 5, device_pixel_ratio_milli: 0 };
    assert_eq!(zero_ratio.validate(), Err(ViewportError::InvalidDimensions));
}

#[test]
fn error_messages_exist() {
    assert!(!ViewportError::InvalidDimensions.message().is_empty());
    assert!(!ViewportError::ChannelClosed.message().is_empty());
}

#[test]
fn timing_history_evicts_oldest_at_capacity() {
    let mut timing = FrameTiming::new();
    for v in 0..130u64 {
        timing.record(v);
    }
    assert_eq!(timing.sample_count(), 120);
    // Samples 10..130 remain: their mean is 69.5, truncated to 69.
    assert_eq!(timing.average_micros(), 69);
}

#[test]
fn timing_average_and_fps_are_exact() {
    let mut timing = FrameTiming::new();
    assert_eq!(timing.average_micros(), 0);
    assert_eq!(timing.fps_milli(), 0);
    timing.record(10);
    timing.record(20);
    assert_eq!(timing.average_micros(), 15);
    assert_eq!(timing.fps_milli(), 1_000_000_000 / 15);
    let mut steady = FrameTiming::new();
    steady.record(16_666);
    assert_eq!(steady.fps_milli(), 60_002);
}

#[test]
fn resize_to_active_extent_is_a_no_op() {
    let plan = SurfaceCreationPlan { queue_family_index: 1, width: 800, height: 600, image_count: 2 };
    let mut surface = SurfaceContext::create(&plan);
    assert_eq!(surface.generation(), 1);
    let recreated = surface.resize(800, 600);
    assert!(!recreated);
    assert_eq!(surface.generation(), 1);
    let recreated = surface.resize(1024, 768);
    assert!(recreated);
    assert_eq!(surface.generation(), 2);
    let recreated = surface.resize(1024, 768);
    assert!(!recreated);
    assert_eq!(surface.generation(), 2);
}

#[test]
fn teardown_is_idempotent() {
    let plan = SurfaceCreationPlan { queue_family_index: 0, width: 64, height: 64, image_count: 2 };
    let mut surface = SurfaceContext::create(&plan);
    assert!(!surface.is_torn_down());
    surface.teardown();
    assert!(surface.is_torn_down());
    surface.teardown();
    assert!(surface.is_torn_down());
    assert_eq!(surface.generation(), 1);
    assert_eq!(surface.width(), 64);
}

#[test]
fn batch_plan_keeps_the_last_config_before_shutdown() {
    let batch = vec![
        ViewportCommand::UpdateConfig(config(100, 100)),
        ViewportCommand::ResetCamera,
        ViewportCommand::UpdateConfig(config(200, 50)),
        ViewportCommand::Shutdown,
        ViewportCommand::UpdateConfig(config(300, 300)),
    ];
    let plan = plan_batch(&batch);
    assert_eq!(
        plan,
        BatchPlan { config: Some(config(200, 50)), reset_camera: true, shutdown: true }
    );
}

#[test]
fn batch_plan_of_nothing_does_nothing() {
    let plan = plan_batch(&Vec::new());
    assert_eq!(plan, BatchPlan { config: None, reset_camera: false, shutdown: false });
}

#[test]
fn first_graphics_queue_family_is_selected() {
    let flags = vec![0u32, 2, 1, 1];
    assert_eq!(select_graphics_queue_family(&flags), Some(2));
    let none = vec![0u32, 2, 4];
    assert_eq!(select_graphics_queue_family(&none), None);
    assert_eq!(select_graphics_queue_family(&Vec::new()), None);
}

#[test]
fn surface_creation_plan_reports_each_failure() {
    let no_graphics = vec![0u32, 4];
    assert_eq!(
        plan_surface_creation(&no_graphics, 3, 2, 800, 600),
        Err(ViewportError::DeviceUnavailable)
    );
    let graphics = vec![0u32, 1];
    assert_eq!(
        plan_surface_creation(&graphics, 0, 2, 800, 600),
        Err(ViewportError::SwapchainCreationFailed)
    );
    assert_eq!(
        plan_surface_creation(&graphics, 3, 0, 800, 600),
        Err(ViewportError::SwapchainCreationFailed)
    );
    assert_eq!(
        plan_surface_creation(&graphics, 3, 2, 0, 600),
        Err(ViewportError::SwapchainCreationFailed)
    );
    let plan = plan_surface_creation(&graphics, 3, 2, 800, 600).unwrap();
    assert_eq!(
        plan,
        SurfaceCreationPlan { queue_family_index: 1, width: 800, height: 600, image_count: 2 }
    );
}

//! End-to-end exercises of the viewport state, its command channel and
//! its render loop schedule, driven the way the hosting thread drives
//! them.

use viewport::command::ViewportCommand;
use viewport::config::{ViewportConfig, ViewportError};
use viewport::render_loop::LoopPhase;
use viewport::state::{ViewportState, VulkanHandle, WindowSystem};
use viewport::surface::{SurfaceContext, SurfaceCreationPlan};

fn config(width: u32, height: u32) -> ViewportConfig {
    ViewportConfig { x: 0, y: 0, width, height, device_pixel_ratio_milli: 1000 }
}

fn surface_for(width: u32, height: u32) -> SurfaceContext {
    let plan = SurfaceCreationPlan { queue_family_index: 0, width, height, image_count: 2 };
    SurfaceContext::create(&plan)
}

#[test]
fn initialize_reports_exact_buffer_size() {
    let mut state = ViewportState::new();
    let status = state.initialize(config(640, 480), surface_for(640, 480)).unwrap();
    assert_eq!(status.width, 640);
    assert_eq!(status.height, 480);
    assert_eq!(status.buffer_size, 640 * 480 * 4);
    assert_eq!(status.device_pixel_ratio_milli, 1000);
    assert!(status.rendering);
    let again = state.get_status();
    assert_eq!(again.buffer_size, 640 * 480 * 4);
}

#[test]
fn initialize_rejects_zero_width() {
    let mut state = ViewportState::new();
    let r = state.initialize(config(0, 600), surface_for(800, 600));
    assert_eq!(r, Err(ViewportError::InvalidDimensions));
    assert!(!state.get_status().rendering);
    assert!(matches!(state.render_phase(), LoopPhase::Starting));
}

#[test]
fn initialize_rejects_zero_height() {
    let mut state = ViewportState::new();
    let r = state.initialize(config(800, 0), surface_for(800, 600));
    assert_eq!(r, Err(ViewportError::InvalidDimensions));
    assert!(!state.get_status().rendering);
}

#[test]
fn successive_updates_converge_to_the_last() {
    let mut state = ViewportState::new();
    state.initialize(config(800, 600), surface_for(800, 600)).unwrap();
    state.update_config(config(320, 200)).unwrap();
    state.update_config(config(1024, 768)).unwrap();
    let report = state.tick(1_000);
    assert_eq!(report.applied, Some(config(1024, 768)));
    let status = state.get_status();
    assert_eq!(status.width, 1024);
    assert_eq!(status.height, 768);
    assert_eq!(status.buffer_size, 3_145_728);
}

#[test]
fn scenario_resize_then_shutdown() {
    let mut state = ViewportState::new();
    let status = state.initialize(config(800, 600), surface_for(800, 600)).unwrap();
    assert_eq!(status.buffer_size, 1_920_000);

    state.update_config(config(1024, 768)).unwrap();
    let report = state.tick(2_000);
    assert!(report.presented);
    let status = state.get_status();
    assert_eq!(status.width, 1024);
    assert_eq!(status.buffer_size, 3_145_728);

    state.shutdown().unwrap();
    let report = state.tick(2_000);
    assert!(report.tore_down);
    assert!(!report.presented);
    let status = state.get_status();
    assert!(!status.rendering);
    assert_eq!(status.buffer_size, 3_145_728);

    // No further frames, no further reallocations.
    let frames = state.frames_presented();
    let report = state.tick(2_000);
    assert!(!report.presented);
    assert_eq!(report.applied, None);
    assert_eq!(state.frames_presented(), frames);
    assert_eq!(state.get_status().buffer_size, 3_145_728);
}

#[test]
fn shutdown_is_idempotent() {
    let mut state = ViewportState::new();
    state.initialize(config(800, 600), surface_for(800, 600)).unwrap();
    state.shutdown().unwrap();
    state.shutdown().unwrap();
    state.tick(1_000);
    assert!(matches!(state.render_phase(), LoopPhase::Stopped));
    let report = state.tick(1_000);
    assert!(!report.presented);
    assert!(!report.tore_down);
}

#[test]
fn cleared_running_flag_stops_the_loop() {
    let mut state = ViewportState::new();
    state.initialize(config(800, 600), surface_for(800, 600)).unwrap();
    state.set_running(false);
    let report = state.tick(500);
    assert!(report.tore_down);
    assert!(matches!(state.render_phase(), LoopPhase::Stopped));
    assert!(!state.get_status().rendering);
}

#[test]
fn status_never_mixes_dimensions_and_buffer_size() {
    let mut state = ViewportState::new();
    state.initialize(config(800, 600), surface_for(800, 600)).unwrap();
    let dims = [(123u32, 45u32), (1024, 768), (2, 2), (333, 999)];
    for (w, h) in dims {
        let before = state.get_status();
        assert_eq!(before.buffer_size, u64::from(before.width) * u64::from(before.height) * 4);
        state.update_config(config(w, h)).unwrap();
        let between = state.get_status();
        assert_eq!(between.buffer_size, u64::from(between.width) * u64::from(between.height) * 4);
        state.tick(1_000);
        let after = state.get_status();
        assert_eq!(after.width, w);
        assert_eq!(after.buffer_size, u64::from(w) * u64::from(h) * 4);
    }
}

#[test]
fn update_config_rejects_invalid_dimensions() {
    let state = ViewportState::new();
    assert_eq!(state.update_config(config(0, 10)), Err(ViewportError::InvalidDimensions));
    assert_eq!(state.update_config(config(10, 0)), Err(ViewportError::InvalidDimensions));
    let too_wide = ViewportConfig { x: 0, y: 0, width: 20_000, height: 10, device_pixel_ratio_milli: 1000 };
    assert_eq!(state.update_config(too_wide), Err(ViewportError::InvalidDimensions));
    let zero_ratio = ViewportConfig { x: 0, y: 0, width: 10, height: 10, device_pixel_ratio_milli: 0 };
    assert_eq!(state.update_config(zero_ratio), Err(ViewportError::InvalidDimensions));
}

#[test]
fn invalid_command_slipped_past_validation_is_ignored() {
    let mut state = ViewportState::new();
    state.initialize(config(800, 600), surface_for(800, 600)).unwrap();
    let bad = ViewportConfig { x: 0, y: 0, width: 0, height: 0, device_pixel_ratio_milli: 1000 };
    state.send_command(ViewportCommand::UpdateConfig(bad)).unwrap();
    let report = state.tick(1_000);
    assert_eq!(report.applied, None);
    let status = state.get_status();
    assert_eq!(status.width, 800);
    assert_eq!(status.buffer_size, 1_920_000);
}

#[test]
fn full_channel_reports_backpressure() {
    let state = ViewportState::new();
    for _ in 0..10 {
        state.reset_camera().unwrap();
    }
    assert_eq!(state.reset_camera(), Err(ViewportError::ChannelFull));
}

#[test]
fn commands_cross_the_channel_in_order() {
    let state = ViewportState::new();
    state.send_command(ViewportCommand::UpdateConfig(config(11, 12))).unwrap();
    state.send_command(ViewportCommand::ResetCamera).unwrap();
    state.send_command(ViewportCommand::Shutdown).unwrap();
    let receiver = state.command_receiver();
    let batch = viewport::channel::drain_commands(&receiver, 10);
    assert_eq!(
        batch,
        vec![
            ViewportCommand::UpdateConfig(config(11, 12)),
            ViewportCommand::ResetCamera,
            ViewportCommand::Shutdown,
        ]
    );
}

#[test]
fn reset_camera_is_reported_by_the_tick() {
    let mut state = ViewportState::new();
    state.initialize(config(800, 600), surface_for(800, 600)).unwrap();
    state.reset_camera().unwrap();
    let report = state.tick(1_000);
    assert!(report.camera_reset);
    let report = state.tick(1_000);
    assert!(!report.camera_reset);
}

#[test]
fn tick_paces_to_the_frame_budget() {
    let mut state = ViewportState::new();
    state.initialize(config(800, 600), surface_for(800, 600)).unwrap();
    let report = state.tick(1_000);
    assert_eq!(report.sleep_micros, 16_666 - 1_000);
    let report = state.tick(50_000);
    assert_eq!(report.sleep_micros, 0);
}

#[test]
fn frame_data_matches_status() {
    let mut state = ViewportState::new();
    state.initialize(config(16, 8), surface_for(16, 8)).unwrap();
    let (bytes, status) = state.get_frame_data();
    assert_eq!(bytes.len() as u64, status.buffer_size);
    assert_eq!(bytes.len(), 16 * 8 * 4);
    assert!(bytes.iter().all(|b| *b == 0));
}

#[test]
fn vulkan_handle_accepts_known_window_systems() {
    let handle = VulkanHandle::new(WindowSystem::Win32, 42).unwrap();
    assert_eq!(handle.system, WindowSystem::Win32);
    assert_eq!(handle.window, 42);
    assert!(handle.is_active);
    assert!(VulkanHandle::new(WindowSystem::Xlib, 7).is_ok());
    assert!(VulkanHandle::new(WindowSystem::AppKit, 7).is_ok());
}

#[test]
fn vulkan_handle_rejects_unknown_window_systems() {
    assert_eq!(
        VulkanHandle::new(WindowSystem::Other, 42),
        Err(ViewportError::UnsupportedWindowSystem)
    );
}

#[test]
fn stored_vulkan_handle_is_returned() {
    let mut state = ViewportState::new();
    assert!(state.vulkan_handle().is_none());
    let handle = VulkanHandle::new(WindowSystem::Xlib, 99).unwrap();
    state.set_vulkan_handle(handle);
    assert_eq!(state.vulkan_handle(), Some(handle));
}

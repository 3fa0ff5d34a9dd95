use renderer::sync_info::{SyncInfo, STAGE_COLOR_ATTACHMENT_OUTPUT};
use renderer::camera::AxisMovement;
use renderer::features::{
    AccelerationStructureFeatures, Features, RayTracingPipelineFeatures, V10Features,
    V11Features, V12Features, V13Features,
};
use renderer::renderer_state::{Pass, PresentStep, RendererState};
use renderer::sync_state::{SyncState, MAX_FRAMES_IN_FLIGHT};
use renderer::Error;

fn sync() -> SyncState {
    SyncState::new([1, 2], [3, 4], [5, 6])
}

#[test]
fn sync_state_cycles_through_frames_in_flight() {
    let mut s = sync();
    assert_eq!(MAX_FRAMES_IN_FLIGHT, 2);
    assert_eq!(s.current_frame, 0);
    assert_eq!((s.frame_available_semaphore(), s.frame_ready_semaphore(), s.in_flight_fence()), (1, 3, 5));
    s.advance();
    assert_eq!(s.current_frame, 1);
    assert_eq!((s.frame_available_semaphore(), s.frame_ready_semaphore(), s.in_flight_fence()), (2, 4, 6));
    s.advance();
    assert_eq!(s.current_frame, 0);
    assert_eq!(s.frame_available_semaphore(), 1);
}

#[test]
fn renderer_starts_path_tracing_at_frame_zero() {
    let r = RendererState::new(sync());
    assert!(r.use_pathtracer);
    assert_eq!(r.pass(), Pass::Pathtracer { frame: 0 });
}

#[test]
fn finished_frames_accumulate() {
    let mut r = RendererState::new(sync());
    assert_eq!(r.finish_frame(false), Ok(()));
    assert_eq!(r.finish_frame(false), Ok(()));
    assert_eq!(r.frame, 2);
    assert_eq!(r.state.current_frame, 0);
    assert_eq!(r.pass(), Pass::Pathtracer { frame: 2 });
}

#[test]
fn stale_swapchain_is_reported_after_counting_the_frame() {
    let mut r = RendererState::new(sync());
    assert_eq!(r.finish_frame(true), Err(Error::NeedsRecreating));
    assert_eq!(r.frame, 1);
    assert_eq!(r.state.current_frame, 1);
}

#[test]
fn toggling_switches_pass_and_restarts_accumulation() {
    let mut r = RendererState::new(sync());
    r.finish_frame(false).unwrap();
    r.toggle_renderer();
    assert_eq!(r.pass(), Pass::Rasterizer);
    assert_eq!(r.frame, 0);
    r.toggle_renderer();
    assert_eq!(r.pass(), Pass::Pathtracer { frame: 0 });
}

#[test]
fn camera_update_restarts_accumulation() {
    let mut r = RendererState::new(sync());
    r.finish_frame(false).unwrap();
    r.finish_frame(false).unwrap();
    r.update_camera();
    assert_eq!(r.frame, 0);
    assert!(r.use_pathtracer);
}

#[test]
fn axis_movement_from_keys() {
    assert_eq!(AxisMovement::new(true, false), AxisMovement::Forward);
    assert_eq!(AxisMovement::new(false, true), AxisMovement::Backward);
    assert_eq!(AxisMovement::new(true, true), AxisMovement::Stationary);
    assert_eq!(AxisMovement::new(false, false), AxisMovement::Stationary);
    assert!(AxisMovement::new(true, false).has_some());
    assert!(AxisMovement::new(false, true).has_some());
    assert!(!AxisMovement::new(true, true).has_some());
}

fn features(all: u32, except_ray_tracing: bool) -> Features {
    Features {
        v_1_0: V10Features::from_flags(all, all),
        v_1_1: V11Features::from_flags(all, all),
        v_1_2: V12Features::from_flags(all, all, all, all, all, all, all),
        v_1_3: V13Features::from_flags(all, all),
        acceleration_structure: AccelerationStructureFeatures::from_flags(all),
        ray_tracing_pipeline: RayTracingPipelineFeatures::from_flags(if except_ray_tracing {
            0
        } else {
            all
        }),
    }
}

#[test]
fn features_supported_when_every_flag_is_set() {
    assert!(features(1, false).supports_requirements());
    assert!(!features(0, false).supports_requirements());
    assert!(!features(1, true).supports_requirements());
}

#[test]
fn any_nonzero_flag_counts_as_set() {
    assert!(V10Features::from_flags(7, 1).supports_requirements());
    assert!(!V10Features::from_flags(1, 0).supports_requirements());
    assert!(!V11Features::from_flags(0, 1).supports_requirements());
    assert!(!V12Features::from_flags(1, 1, 1, 1, 1, 1, 0).supports_requirements());
    assert!(!V13Features::from_flags(1, 0).supports_requirements());
    assert!(!AccelerationStructureFeatures::from_flags(0).supports_requirements());
    assert!(RayTracingPipelineFeatures::from_flags(u32::MAX).supports_requirements());
}

#[test]
fn present_sync_uses_the_current_frame_objects() {
    let mut r = RendererState::new(sync());
    let info = r.present_sync_info();
    assert_eq!((info.wait_on, info.signal_to, info.fence), (vec![1], vec![3], Some(5)));
    r.finish_frame(false).unwrap();
    let info = r.present_sync_info();
    assert_eq!((info.wait_on, info.signal_to, info.fence), (vec![2], vec![4], Some(6)));
}

#[test]
fn submit_plan_waits_at_colour_output_and_idles_without_fence() {

    let plan = SyncInfo::none().submit_plan();
    assert!(plan.wait_semaphores.is_empty() && plan.wait_stages.is_empty());
    assert!(plan.signal_semaphores.is_empty());
    assert_eq!(plan.fence, None);
    assert!(plan.wait_idle);

    let info = SyncInfo { wait_on: vec![7], signal_to: vec![8, 9], fence: Some(10) };
    let plan = info.submit_plan();
    assert_eq!(plan.wait_semaphores, vec![7]);
    assert_eq!(plan.wait_stages, vec![STAGE_COLOR_ATTACHMENT_OUTPUT]);
    assert_eq!(plan.signal_semaphores, vec![8, 9]);
    assert_eq!(plan.fence, Some(10));
    assert!(!plan.wait_idle);
    assert_eq!(
        STAGE_COLOR_ATTACHMENT_OUTPUT,
        ash::vk::PipelineStageFlags::COLOR_ATTACHMENT_OUTPUT.as_raw()
    );
}

#[test]
fn stale_image_skips_the_present_step() {
    let r = RendererState::new(sync());
    assert!(matches!(r.present_step(true), PresentStep::Skip));
    match r.present_step(false) {
        PresentStep::Present { fence, sync_info, ready } => {
            assert_eq!((fence, ready), (5, 3));
            assert_eq!((sync_info.wait_on, sync_info.signal_to, sync_info.fence), (vec![1], vec![3], Some(5)));
        }
        PresentStep::Skip => panic!("a fresh image is presented"),
    }
}

#[test]
fn skipped_frame_still_advances_and_asks_for_recreation() {
    let mut r = RendererState::new(sync());
    assert!(matches!(r.present_step(true), PresentStep::Skip));
    assert_eq!(r.finish_frame(true), Err(Error::NeedsRecreating));
    assert_eq!(r.frame, 1);
    assert_eq!(r.state.current_frame, 1);
    match r.present_step(false) {
        PresentStep::Present { fence, ready, .. } => assert_eq!((fence, ready), (6, 4)),
        PresentStep::Skip => panic!("a fresh image is presented"),
    }
}

#[test]
fn required_features_pass_their_checks() {
    assert!(V10Features::required().supports_requirements());
    assert!(V11Features::required().supports_requirements());
    assert!(V12Features::required().supports_requirements());
    assert!(V13Features::required().supports_requirements());
    assert!(AccelerationStructureFeatures::required().supports_requirements());
    assert!(RayTracingPipelineFeatures::required().supports_requirements());
    assert!(Features::required().supports_requirements());
    let v10 = V10Features::required();
    assert!(v10.sampler_anisotropy && v10.shader_int64);
    let rt = Features::required().ray_tracing_pipeline;
    assert!(rt.ray_tracing_pipeline);
}

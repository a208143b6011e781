use ash::vk;
use industria::renderer::pipeline::Pipeline;
use industria::renderer::resource::{DeviceError, Resource, ERROR_OUT_OF_DATE};
use industria::renderer::shader::VoxelShader;
use industria::renderer::swapchain::{Extent2D, SurfaceFormat, Swapchain, SwapchainProperties};
use industria::renderer::vkcontext::{QueueFamilyIndices, VkContext};
use industria::renderer::{
    FrameAction, FrameEvent, FramePhase, FrameScheduler, Renderer, SyncObject,
    FENCE_CREATE_SIGNALED, MAX_FRAMES_IN_FLIGHT, NO_TIMEOUT,
};

fn slot(number: u64) -> SyncObject {
    SyncObject {
        image_available_semaphore: 10 * number + 1,
        queue_complete_semaphore: 10 * number + 2,
        in_flight_fence: 10 * number + 3,
    }
}

fn properties() -> SwapchainProperties {
    SwapchainProperties {
        format: SurfaceFormat { format: 44, color_space: 0 },
        present_mode: 2,
        extent: Extent2D { width: 800, height: 600 },
    }
}

fn chain(handle: u64, image_count: u64) -> Swapchain {
    Swapchain::new(
        handle,
        (0..image_count).map(|image| 100 + image).collect(),
        (0..image_count).map(|image| 200 + image).collect(),
        properties(),
    )
    .unwrap()
}

fn context() -> VkContext {
    VkContext {
        queue_family_indices: QueueFamilyIndices { graphics_index: 0, present_index: 0 },
        physical_device: 90,
        surface_khr: 91,
        debug_report_callback: Some(92),
    }
}

fn voxel_shader() -> VoxelShader {
    VoxelShader::new(vec![300, 301, 302], 31, 32, 33, 34, Pipeline { handle: 35, layout: 36 })
}

fn renderer() -> Renderer {
    Renderer::new(context(), chain(7, 3), 50, vec![slot(0), slot(1)], voxel_shader()).unwrap()
}

/// Drives a frame up to the point where the device has been asked for an image.
fn up_to_acquire(renderer: &mut Renderer) {
    assert!(matches!(renderer.begin_frame(), FrameAction::WaitForFence { .. }));
    assert!(matches!(renderer.advance(FrameEvent::FenceSignaled), FrameAction::ResetFence { .. }));
    assert!(matches!(renderer.advance(FrameEvent::FenceReset), FrameAction::AcquireImage { .. }));
}

#[test]
fn constants_are_those_of_the_device_interface() {
    assert_eq!(MAX_FRAMES_IN_FLIGHT, 2);
    assert_eq!(NO_TIMEOUT, u64::MAX);
    assert_eq!(FENCE_CREATE_SIGNALED, vk::FenceCreateFlags::SIGNALED.as_raw());
}

#[test]
fn two_slots_take_turns_whatever_the_number_of_calls() {
    let mut scheduler = FrameScheduler::new(vec![slot(0), slot(1)]).unwrap();
    assert_eq!(scheduler.frames_in_flight(), 2);
    for call in 0..1001u64 {
        assert_eq!(scheduler.next_slot(), slot(call % 2));
    }
}

#[test]
fn after_an_even_number_of_calls_the_first_slot_is_next() {
    for pairs in 0..20u64 {
        let mut scheduler = FrameScheduler::new(vec![slot(0), slot(1)]).unwrap();
        for _ in 0..2 * pairs {
            scheduler.next_slot();
        }
        assert_eq!(scheduler.next_slot(), slot(0));
    }
}

#[test]
fn a_ring_of_any_size_is_walked_in_order() {
    let mut scheduler = FrameScheduler::new(vec![slot(0), slot(1), slot(2)]).unwrap();
    for call in 0..10u64 {
        assert_eq!(scheduler.next_slot(), slot(call % 3));
    }
    let mut single = FrameScheduler::new(vec![slot(4)]).unwrap();
    assert_eq!(single.next_slot(), slot(4));
    assert_eq!(single.next_slot(), slot(4));
}

#[test]
fn a_scheduler_needs_a_slot() {
    assert!(FrameScheduler::new(Vec::new()).is_none());
}

#[test]
fn slots_are_destroyed_semaphores_first() {
    assert_eq!(
        slot(1).destroy(),
        vec![Resource::Semaphore(11), Resource::Semaphore(12), Resource::Fence(13)]
    );
    let scheduler = FrameScheduler::new(vec![slot(0), slot(1)]).unwrap();
    assert_eq!(
        scheduler.destroy(),
        vec![
            Resource::Semaphore(1),
            Resource::Semaphore(2),
            Resource::Fence(3),
            Resource::Semaphore(11),
            Resource::Semaphore(12),
            Resource::Fence(13),
        ]
    );
}

#[test]
fn a_renderer_needs_exactly_two_slots_and_a_complete_chain() {
    assert!(Renderer::new(context(), chain(7, 3), 50, vec![slot(0)], voxel_shader()).is_none());
    assert!(Renderer::new(context(), chain(7, 3), 50, vec![slot(0), slot(1), slot(2)], voxel_shader()).is_none());
    assert!(Renderer::new(context(), chain(7, 3), 50, Vec::new(), voxel_shader()).is_none());
    let mut incomplete = chain(7, 3);
    incomplete.image_views.pop();
    assert!(Renderer::new(context(), incomplete, 50, vec![slot(0), slot(1)], voxel_shader()).is_none());
    let made = renderer();
    assert_eq!(made.phase(), FramePhase::Idle);
    assert_eq!(*made.swapchain(), chain(7, 3));
    assert_eq!(*made.vk_context(), context());
    assert_eq!(made.command_pool(), 50);
    assert_eq!(made.voxel_shader().instance_set_count(), 3);
}

#[test]
fn a_frame_runs_wait_reset_acquire_record_submit_present() {
    let mut renderer = renderer();
    assert_eq!(renderer.begin_frame(), FrameAction::WaitForFence { fence: 3, timeout: u64::MAX });
    assert_eq!(renderer.phase(), FramePhase::AwaitingFence { slot: slot(0) });
    assert_eq!(renderer.advance(FrameEvent::FenceSignaled), FrameAction::ResetFence { fence: 3 });
    assert_eq!(
        renderer.advance(FrameEvent::FenceReset),
        FrameAction::AcquireImage { swapchain: 7, semaphore: 1, timeout: u64::MAX }
    );
    assert_eq!(
        renderer.advance(FrameEvent::ImageAcquired(Ok((2, false)))),
        FrameAction::Record { image_index: 2 }
    );
    assert_eq!(renderer.phase(), FramePhase::Recording { slot: slot(0), image_index: 2 });
    assert_eq!(
        renderer.end_frame(),
        FrameAction::Submit { wait_semaphore: 1, signal_semaphore: 2, fence: 3 }
    );
    assert_eq!(
        renderer.advance(FrameEvent::Submitted),
        FrameAction::Present { swapchain: 7, wait_semaphore: 2, image_index: 2 }
    );
    assert_eq!(renderer.advance(FrameEvent::Presented(Ok(false))), FrameAction::Finished);
    assert_eq!(renderer.phase(), FramePhase::Idle);
    assert!(!renderer.swapchain().out_of_date);

    assert_eq!(renderer.begin_frame(), FrameAction::WaitForFence { fence: 13, timeout: u64::MAX });
    assert_eq!(renderer.advance(FrameEvent::FenceSignaled), FrameAction::ResetFence { fence: 13 });
    assert_eq!(
        renderer.advance(FrameEvent::FenceReset),
        FrameAction::AcquireImage { swapchain: 7, semaphore: 11, timeout: u64::MAX }
    );
    assert_eq!(
        renderer.advance(FrameEvent::ImageAcquired(Ok((0, true)))),
        FrameAction::Record { image_index: 0 }
    );
    assert_eq!(
        renderer.end_frame(),
        FrameAction::Submit { wait_semaphore: 11, signal_semaphore: 12, fence: 13 }
    );
    assert_eq!(
        renderer.advance(FrameEvent::Submitted),
        FrameAction::Present { swapchain: 7, wait_semaphore: 12, image_index: 0 }
    );
    assert_eq!(renderer.advance(FrameEvent::Presented(Ok(true))), FrameAction::Finished);

    assert_eq!(renderer.begin_frame(), FrameAction::WaitForFence { fence: 3, timeout: u64::MAX });
}

#[test]
fn an_out_of_date_acquire_abandons_the_frame_and_recreation_rebuilds_the_views() {
    let mut renderer = renderer();
    up_to_acquire(&mut renderer);
    let out_of_date = vk::Result::ERROR_OUT_OF_DATE_KHR.as_raw();
    assert_eq!(
        renderer.advance(FrameEvent::ImageAcquired(Err(out_of_date))),
        FrameAction::RecreateSwapchain
    );
    assert!(renderer.swapchain().out_of_date);
    assert_eq!(renderer.phase(), FramePhase::Idle);

    assert_eq!(renderer.end_frame(), FrameAction::Rejected);
    assert_eq!(renderer.advance(FrameEvent::Submitted), FrameAction::Rejected);
    assert_eq!(renderer.advance(FrameEvent::Presented(Ok(false))), FrameAction::Rejected);
    assert_eq!(renderer.phase(), FramePhase::Idle);

    assert_eq!(
        renderer.swapchain().destroy(),
        vec![
            Resource::ImageView(200),
            Resource::ImageView(201),
            Resource::ImageView(202),
            Resource::Swapchain(7),
        ]
    );
    let images: Vec<u64> = vec![500, 501, 502, 503];
    let infos = Swapchain::image_view_infos(&images, 44);
    assert_eq!(infos.len(), 4);
    let views: Vec<u64> = infos.iter().map(|info| info.image + 100).collect();
    let recreated = Swapchain::new(8, images, views, properties()).unwrap();
    assert!(renderer.recreate_swapchain(recreated));
    assert!(!renderer.swapchain().out_of_date);
    assert_eq!(renderer.swapchain().handle, 8);
    assert_eq!(renderer.swapchain().images.len(), 4);
    assert_eq!(renderer.swapchain().image_views, vec![600, 601, 602, 603]);

    assert_eq!(renderer.begin_frame(), FrameAction::WaitForFence { fence: 13, timeout: u64::MAX });
    assert_eq!(renderer.advance(FrameEvent::FenceSignaled), FrameAction::ResetFence { fence: 13 });
    assert_eq!(
        renderer.advance(FrameEvent::FenceReset),
        FrameAction::AcquireImage { swapchain: 8, semaphore: 11, timeout: u64::MAX }
    );
}

#[test]
fn an_out_of_date_present_asks_for_recreation_too() {
    let mut renderer = renderer();
    up_to_acquire(&mut renderer);
    renderer.advance(FrameEvent::ImageAcquired(Ok((1, false))));
    renderer.end_frame();
    renderer.advance(FrameEvent::Submitted);
    assert_eq!(
        renderer.advance(FrameEvent::Presented(Err(ERROR_OUT_OF_DATE))),
        FrameAction::RecreateSwapchain
    );
    assert!(renderer.swapchain().out_of_date);
    assert_eq!(renderer.phase(), FramePhase::Idle);
}

#[test]
fn other_device_failures_are_fatal() {
    let lost = vk::Result::ERROR_DEVICE_LOST.as_raw();
    let mut renderer = renderer();
    up_to_acquire(&mut renderer);
    assert_eq!(
        renderer.advance(FrameEvent::ImageAcquired(Err(lost))),
        FrameAction::Fail { error: DeviceError { code: lost } }
    );
    assert!(!renderer.swapchain().out_of_date);

    let mut renderer = self::renderer();
    up_to_acquire(&mut renderer);
    renderer.advance(FrameEvent::ImageAcquired(Ok((1, false))));
    renderer.end_frame();
    renderer.advance(FrameEvent::Submitted);
    assert_eq!(
        renderer.advance(FrameEvent::Presented(Err(lost))),
        FrameAction::Fail { error: DeviceError { code: lost } }
    );
    assert!(!renderer.swapchain().out_of_date);
}

#[test]
fn what_does_not_fit_the_phase_is_rejected_and_changes_nothing() {
    let mut renderer = renderer();
    assert_eq!(renderer.advance(FrameEvent::FenceSignaled), FrameAction::Rejected);
    assert_eq!(renderer.advance(FrameEvent::ImageAcquired(Err(ERROR_OUT_OF_DATE))), FrameAction::Rejected);
    assert!(!renderer.swapchain().out_of_date);
    assert_eq!(renderer.end_frame(), FrameAction::Rejected);
    assert_eq!(renderer.phase(), FramePhase::Idle);

    renderer.begin_frame();
    assert_eq!(renderer.begin_frame(), FrameAction::Rejected);
    assert_eq!(renderer.advance(FrameEvent::FenceReset), FrameAction::Rejected);
    assert_eq!(renderer.advance(FrameEvent::Submitted), FrameAction::Rejected);
    assert_eq!(renderer.phase(), FramePhase::AwaitingFence { slot: slot(0) });
    assert!(!renderer.recreate_swapchain(chain(8, 2)));
    assert_eq!(renderer.swapchain().handle, 7);

    renderer.advance(FrameEvent::FenceSignaled);
    renderer.advance(FrameEvent::FenceReset);
    renderer.advance(FrameEvent::ImageAcquired(Ok((0, false))));
    assert_eq!(renderer.advance(FrameEvent::Submitted), FrameAction::Rejected);
    assert_eq!(renderer.advance(FrameEvent::Presented(Err(ERROR_OUT_OF_DATE))), FrameAction::Rejected);
    assert!(!renderer.swapchain().out_of_date);
    assert_eq!(renderer.phase(), FramePhase::Recording { slot: slot(0), image_index: 0 });
}

#[test]
fn an_incomplete_chain_is_not_taken_on() {
    let mut renderer = renderer();
    let mut incomplete = chain(8, 4);
    incomplete.image_views.pop();
    assert!(!renderer.recreate_swapchain(incomplete));
    assert_eq!(*renderer.swapchain(), chain(7, 3));
    assert!(renderer.recreate_swapchain(chain(8, 4)));
    assert_eq!(*renderer.swapchain(), chain(8, 4));
}

#[test]
fn the_renderer_is_torn_down_from_the_leaves_to_the_context() {
    let mut renderer = renderer();
    assert_eq!(
        renderer.destroy(),
        vec![
            Resource::Pipeline(35),
            Resource::PipelineLayout(36),
            Resource::DescriptorPool(33),
            Resource::DescriptorPool(34),
            Resource::DescriptorSetLayout(31),
            Resource::DescriptorSetLayout(32),
            Resource::Semaphore(1),
            Resource::Semaphore(2),
            Resource::Fence(3),
            Resource::Semaphore(11),
            Resource::Semaphore(12),
            Resource::Fence(13),
            Resource::CommandPool(50),
            Resource::ImageView(200),
            Resource::ImageView(201),
            Resource::ImageView(202),
            Resource::Swapchain(7),
            Resource::Device,
            Resource::Surface(91),
            Resource::DebugMessenger(92),
            Resource::Instance,
        ]
    );
    assert_eq!(renderer.vk_context().debug_report_callback, None);
}

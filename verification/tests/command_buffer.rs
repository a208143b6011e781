use ash::vk;
use industria::renderer::command_buffer::{
    Command, CommandBuffer, CommandBufferAllocateInfo, CommandBufferLevel, USAGE_ONE_TIME_SUBMIT,
    USAGE_RENDER_PASS_CONTINUE, USAGE_SIMULTANEOUS_USE,
};
use industria::renderer::pipeline::{ComputePipelineCreateInfo, Pipeline, NULL_HANDLE, SHADER_STAGE_COMPUTE};
use industria::renderer::resource::Resource;

#[test]
fn usage_bits_are_those_of_the_device_interface() {
    assert_eq!(USAGE_ONE_TIME_SUBMIT, vk::CommandBufferUsageFlags::ONE_TIME_SUBMIT.as_raw());
    assert_eq!(USAGE_RENDER_PASS_CONTINUE, vk::CommandBufferUsageFlags::RENDER_PASS_CONTINUE.as_raw());
    assert_eq!(USAGE_SIMULTANEOUS_USE, vk::CommandBufferUsageFlags::SIMULTANEOUS_USE.as_raw());
}

#[test]
fn begin_composes_the_three_usage_bits_independently() {
    let unit = CommandBuffer { handle: 42 };
    for choice in 0..8u32 {
        let single = choice & 1 != 0;
        let render_pass = choice & 2 != 0;
        let simultaneous = choice & 4 != 0;
        let mut expected = vk::CommandBufferUsageFlags::default();
        if single {
            expected |= vk::CommandBufferUsageFlags::ONE_TIME_SUBMIT;
        }
        if render_pass {
            expected |= vk::CommandBufferUsageFlags::RENDER_PASS_CONTINUE;
        }
        if simultaneous {
            expected |= vk::CommandBufferUsageFlags::SIMULTANEOUS_USE;
        }
        assert_eq!(
            unit.begin(single, render_pass, simultaneous),
            Command::Begin { command_buffer: 42, flags: expected.as_raw() }
        );
    }
    assert_eq!(unit.begin(false, false, false), Command::Begin { command_buffer: 42, flags: 0 });
    assert_eq!(unit.begin(true, false, true), Command::Begin { command_buffer: 42, flags: 5 });
    assert_eq!(unit.begin(true, true, true), Command::Begin { command_buffer: 42, flags: 7 });
}

#[test]
fn end_closes_the_unit() {
    assert_eq!(CommandBuffer { handle: 42 }.end(), Command::End { command_buffer: 42 });
}

#[test]
fn a_single_use_submit_ends_first_and_signals_nothing() {
    assert_eq!(
        CommandBuffer { handle: 42 }.end_and_submit_single_use(9),
        vec![
            Command::End { command_buffer: 42 },
            Command::Submit { queue: 9, command_buffer: 42, fence: NULL_HANDLE },
        ]
    );
    assert_eq!(NULL_HANDLE, 0);
}

#[test]
fn one_buffer_is_allocated_at_the_chosen_level() {
    assert_eq!(
        CommandBuffer::allocate_info(3, true),
        CommandBufferAllocateInfo { command_pool: 3, level: CommandBufferLevel::Primary, command_buffer_count: 1 }
    );
    assert_eq!(
        CommandBuffer::allocate_info(3, false),
        CommandBufferAllocateInfo { command_pool: 3, level: CommandBufferLevel::Secondary, command_buffer_count: 1 }
    );
    assert_eq!(CommandBuffer::new(&[8, 9]), CommandBuffer { handle: 8 });
}

#[test]
fn a_buffer_goes_back_to_its_pool() {
    let mut unit = CommandBuffer { handle: 42 };
    assert_eq!(unit.destroy(3), Resource::CommandBuffer { pool: 3, handle: 42 });
    assert_eq!(unit, CommandBuffer { handle: 42 });
}

#[test]
fn one_pipeline_is_built_without_a_cache() {
    assert_eq!(
        Pipeline::compute_create_info(4, 6),
        ComputePipelineCreateInfo { module: 4, stage: SHADER_STAGE_COMPUTE, layout: 6, pipeline_cache: 0 }
    );
    assert_eq!(Pipeline::new_compute(6, &[5]), Pipeline { handle: 5, layout: 6 });
    assert_eq!(Pipeline::new_compute(6, &[5, 50]), Pipeline { handle: 5, layout: 6 });
}

#[test]
fn a_pipeline_is_destroyed_before_its_layout() {
    assert_eq!(
        Pipeline { handle: 5, layout: 6 }.destroy(),
        vec![Resource::Pipeline(5), Resource::PipelineLayout(6)]
    );
}

use ash::vk;
use industria::renderer::pipeline::{Pipeline, PIPELINE_BIND_POINT_COMPUTE, SHADER_STAGE_COMPUTE};
use industria::renderer::resource::Resource;
use industria::renderer::shader::{
    read_shader, AllocationError, DescriptorPoolSize, DescriptorSetLayoutBinding, ShaderError,
    ShaderStage, VoxelShader, VoxelShaderInstance, DESCRIPTOR_TYPE_STORAGE_BUFFER,
    DESCRIPTOR_TYPE_STORAGE_IMAGE, DESCRIPTOR_TYPE_UNIFORM_BUFFER, MAX_INSTANCE_COUNT,
    SPIRV_MAGIC,
};

fn shader(image_count: u64) -> VoxelShader {
    VoxelShader::new(
        (0..image_count).map(|image| 100 + image).collect(),
        1,
        2,
        3,
        4,
        Pipeline { handle: 5, layout: 6 },
    )
}

fn sets(instance: u64, image_count: u64) -> Vec<u64> {
    (0..image_count).map(|image| 1000 * (instance + 1) + image).collect()
}

fn binding(binding: u32, descriptor_type: i32) -> DescriptorSetLayoutBinding {
    DescriptorSetLayoutBinding {
        binding,
        descriptor_type,
        descriptor_count: 1,
        stage_flags: SHADER_STAGE_COMPUTE,
    }
}

#[test]
fn descriptor_codes_are_those_of_the_device_interface() {
    assert_eq!(DESCRIPTOR_TYPE_STORAGE_IMAGE, vk::DescriptorType::STORAGE_IMAGE.as_raw());
    assert_eq!(DESCRIPTOR_TYPE_UNIFORM_BUFFER, vk::DescriptorType::UNIFORM_BUFFER.as_raw());
    assert_eq!(DESCRIPTOR_TYPE_STORAGE_BUFFER, vk::DescriptorType::STORAGE_BUFFER.as_raw());
    assert_eq!(SHADER_STAGE_COMPUTE, vk::ShaderStageFlags::COMPUTE.as_raw());
    assert_eq!(PIPELINE_BIND_POINT_COMPUTE, vk::PipelineBindPoint::COMPUTE.as_raw());
}

#[test]
fn the_binding_layout_is_the_fixed_table() {
    assert_eq!(
        VoxelShader::global_set_layout_bindings(),
        vec![binding(0, DESCRIPTOR_TYPE_STORAGE_IMAGE), binding(1, DESCRIPTOR_TYPE_UNIFORM_BUFFER)]
    );
    assert_eq!(
        VoxelShader::instance_set_layout_bindings(),
        vec![binding(0, DESCRIPTOR_TYPE_STORAGE_BUFFER), binding(1, DESCRIPTOR_TYPE_STORAGE_BUFFER)]
    );
    assert_eq!(VoxelShader::pipeline_set_layouts(8, 9), vec![8, 9]);
}

#[test]
fn the_global_pool_holds_one_set_per_image() {
    let info = VoxelShader::global_descriptor_pool_info(3);
    assert_eq!(info.max_sets, 3);
    assert_eq!(
        info.pool_sizes,
        vec![
            DescriptorPoolSize { ty: DESCRIPTOR_TYPE_STORAGE_IMAGE, descriptor_count: 3 },
            DescriptorPoolSize { ty: DESCRIPTOR_TYPE_UNIFORM_BUFFER, descriptor_count: 3 },
        ]
    );
}

#[test]
fn the_instance_pool_holds_the_bound_times_the_image_count() {
    let info = VoxelShader::instance_descriptor_pool_info(3);
    assert_eq!(MAX_INSTANCE_COUNT, 1000);
    assert_eq!(info.max_sets, 3000);
    assert_eq!(
        info.pool_sizes,
        vec![DescriptorPoolSize { ty: DESCRIPTOR_TYPE_STORAGE_BUFFER, descriptor_count: 6 }]
    );
    let none = VoxelShader::instance_descriptor_pool_info(0);
    assert_eq!(none.max_sets, 0);
    let most = VoxelShader::instance_descriptor_pool_info(u32::MAX / 1000);
    assert_eq!(most.max_sets, 4_294_967_000);
    assert_eq!(most.pool_sizes[0].descriptor_count, 8_589_934);
}

#[test]
fn sets_are_allocated_one_per_image() {
    let info = VoxelShader::global_set_allocate_info(3, 1, 4);
    assert_eq!(info.descriptor_pool, 3);
    assert_eq!(info.set_layouts, vec![1, 1, 1, 1]);
    let registry = shader(3);
    assert_eq!(registry.instance_set_count(), 3);
    let info = registry.instance_set_allocate_info().unwrap();
    assert_eq!(info.descriptor_pool, 4);
    assert_eq!(info.set_layouts, vec![2, 2, 2]);
}

#[test]
fn the_registry_fills_up_to_its_bound_and_then_refuses() {
    let mut registry = shader(2);
    let mut handles: Vec<u32> = Vec::new();
    for instance in 0..MAX_INSTANCE_COUNT {
        assert!(!registry.is_full());
        let handle = registry.allocate_instance(sets(instance as u64, 2)).unwrap();
        assert!(handle < MAX_INSTANCE_COUNT);
        assert!(!handles.contains(&handle));
        assert_eq!(handle, instance);
        handles.push(handle);
    }
    assert!(registry.is_full());
    assert_eq!(registry.instance_count(), 1000);
    assert_eq!(registry.instance_set_allocate_info(), None);
    assert_eq!(registry.allocate_instance(sets(1000, 2)), Err(AllocationError::Exhausted));
    assert_eq!(registry.allocate_instance(Vec::new()), Err(AllocationError::Exhausted));
    assert_eq!(registry.instance_count(), 1000);
    for instance in 0..MAX_INSTANCE_COUNT {
        assert_eq!(
            registry.instance(instance),
            Some(&VoxelShaderInstance { id: instance, descriptor_sets: sets(instance as u64, 2) })
        );
    }
    assert_eq!(registry.instance(1000), None);
}

#[test]
fn a_full_registry_has_room_again_after_a_release() {
    let mut registry = shader(1);
    for instance in 0..MAX_INSTANCE_COUNT {
        registry.allocate_instance(sets(instance as u64, 1)).unwrap();
    }
    assert_eq!(
        registry.release_instance(417),
        Some(VoxelShaderInstance { id: 417, descriptor_sets: sets(417, 1) })
    );
    assert!(!registry.is_full());
    assert_eq!(registry.instance(417), None);
    assert_eq!(registry.allocate_instance(vec![77]), Ok(417));
    assert_eq!(registry.instance(417), Some(&VoxelShaderInstance { id: 417, descriptor_sets: vec![77] }));
    assert_eq!(registry.allocate_instance(vec![78]), Err(AllocationError::Exhausted));
}

#[test]
fn the_handle_is_stamped_on_the_stored_instance() {
    let mut registry = shader(2);
    assert_eq!(registry.allocate_instance(vec![10, 11]), Ok(0));
    assert_eq!(registry.allocate_instance(vec![20, 21]), Ok(1));
    assert_eq!(registry.allocate_instance(vec![30, 31]), Ok(2));
    assert!(registry.release_instance(1).is_some());
    assert!(registry.release_instance(0).is_some());
    assert_eq!(registry.allocate_instance(vec![40, 41]), Ok(0));
    assert_eq!(registry.instance(0).unwrap().id, 0);
    assert_eq!(registry.instance(0).unwrap().descriptor_sets, vec![40, 41]);
    assert_eq!(registry.instance(2).unwrap().id, 2);
    assert_eq!(registry.allocate_instance(vec![50, 51]), Ok(1));
    assert_eq!(registry.instance(1).unwrap().id, 1);
    assert_eq!(registry.instance_count(), 3);
}

#[test]
fn a_wrong_number_of_sets_is_refused_and_changes_nothing() {
    let mut registry = shader(3);
    assert_eq!(registry.allocate_instance(vec![1, 2]), Err(AllocationError::SetCountMismatch));
    assert_eq!(registry.allocate_instance(vec![1, 2, 3, 4]), Err(AllocationError::SetCountMismatch));
    assert_eq!(registry.instance_count(), 0);
    assert_eq!(registry.allocate_instance(vec![1, 2, 3]), Ok(0));
}

#[test]
fn releasing_an_unknown_handle_changes_nothing() {
    let mut registry = shader(1);
    assert_eq!(registry.allocate_instance(vec![1]), Ok(0));
    assert_eq!(registry.release_instance(1), None);
    assert_eq!(registry.release_instance(u32::MAX), None);
    assert_eq!(registry.instance_count(), 1);
    assert!(registry.release_instance(0).is_some());
    assert_eq!(registry.release_instance(0), None);
    assert_eq!(registry.instance_count(), 0);
}

#[test]
fn binding_names_the_global_set_of_the_image() {
    let registry = shader(3);
    let info = registry.bind(2);
    assert_eq!(info.pipeline_bind_point, PIPELINE_BIND_POINT_COMPUTE);
    assert_eq!(info.pipeline, 5);
    assert_eq!(info.layout, 6);
    assert_eq!(info.first_set, 0);
    assert_eq!(info.descriptor_sets, vec![102]);
    assert_eq!(registry.bind(0).descriptor_sets, vec![100]);
}

#[test]
fn the_shader_is_torn_down_pipeline_first() {
    let mut registry = shader(2);
    assert_eq!(
        registry.destroy(),
        vec![
            Resource::Pipeline(5),
            Resource::PipelineLayout(6),
            Resource::DescriptorPool(3),
            Resource::DescriptorPool(4),
            Resource::DescriptorSetLayout(1),
            Resource::DescriptorSetLayout(2),
        ]
    );
}

#[test]
fn a_stage_enters_at_main_and_gives_back_its_module() {
    let stage = ShaderStage::new(9, SHADER_STAGE_COMPUTE);
    assert_eq!(stage, ShaderStage { module: 9, shader_stage: 0x20 });
    assert_eq!(stage.stage_entry_point_name(), b"main".to_vec());
    assert_eq!(stage.destroy(), vec![Resource::ShaderModule(9)]);
}

fn little_endian(words: &[u32]) -> Vec<u8> {
    words.iter().flat_map(|word| word.to_le_bytes()).collect()
}

fn big_endian(words: &[u32]) -> Vec<u8> {
    words.iter().flat_map(|word| word.to_be_bytes()).collect()
}

#[test]
fn a_little_endian_binary_is_read_as_it_is() {
    let words = [SPIRV_MAGIC, 0x0001_0300, 0xdead_beef, 7];
    assert_eq!(read_shader(&little_endian(&words)), Ok(words.to_vec()));
}

#[test]
fn a_big_endian_binary_has_every_word_swapped() {
    let words = [SPIRV_MAGIC, 0x0001_0300, 0xdead_beef, 7];
    assert_eq!(read_shader(&big_endian(&words)), Ok(words.to_vec()));
    assert_eq!(read_shader(&[0x07, 0x23, 0x02, 0x03, 0x01, 0x02, 0x03, 0x04]), Ok(vec![SPIRV_MAGIC, 0x0102_0304]));
    assert_eq!(read_shader(&[0x03, 0x02, 0x23, 0x07, 0x01, 0x02, 0x03, 0x04]), Ok(vec![SPIRV_MAGIC, 0x0403_0201]));
}

#[test]
fn the_magic_number_alone_is_a_binary() {
    assert_eq!(SPIRV_MAGIC, 0x0723_0203);
    assert_eq!(read_shader(&[0x03, 0x02, 0x23, 0x07]), Ok(vec![SPIRV_MAGIC]));
}

#[test]
fn a_length_that_is_no_multiple_of_four_is_truncated() {
    assert_eq!(read_shader(&[0x03, 0x02, 0x23, 0x07, 0x00]), Err(ShaderError::Truncated));
    assert_eq!(read_shader(&[0x03, 0x02, 0x23]), Err(ShaderError::Truncated));
    assert_eq!(read_shader(&[0x03]), Err(ShaderError::Truncated));
}

#[test]
fn a_binary_without_the_magic_number_is_refused() {
    assert_eq!(read_shader(&[]), Err(ShaderError::MissingMagic));
    assert_eq!(read_shader(&[0x03, 0x02, 0x23, 0x08]), Err(ShaderError::MissingMagic));
    assert_eq!(read_shader(&[0x02, 0x03, 0x07, 0x23]), Err(ShaderError::MissingMagic));
    assert_eq!(read_shader(&little_endian(&[1, SPIRV_MAGIC])), Err(ShaderError::MissingMagic));
}

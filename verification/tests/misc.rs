use ash::vk;
use renderer::passes::{
    draw_for_instance, draws_for_instances, InstanceDraw, PrimitiveInfo, PrimitiveSize,
};
use renderer::physical_device::first_suitable;
use renderer::acceleration_structure::{
    build_kind, max_scratch_size, triangles_range, BuildKind, TrianglesRange,
};
use renderer::device::{shader_code_from_bytes, vk_api_version, ShaderCodeError};
use renderer::extensions::has_required_extensions;
use renderer::glsl::{Glsl, GlslField, GlslStruct};
use renderer::image::Format;
use renderer::memory::Priority;
use renderer::shader_data::PathtracerConstants;
use renderer::world::texture_image_indices;

#[test]
fn image_formats_match_vulkan() {
    assert_eq!(Format::Hdr.vk_format(), vk::Format::R32G32B32A32_SFLOAT.as_raw());
    assert_eq!(Format::Color.vk_format(), vk::Format::R8G8B8A8_SRGB.as_raw());
    assert_eq!(Format::Depth.vk_format(), vk::Format::D16_UNORM.as_raw());
    assert_eq!(Format::Swapchain.vk_format(), vk::Format::B8G8R8A8_SRGB.as_raw());
}

#[test]
fn image_usage_and_aspect_follow_depth() {
    assert_eq!(Format::Depth.usage_flags(), vk::ImageUsageFlags::DEPTH_STENCIL_ATTACHMENT.as_raw());
    assert_eq!(Format::Color.usage_flags(), vk::ImageUsageFlags::SAMPLED.as_raw());
    assert_eq!(Format::Hdr.usage_flags(), vk::ImageUsageFlags::SAMPLED.as_raw());
    assert_eq!(Format::Depth.aspect_flags(), vk::ImageAspectFlags::DEPTH.as_raw());
    assert_eq!(Format::Swapchain.aspect_flags(), vk::ImageAspectFlags::COLOR.as_raw());
}

#[test]
fn api_version_is_1_3() {
    assert_eq!(vk_api_version(), ash::vk::API_VERSION_1_3);
    assert_eq!(vk_api_version(), 0x0040_3000);
}

#[test]
fn spirv_little_endian_words() {
    let bytes = [0x03, 0x02, 0x23, 0x07, 0x01, 0x00, 0x00, 0x00];
    assert_eq!(shader_code_from_bytes(&bytes), Ok(vec![0x0723_0203, 1]));
}

#[test]
fn spirv_big_endian_words() {
    let bytes = [0x07, 0x23, 0x02, 0x03, 0x00, 0x00, 0x00, 0x02];
    assert_eq!(shader_code_from_bytes(&bytes), Ok(vec![0x0723_0203, 2]));
}

#[test]
fn spirv_rejects_partial_words() {
    let bytes = [0x03, 0x02, 0x23, 0x07, 0x01];
    assert_eq!(shader_code_from_bytes(&bytes), Err(ShaderCodeError::NotWholeWords));
}

#[test]
fn spirv_rejects_missing_magic_number() {
    assert_eq!(shader_code_from_bytes(&[1, 2, 3, 4]), Err(ShaderCodeError::MissingMagicNumber));
    assert_eq!(shader_code_from_bytes(&[]), Err(ShaderCodeError::MissingMagicNumber));
}

#[test]
fn extensions_check_compares_names() {
    let available = vec![b"VK_KHR_swapchain".to_vec(), b"VK_EXT_memory_priority".to_vec()];
    assert!(has_required_extensions(&available, &vec![b"VK_KHR_swapchain".to_vec()]));
    assert!(has_required_extensions(&available, &vec![]));
    assert!(!has_required_extensions(
        &available,
        &vec![b"VK_KHR_swapchain".to_vec(), b"VK_KHR_ray_tracing_pipeline".to_vec()]
    ));
    assert!(!has_required_extensions(&available, &vec![b"VK_KHR_swap".to_vec()]));
}

struct Light {}

impl Glsl for Light {
    const NAME: &'static str = "Light";
}

impl GlslStruct for Light {
    const FIELDS: &'static [GlslField] = &[
        GlslField { name: "count", ty: <u32 as Glsl>::NAME },
        GlslField { name: "offset", ty: <i64 as Glsl>::NAME },
    ];
}

#[test]
fn glsl_struct_definition_lists_fields() {
    assert_eq!(
        Light::glsl_struct_definition(),
        "struct Light {\n  uint count;\n  int64_t offset;\n};\n"
    );
    let _ = Light {};
}

#[test]
fn glsl_scalar_names() {
    assert_eq!(<i32 as Glsl>::NAME, "int");
    assert_eq!(<u32 as Glsl>::NAME, "uint");
    assert_eq!(<i64 as Glsl>::NAME, "int64_t");
    assert_eq!(<u64 as Glsl>::NAME, "uint64_t");
}

#[test]
fn textures_default_to_one_placeholder() {
    assert_eq!(texture_image_indices(0, &vec![]), vec![0]);
    assert_eq!(texture_image_indices(3, &vec![]), vec![0]);
    assert_eq!(texture_image_indices(3, &vec![2, 0, 2]), vec![2, 0, 2]);
    assert_eq!(texture_image_indices(0, &vec![0]), vec![0]);
}

#[test]
fn build_kinds() {
    assert_eq!(
        build_kind(true),
        BuildKind {
            ty: vk::AccelerationStructureTypeKHR::BOTTOM_LEVEL.as_raw(),
            flags: (vk::BuildAccelerationStructureFlagsKHR::PREFER_FAST_TRACE
                | vk::BuildAccelerationStructureFlagsKHR::ALLOW_COMPACTION)
                .as_raw(),
        }
    );
    assert_eq!(
        build_kind(false),
        BuildKind {
            ty: vk::AccelerationStructureTypeKHR::TOP_LEVEL.as_raw(),
            flags: vk::BuildAccelerationStructureFlagsKHR::PREFER_FAST_TRACE.as_raw(),
        }
    );
}

#[test]
fn triangle_ranges() {
    assert_eq!(
        triangles_range(6, 10, 4, 2),
        TrianglesRange { primitive_count: 2, primitive_offset: 24, first_vertex: 10, max_vertex: 3 }
    );
}

#[test]
fn scratch_size_is_the_largest() {
    assert_eq!(max_scratch_size(&vec![5, 9, 2]), 9);
    assert_eq!(max_scratch_size(&vec![7]), 7);
}

#[test]
fn pathtracer_constants_default() {
    assert_eq!(PathtracerConstants::default(), PathtracerConstants { frame: 0 });
    let _ = Priority::High;
    let _ = Priority::Medium;
}

#[test]
fn instance_draws_use_their_primitive() {

    let infos = vec![
        PrimitiveInfo { indices_offset: 0, vertices_offset: 0, material: 3 },
        PrimitiveInfo { indices_offset: 36, vertices_offset: 24, material: 1 },
    ];
    let sizes = vec![
        PrimitiveSize { indices_size: 36, vertices_size: 24 },
        PrimitiveSize { indices_size: 6, vertices_size: 4 },
    ];
    assert_eq!(
        draw_for_instance(1, &infos, &sizes),
        InstanceDraw {
            material_index: 1,
            index_count: 6,
            instance_count: 1,
            first_index: 36,
            vertex_offset: 24,
            first_instance: 0,
        }
    );
}

#[test]
fn one_draw_per_instance_in_order() {
    let infos = vec![
        PrimitiveInfo { indices_offset: 0, vertices_offset: 0, material: 3 },
        PrimitiveInfo { indices_offset: 36, vertices_offset: 24, material: 1 },
    ];
    let sizes = vec![
        PrimitiveSize { indices_size: 36, vertices_size: 24 },
        PrimitiveSize { indices_size: 6, vertices_size: 4 },
    ];
    let draws = draws_for_instances(&vec![1, 0, 1], &infos, &sizes);
    assert_eq!(draws.len(), 3);
    assert_eq!(draws[0], draw_for_instance(1, &infos, &sizes));
    assert_eq!(draws[1].material_index, 3);
    assert_eq!(draws[1].index_count, 36);
    assert_eq!(draws[2].first_index, 36);
    assert!(draws_for_instances(&vec![], &infos, &sizes).is_empty());
}

#[test]
fn first_suitable_device_stops_at_the_first_pass() {
    let checked = std::cell::RefCell::new(Vec::new());
    let found = first_suitable(5, |i| {
        checked.borrow_mut().push(i);
        if i % 2 == 1 { Some(i * 10) } else { None }
    });
    assert_eq!(found, Some((1, 10)));
    assert_eq!(checked.into_inner(), vec![0, 1]);
}

#[test]
fn no_suitable_device_checks_them_all() {
    let checked = std::cell::RefCell::new(Vec::new());
    let found: Option<(usize, u8)> = first_suitable(3, |i| {
        checked.borrow_mut().push(i);
        None
    });
    assert_eq!(found, None);
    assert_eq!(checked.into_inner(), vec![0, 1, 2]);
    assert_eq!(first_suitable(0, |_| Some(1u8)), None);
}

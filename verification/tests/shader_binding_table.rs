use renderer::shader_binding_table::{
    RayTracingShaders, ShaderGroup, ShaderGroupKind, ShaderStage, ShaderStageKind,
    StridedRegion, TableLayout, SHADER_UNUSED,
};

fn handles(count: usize, size: usize) -> Vec<u8> {
    (0..count * size).map(|i| (i % 251 + 1) as u8).collect()
}

#[test]
fn layout_rounds_regions_to_base_alignment() {
    let layout = TableLayout::new(32, 32, 64, 1, 1);
    assert_eq!(layout.handle_size_aligned, 32);
    assert_eq!(layout.raygen_size, 64);
    assert_eq!(layout.misses_size, 64);
    assert_eq!(layout.closest_hits_size, 64);
}

#[test]
fn layout_rounds_records_to_handle_alignment() {
    let layout = TableLayout::new(8, 16, 32, 2, 3);
    assert_eq!(layout.handle_size_aligned, 16);
    assert_eq!(layout.raygen_size, 32);
    assert_eq!(layout.misses_size, 32);
    assert_eq!(layout.closest_hits_size, 64);
}

#[test]
fn layout_without_misses_or_hits_has_empty_regions() {
    let layout = TableLayout::new(32, 32, 64, 0, 0);
    assert_eq!(layout.misses_size, 0);
    assert_eq!(layout.closest_hits_size, 0);
}

#[test]
fn table_places_each_handle_at_its_record() {
    let layout = TableLayout::new(8, 16, 32, 2, 3);
    let hs = 8;
    let data = handles(6, hs);
    let table = layout.build_table(&data);
    assert_eq!(table.len(), 32 + 32 + 64);
    let offsets = [0usize, 32, 48, 64, 80, 96];
    for (k, &offset) in offsets.iter().enumerate() {
        assert_eq!(&table[offset..offset + hs], &data[k * hs..(k + 1) * hs]);
    }
    for p in 0..table.len() {
        let in_slot = offsets.iter().any(|&o| p >= o && p < o + hs);
        if !in_slot {
            assert_eq!(table[p], 0, "byte {p} should be padding");
        }
    }
}

#[test]
fn table_with_single_group() {
    let layout = TableLayout::new(4, 4, 16, 0, 0);
    let data = vec![9u8, 8, 7, 6];
    let table = layout.build_table(&data);
    assert_eq!(table, vec![9, 8, 7, 6, 0, 0, 0, 0, 0, 0, 0, 0, 0, 0, 0, 0]);
}

#[test]
fn regions_lie_back_to_back() {
    let layout = TableLayout::new(32, 32, 64, 1, 1);
    let regions = layout.regions(0x1000);
    assert_eq!(regions.raygen, StridedRegion { device_address: 0x1000, stride: 64, size: 64 });
    assert_eq!(regions.misses, StridedRegion { device_address: 0x1040, stride: 32, size: 64 });
    assert_eq!(
        regions.closest_hits,
        StridedRegion { device_address: 0x1080, stride: 32, size: 64 }
    );
    assert_eq!(regions.call, StridedRegion { device_address: 0, stride: 0, size: 0 });
}

fn shaders() -> RayTracingShaders {
    RayTracingShaders::new(10, vec![20], vec![30, 31])
}

#[test]
fn stages_are_raygen_then_misses_then_hits() {
    let s = shaders();
    assert_eq!(s.num_stages(), 4);
    let stages = s.stages_create_infos();
    assert_eq!(
        stages,
        vec![
            ShaderStage { stage: ShaderStageKind::RayGeneration, module: 10 },
            ShaderStage { stage: ShaderStageKind::Miss, module: 20 },
            ShaderStage { stage: ShaderStageKind::ClosestHit, module: 30 },
            ShaderStage { stage: ShaderStageKind::ClosestHit, module: 31 },
        ]
    );
}

#[test]
fn groups_refer_to_their_own_stage() {
    let groups = shaders().groups_create_infos();
    let general = |i: u32| ShaderGroup {
        kind: ShaderGroupKind::General,
        general_shader: i,
        closest_hit_shader: SHADER_UNUSED,
        any_hit_shader: SHADER_UNUSED,
        intersection_shader: SHADER_UNUSED,
    };
    let hit = |i: u32| ShaderGroup {
        kind: ShaderGroupKind::TrianglesHitGroup,
        general_shader: SHADER_UNUSED,
        closest_hit_shader: i,
        any_hit_shader: SHADER_UNUSED,
        intersection_shader: SHADER_UNUSED,
    };
    assert_eq!(groups, vec![general(0), general(1), hit(2), hit(3)]);
    assert_eq!(SHADER_UNUSED, ash::vk::SHADER_UNUSED_KHR);
}

#[test]
fn shaders_without_misses_or_hits() {
    let s = RayTracingShaders::new(1, vec![], vec![]);
    assert_eq!(s.num_stages(), 1);
    assert_eq!(s.groups_create_infos().len(), 1);
    assert_eq!(s.stages_create_infos().len(), 1);
}

#[test]
fn layout_fits_typical_device_properties() {
    assert!(TableLayout::fits(32, 32, 64, 1, 1));
    assert!(TableLayout::fits(8, 16, 32, 2, 3));
}

#[test]
fn layout_does_not_fit_degenerate_or_huge_inputs() {
    assert!(!TableLayout::fits(0, 32, 64, 1, 1));
    assert!(!TableLayout::fits(32, 0, 64, 1, 1));
    assert!(!TableLayout::fits(32, 32, 0, 1, 1));
    assert!(!TableLayout::fits(usize::MAX, 32, 64, 1, 1));
    assert!(!TableLayout::fits(32, 32, 64, usize::MAX / 16, 0));
    assert!(!TableLayout::fits(32, 32, 64, 0, usize::MAX));
}

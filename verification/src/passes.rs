//! Per-instance draw parameters of the rasterizer pass.

use vstd::prelude::*;

verus! {

/// Where one primitive of the scene lies in the shared buffers, and its
/// material.
#[derive(PartialEq, Eq, Structural, Clone, Copy, Debug)]
pub struct PrimitiveInfo {
    pub indices_offset: u32,
    pub vertices_offset: u32,
    pub material: u32,
}

/// How many indices and vertices one primitive of the scene has.
#[derive(PartialEq, Eq, Structural, Clone, Copy, Debug)]
pub struct PrimitiveSize {
    pub indices_size: u32,
    pub vertices_size: u32,
}

/// An indexed draw of one instance, with the material it is shaded with.
#[derive(PartialEq, Eq, Structural, Clone, Copy, Debug)]
pub struct InstanceDraw {
    pub material_index: u32,
    pub index_count: u32,
    pub instance_count: u32,
    pub first_index: u32,
    pub vertex_offset: i32,
    pub first_instance: u32,
}

/// The draw of an instance of a primitive: all of its indices, once, from
/// its offsets in the shared buffers, with its material.
pub open spec fn spec_draw(info: PrimitiveInfo, size: PrimitiveSize) -> InstanceDraw {
    InstanceDraw {
        material_index: info.material,
        index_count: size.indices_size,
        instance_count: 1,
        first_index: info.indices_offset,
        vertex_offset: info.vertices_offset as i32,
        first_instance: 0,
    }
}

/// The draw of an instance of primitive `primitive_index`: all of the
/// primitive's indices, once, from its offsets in the shared buffers, with
/// its material.
pub fn draw_for_instance(
    primitive_index: usize,
    primitive_infos: &Vec<PrimitiveInfo>,
    primitive_sizes: &Vec<PrimitiveSize>,
) -> (r: InstanceDraw)
    requires
        primitive_index < primitive_infos@.len(),
        primitive_index < primitive_sizes@.len(),
        primitive_infos@[primitive_index as int].vertices_offset <= i32::MAX,
    ensures
        r == spec_draw(
            primitive_infos@[primitive_index as int],
            primitive_sizes@[primitive_index as int],
        ),
{
    let info = primitive_infos[primitive_index];
    let size = primitive_sizes[primitive_index];
    InstanceDraw {
        material_index: info.material,
        index_count: size.indices_size,
        instance_count: 1,
        first_index: info.indices_offset,
        vertex_offset: info.vertices_offset as i32,
        first_instance: 0,
    }
}

/// The draws of the rasterizer pass, one per instance in order, where
/// `instance_primitives` holds the primitive index of each instance.
pub fn draws_for_instances(
    instance_primitives: &Vec<usize>,
    primitive_infos: &Vec<PrimitiveInfo>,
    primitive_sizes: &Vec<PrimitiveSize>,
) -> (r: Vec<InstanceDraw>)
    requires
        forall|k: int|
            0 <= k < instance_primitives@.len() ==> {
                let p = #[trigger] instance_primitives@[k];
                &&& p < primitive_infos@.len()
                &&& p < primitive_sizes@.len()
                &&& primitive_infos@[p as int].vertices_offset <= i32::MAX
            },
    ensures
        r@.len() == instance_primitives@.len(),
        forall|k: int|
            0 <= k < r@.len() ==> #[trigger] r@[k] == spec_draw(
                primitive_infos@[instance_primitives@[k] as int],
                primitive_sizes@[instance_primitives@[k] as int],
            ),
{
    let mut draws: Vec<InstanceDraw> = Vec::new();
    let n = instance_primitives.len();
    for i in 0..n
        invariant
            n == instance_primitives@.len(),
            draws@.len() == i,
            forall|k: int|
                0 <= k < instance_primitives@.len() ==> {
                    let p = #[trigger] instance_primitives@[k];
                    &&& p < primitive_infos@.len()
                    &&& p < primitive_sizes@.len()
                    &&& primitive_infos@[p as int].vertices_offset <= i32::MAX
                },
            forall|k: int|
                0 <= k < draws@.len() ==> #[trigger] draws@[k] == spec_draw(
                    primitive_infos@[instance_primitives@[k] as int],
                    primitive_sizes@[instance_primitives@[k] as int],
                ),
    {
        let p = instance_primitives[i];
        draws.push(draw_for_instance(p, primitive_infos, primitive_sizes));
    }
    draws
}

/// An instance's draw covers all of its primitive's indices, from the
/// primitive's first index and first vertex, as a single instance, and is
/// shaded with the primitive's material.
pub proof fn lemma_draw_covers_primitive(info: PrimitiveInfo, size: PrimitiveSize)
    requires
        info.vertices_offset <= i32::MAX,
    ensures
        spec_draw(info, size).index_count == size.indices_size,
        spec_draw(info, size).first_index == info.indices_offset,
        spec_draw(info, size).vertex_offset == info.vertices_offset,
        spec_draw(info, size).instance_count == 1,
        spec_draw(info, size).first_instance == 0,
        spec_draw(info, size).material_index == info.material,
{
}

} // verus!

//! Decisions and arithmetic of building the acceleration structures.

use vstd::prelude::*;

verus! {

/// Raw acceleration-structure types.
pub const ACCELERATION_STRUCTURE_TOP_LEVEL: i32 = 0i32;
pub const ACCELERATION_STRUCTURE_BOTTOM_LEVEL: i32 = 1i32;

/// Raw build flags.
pub const BUILD_ALLOW_COMPACTION: u32 = 0x2u32;
pub const BUILD_PREFER_FAST_TRACE: u32 = 0x4u32;

/// Size in bytes of one 32-bit vertex index.
pub const INDEX_SIZE: u32 = 4u32;

/// Type and build flags of an acceleration structure.
#[derive(PartialEq, Eq, Structural, Clone, Copy, Debug)]
pub struct BuildKind {
    pub ty: i32,
    pub flags: u32,
}

/// Which triangles of the shared vertex and index buffers one bottom-level
/// structure is built from.
#[derive(PartialEq, Eq, Structural, Clone, Copy, Debug)]
pub struct TrianglesRange {
    pub primitive_count: u32,
    pub primitive_offset: u32,
    pub first_vertex: u32,
    pub max_vertex: u32,
}

/// Bottom levels are built for fast tracing and allowed to be compacted; the
/// top level is built for fast tracing only.
pub fn build_kind(bottom_level: bool) -> (r: BuildKind)
    ensures
        r.ty == (if bottom_level {
            ACCELERATION_STRUCTURE_BOTTOM_LEVEL
        } else {
            ACCELERATION_STRUCTURE_TOP_LEVEL
        }),
        r.flags == (if bottom_level {
            BUILD_PREFER_FAST_TRACE | BUILD_ALLOW_COMPACTION
        } else {
            BUILD_PREFER_FAST_TRACE
        }),
{
    let ty = if bottom_level {
        ACCELERATION_STRUCTURE_BOTTOM_LEVEL
    } else {
        ACCELERATION_STRUCTURE_TOP_LEVEL
    };
    let compaction_flag = if bottom_level {
        BUILD_ALLOW_COMPACTION
    } else {
        0u32
    };
    proof {
        assert(BUILD_PREFER_FAST_TRACE | 0u32 == BUILD_PREFER_FAST_TRACE) by (bit_vector);
    }
    BuildKind { ty, flags: BUILD_PREFER_FAST_TRACE | compaction_flag }
}

/// The triangles of one primitive: `primitive_count` triangles whose indices
/// start `indices_offset` indices into the index buffer, indexing vertices
/// from `vertices_offset` on, with `vertices_size` vertices.
pub fn triangles_range(
    indices_offset: u32,
    vertices_offset: u32,
    vertices_size: u32,
    primitive_count: u32,
) -> (r: TrianglesRange)
    requires
        indices_offset * INDEX_SIZE <= u32::MAX,
        vertices_size >= 1,
    ensures
        r.primitive_count == primitive_count,
        r.primitive_offset == indices_offset * INDEX_SIZE,
        r.first_vertex == vertices_offset,
        r.max_vertex == vertices_size - 1,
{
    TrianglesRange {
        primitive_count,
        primitive_offset: indices_offset * INDEX_SIZE,
        first_vertex: vertices_offset,
        max_vertex: vertices_size - 1,
    }
}

/// The largest scratch size the bottom-level builds need: one scratch buffer
/// of that size serves them all.
pub fn max_scratch_size(sizes: &Vec<u64>) -> (r: u64)
    requires
        sizes@.len() > 0,
    ensures
        sizes@.contains(r),
        forall|i: int| 0 <= i < sizes@.len() ==> sizes@[i] <= r,
{
    let mut max = sizes[0];
    let n = sizes.len();
    let mut i: usize = 1;
    while i < n
        invariant
            n == sizes@.len(),
            1 <= i <= n,
            sizes@.contains(max),
            forall|k: int| 0 <= k < i ==> sizes@[k] <= max,
        decreases n - i,
    {
        if sizes[i] > max {
            max = sizes[i];
        }
        i = i + 1;
    }
    max
}

} // verus!

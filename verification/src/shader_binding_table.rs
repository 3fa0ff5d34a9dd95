//! Shader groups of the ray-tracing pipeline and the layout of its shader
//! binding table: where each group handle goes and which regions the
//! trace-rays command is given.

use vstd::prelude::*;

use crate::memory::{align_to, aligned};

verus! {

/// Index that marks an unused shader slot of a shader group.
pub const SHADER_UNUSED: u32 = 0xFFFF_FFFFu32;

/// The pipeline stage a ray-tracing shader module runs at.
#[derive(PartialEq, Eq, Structural, Clone, Copy, Debug)]
pub enum ShaderStageKind {
    RayGeneration,
    Miss,
    ClosestHit,
}

/// One shader stage of the ray-tracing pipeline: its kind and the raw handle
/// of its shader module.
#[derive(PartialEq, Eq, Structural, Clone, Copy, Debug)]
pub struct ShaderStage {
    pub stage: ShaderStageKind,
    pub module: u64,
}

/// The kind of a ray-tracing shader group.
#[derive(PartialEq, Eq, Structural, Clone, Copy, Debug)]
pub enum ShaderGroupKind {
    General,
    TrianglesHitGroup,
}

/// One shader group: which stage indices it uses for each of its slots.
#[derive(PartialEq, Eq, Structural, Clone, Copy, Debug)]
pub struct ShaderGroup {
    pub kind: ShaderGroupKind,
    pub general_shader: u32,
    pub closest_hit_shader: u32,
    pub any_hit_shader: u32,
    pub intersection_shader: u32,
}

/// The shader modules of the ray-tracing pipeline: one ray-generation shader,
/// then the miss shaders, then the closest-hit shaders.
pub struct RayTracingShaders {
    pub raygen: u64,
    pub misses: Vec<u64>,
    pub closest_hits: Vec<u64>,
}

/// The group that stage `index` forms when the first `num_misses` stages
/// after the ray-generation stage are miss shaders.
pub open spec fn expected_group(num_misses: int, index: int) -> ShaderGroup {
    if index <= num_misses {
        ShaderGroup {
            kind: ShaderGroupKind::General,
            general_shader: index as u32,
            closest_hit_shader: SHADER_UNUSED,
            any_hit_shader: SHADER_UNUSED,
            intersection_shader: SHADER_UNUSED,
        }
    } else {
        ShaderGroup {
            kind: ShaderGroupKind::TrianglesHitGroup,
            general_shader: SHADER_UNUSED,
            closest_hit_shader: index as u32,
            any_hit_shader: SHADER_UNUSED,
            intersection_shader: SHADER_UNUSED,
        }
    }
}

impl RayTracingShaders {
    pub fn new(raygen: u64, misses: Vec<u64>, closest_hits: Vec<u64>) -> (r: Self)
        ensures
            r.raygen == raygen,
            r.misses@ == misses@,
            r.closest_hits@ == closest_hits@,
    {
        RayTracingShaders { raygen, misses, closest_hits }
    }

    pub open spec fn spec_num_stages(&self) -> int {
        1 + self.misses@.len() + self.closest_hits@.len() as int
    }

    /// The stage at `index`, in pipeline order.
    pub open spec fn expected_stage(&self, index: int) -> ShaderStage {
        if index == 0 {
            ShaderStage { stage: ShaderStageKind::RayGeneration, module: self.raygen }
        } else if index <= self.misses@.len() {
            ShaderStage { stage: ShaderStageKind::Miss, module: self.misses@[index - 1] }
        } else {
            ShaderStage {
                stage: ShaderStageKind::ClosestHit,
                module: self.closest_hits@[index - 1 - self.misses@.len()],
            }
        }
    }

    /// Number of shader stages (and of shader groups) of the pipeline.
    pub fn num_stages(&self) -> (n: usize)
        requires
            self.spec_num_stages() <= usize::MAX,
        ensures
            n == self.spec_num_stages(),
    {
        1 + self.misses.len() + self.closest_hits.len()
    }

    /// The stages in pipeline order: ray generation, the misses, the closest
    /// hits.
    pub fn stages_create_infos(&self) -> (stages: Vec<ShaderStage>)
        requires
            self.spec_num_stages() <= usize::MAX,
        ensures
            stages@.len() == self.spec_num_stages(),
            forall|i: int| 0 <= i < stages@.len() ==> stages@[i] == self.expected_stage(i),
    {
        let mut stages: Vec<ShaderStage> = Vec::new();
        stages.push(ShaderStage { stage: ShaderStageKind::RayGeneration, module: self.raygen });
        let num_misses = self.misses.len();
        for i in 0..num_misses
            invariant
                num_misses == self.misses@.len(),
                self.spec_num_stages() <= usize::MAX,
                stages@.len() == 1 + i,
                forall|k: int| 0 <= k < stages@.len() ==> stages@[k] == self.expected_stage(k),
        {
            stages.push(ShaderStage { stage: ShaderStageKind::Miss, module: self.misses[i] });
        }
        let num_hits = self.closest_hits.len();
        for i in 0..num_hits
            invariant
                num_misses == self.misses@.len(),
                num_hits == self.closest_hits@.len(),
                self.spec_num_stages() <= usize::MAX,
                stages@.len() == 1 + num_misses + i,
                forall|k: int| 0 <= k < stages@.len() ==> stages@[k] == self.expected_stage(k),
        {
            stages.push(
                ShaderStage { stage: ShaderStageKind::ClosestHit, module: self.closest_hits[i] },
            );
        }
        stages
    }

    /// The shader groups in pipeline order: group `i` uses stage `i`, as a
    /// general group for the ray-generation and miss stages and as a
    /// triangles hit group for the closest-hit stages.
    pub fn groups_create_infos(&self) -> (groups: Vec<ShaderGroup>)
        requires
            self.spec_num_stages() <= usize::MAX,
        ensures
            groups@.len() == self.spec_num_stages(),
            forall|i: int|
                0 <= i < groups@.len() ==> groups@[i] == expected_group(
                    self.misses@.len() as int,
                    i,
                ),
    {
        let ghost nm = self.misses@.len() as int;
        let mut groups: Vec<ShaderGroup> = Vec::new();
        groups.push(
            ShaderGroup {
                kind: ShaderGroupKind::General,
                general_shader: 0,
                closest_hit_shader: SHADER_UNUSED,
                any_hit_shader: SHADER_UNUSED,
                intersection_shader: SHADER_UNUSED,
            },
        );
        let num_misses = self.misses.len();
        for i in 0..num_misses
            invariant
                num_misses == nm,
                nm == self.misses@.len(),
                self.spec_num_stages() <= usize::MAX,
                groups@.len() == 1 + i,
                forall|k: int| 0 <= k < groups@.len() ==> groups@[k] == expected_group(nm, k),
        {
            groups.push(
                ShaderGroup {
                    kind: ShaderGroupKind::General,
                    general_shader: (1 + i) as u32,
                    closest_hit_shader: SHADER_UNUSED,
                    any_hit_shader: SHADER_UNUSED,
                    intersection_shader: SHADER_UNUSED,
                },
            );
        }
        let num_hits = self.closest_hits.len();
        for i in 0..num_hits
            invariant
                num_misses == nm,
                nm == self.misses@.len(),
                num_hits == self.closest_hits@.len(),
                self.spec_num_stages() <= usize::MAX,
                groups@.len() == 1 + num_misses + i,
                forall|k: int| 0 <= k < groups@.len() ==> groups@[k] == expected_group(nm, k),
        {
            groups.push(
                ShaderGroup {
                    kind: ShaderGroupKind::TrianglesHitGroup,
                    general_shader: SHADER_UNUSED,
                    closest_hit_shader: (1 + num_misses + i) as u32,
                    any_hit_shader: SHADER_UNUSED,
                    intersection_shader: SHADER_UNUSED,
                },
            );
        }
        groups
    }
}

/// Every group refers to the stage at its own index, and a general group
/// refers to a ray-generation or miss stage while a hit group refers to a
/// closest-hit stage.
pub proof fn lemma_groups_match_stages(shaders: &RayTracingShaders, index: int)
    requires
        0 <= index < shaders.spec_num_stages(),
    ensures
        ({
            let g = expected_group(shaders.misses@.len() as int, index);
            let s = shaders.expected_stage(index);
            &&& g.kind == ShaderGroupKind::General ==> g.general_shader == index as u32
                && s.stage != ShaderStageKind::ClosestHit
            &&& g.kind == ShaderGroupKind::TrianglesHitGroup ==> g.closest_hit_shader
                == index as u32 && s.stage == ShaderStageKind::ClosestHit
        }),
{
}


/// The stages, in pipeline order, run the ray-generation module, then the
/// miss modules in the order given, then the closest-hit modules in the
/// order given, each with its own kind.
pub proof fn lemma_stages_in_given_order(shaders: &RayTracingShaders)
    ensures
        ({
            let m = shaders.misses@.len() as int;
            let stages = Seq::new(
                shaders.spec_num_stages() as nat,
                |i: int| shaders.expected_stage(i),
            );
            &&& stages.map_values(|st: ShaderStage| st.module) == seq![shaders.raygen]
                + shaders.misses@ + shaders.closest_hits@
            &&& stages[0].stage == ShaderStageKind::RayGeneration
            &&& forall|i: int| 1 <= i <= m ==> (#[trigger] stages[i]).stage == ShaderStageKind::Miss
            &&& forall|i: int|
                m < i < stages.len() ==> (#[trigger] stages[i]).stage
                    == ShaderStageKind::ClosestHit
        }),
{
    let m = shaders.misses@.len() as int;
    let stages = Seq::new(shaders.spec_num_stages() as nat, |i: int| shaders.expected_stage(i));
    let modules = seq![shaders.raygen] + shaders.misses@ + shaders.closest_hits@;
    assert(stages.map_values(|st: ShaderStage| st.module) =~= modules);
}

/// A strided range of device addresses, as the trace-rays command reads it.
#[derive(PartialEq, Eq, Structural, Clone, Copy, Debug)]
pub struct StridedRegion {
    pub device_address: u64,
    pub stride: u64,
    pub size: u64,
}

/// The four regions of a shader binding table.
#[derive(PartialEq, Eq, Structural, Clone, Copy, Debug)]
pub struct Regions {
    pub raygen: StridedRegion,
    pub misses: StridedRegion,
    pub closest_hits: StridedRegion,
    pub call: StridedRegion,
}

/// Sizes of the shader binding table: one ray-generation record, then the
/// miss records, then the closest-hit records, each region rounded up to the
/// base alignment and each record to the handle alignment.
#[derive(PartialEq, Eq, Structural, Clone, Copy, Debug)]
pub struct TableLayout {
    pub handle_size: usize,
    pub handle_size_aligned: usize,
    pub num_misses: usize,
    pub num_closest_hits: usize,
    pub raygen_size: usize,
    pub misses_size: usize,
    pub closest_hits_size: usize,
}

/// `count` zero bytes.
pub open spec fn zeros(count: nat) -> Seq<u8> {
    Seq::new(count, |i: int| 0u8)
}

/// The `k`-th handle of `handles`, each `handle_size` bytes long.
pub open spec fn handle_of(handles: Seq<u8>, handle_size: nat, k: nat) -> Seq<u8> {
    handles.subrange((k * handle_size) as int, (k * handle_size + handle_size) as int)
}

/// The `k`-th handle followed by zeros up to `stride` bytes.
pub open spec fn record(handles: Seq<u8>, handle_size: nat, k: nat, stride: nat) -> Seq<u8> {
    handle_of(handles, handle_size, k) + zeros((stride - handle_size) as nat)
}

/// The records of handles `first .. first + count`, one after the other.
pub open spec fn records(
    handles: Seq<u8>,
    handle_size: nat,
    stride: nat,
    first: nat,
    count: nat,
) -> Seq<u8>
    decreases count,
{
    if count == 0 {
        Seq::empty()
    } else {
        records(handles, handle_size, stride, first, (count - 1) as nat) + record(
            handles,
            handle_size,
            (first + count - 1) as nat,
            stride,
        )
    }
}

/// The records of handles `first .. first + count` followed by zeros up to
/// `size` bytes.
pub open spec fn region(
    handles: Seq<u8>,
    handle_size: nat,
    stride: nat,
    first: nat,
    count: nat,
    size: nat,
) -> Seq<u8> {
    records(handles, handle_size, stride, first, count) + zeros((size - count * stride) as nat)
}

proof fn lemma_records_len(handles: Seq<u8>, handle_size: nat, stride: nat, first: nat, count: nat)
    requires
        handle_size <= stride,
        (first + count) * handle_size <= handles.len(),
    ensures
        records(handles, handle_size, stride, first, count).len() == count * stride,
    decreases count,
{
    if count > 0 {
        assert((first + (count - 1)) * handle_size <= (first + count) * handle_size)
            by (nonlinear_arith);
        lemma_records_len(handles, handle_size, stride, first, (count - 1) as nat);
        let k = (first + count - 1) as nat;
        assert(k * handle_size + handle_size == (first + count) * handle_size) by (nonlinear_arith)
            requires
                k == first + count - 1,
        ;
        assert(count * stride == (count - 1) * stride + stride) by (nonlinear_arith);
        assert(handle_of(handles, handle_size, k).len() == handle_size);
        assert(record(handles, handle_size, k, stride).len() == stride);
        let c1 = (count - 1) as nat;
        assert(records(handles, handle_size, stride, first, c1).len() == c1 * stride);
        assert(c1 * stride + stride == count * stride) by (nonlinear_arith)
            requires
                c1 == count - 1,
        ;
    } else {
        assert(count * stride == 0) by (nonlinear_arith)
            requires
                count == 0,
        ;
    }
}

/// Byte `j` of record `i` of `records`: a handle byte below `handle_size`,
/// zero above it.
pub proof fn lemma_records_index(
    handles: Seq<u8>,
    handle_size: nat,
    stride: nat,
    first: nat,
    count: nat,
    i: nat,
    j: nat,
)
    requires
        handle_size <= stride,
        (first + count) * handle_size <= handles.len(),
        i < count,
        j < stride,
    ensures
        i * stride + j < count * stride,
        records(handles, handle_size, stride, first, count)[(i * stride + j) as int] == if j
            < handle_size {
            handles[((first + i) * handle_size + j) as int]
        } else {
            0u8
        },
    decreases count,
{
    lemma_records_len(handles, handle_size, stride, first, count);
    assert(i * stride + j < count * stride) by (nonlinear_arith)
        requires
            i < count,
            j < stride,
    ;
    let k = (first + count - 1) as nat;
    assert(k * handle_size + handle_size == (first + count) * handle_size) by (nonlinear_arith)
        requires
            k == first + count - 1,
    ;
    lemma_records_len(handles, handle_size, stride, first, (count - 1) as nat);
    if i + 1 < count {
        assert((first + (count - 1)) * handle_size <= (first + count) * handle_size)
            by (nonlinear_arith);
        lemma_records_index(handles, handle_size, stride, first, (count - 1) as nat, i, j);
    } else {
        assert(i * stride == (count - 1) * stride);
    }
}

fn push_handle(table: &mut Vec<u8>, handles: &[u8], handle_size: usize, k: usize)
    requires
        k * handle_size + handle_size <= handles@.len(),
    ensures
        final(table)@ == old(table)@ + handle_of(handles@, handle_size as nat, k as nat),
{
    let n = handles.len();
    let start = k * handle_size;
    for j in 0..handle_size
        invariant
            start == k * handle_size,
            start + handle_size <= handles@.len(),
            n == handles@.len(),
            table@ == old(table)@ + handles@.subrange(start as int, start + j),
    {
        table.push(handles[start + j]);
        assert(handles@.subrange(start as int, start + j + 1) =~= handles@.subrange(
            start as int,
            start + j,
        ).push(handles@[start + j]));
    }
}

fn push_zeros(table: &mut Vec<u8>, count: usize)
    ensures
        final(table)@ == old(table)@ + zeros(count as nat),
{
    for i in 0..count
        invariant
            table@ == old(table)@ + zeros(i as nat),
    {
        table.push(0u8);
        assert(zeros((i + 1) as nat) =~= zeros(i as nat).push(0u8));
    }
}

fn push_records(
    table: &mut Vec<u8>,
    handles: &[u8],
    handle_size: usize,
    stride: usize,
    first: usize,
    count: usize,
)
    requires
        handle_size <= stride,
        first + count <= usize::MAX,
        (first + count) * handle_size <= handles@.len(),
    ensures
        final(table)@ == old(table)@ + records(
            handles@,
            handle_size as nat,
            stride as nat,
            first as nat,
            count as nat,
        ),
{
    for i in 0..count
        invariant
            handle_size <= stride,
            first + count <= usize::MAX,
            (first + count) * handle_size <= handles@.len(),
            table@ == old(table)@ + records(
                handles@,
                handle_size as nat,
                stride as nat,
                first as nat,
                i as nat,
            ),
    {
        assert((first + i) * handle_size + handle_size <= (first + count) * handle_size)
            by (nonlinear_arith)
            requires
                i < count,
        ;
        push_handle(table, handles, handle_size, first + i);
        push_zeros(table, stride - handle_size);
        assert(table@ =~= old(table)@ + records(
            handles@,
            handle_size as nat,
            stride as nat,
            first as nat,
            (i + 1) as nat,
        ));
    }
}

impl TableLayout {
    /// The records fit their regions and the handles fit their records.
    pub open spec fn wf(self) -> bool {
        &&& 1 <= self.handle_size
        &&& self.handle_size <= self.handle_size_aligned
        &&& self.handle_size <= self.raygen_size
        &&& self.num_misses * self.handle_size_aligned <= self.misses_size
        &&& self.num_closest_hits * self.handle_size_aligned <= self.closest_hits_size
    }

    pub open spec fn spec_num_stages(self) -> int {
        1 + self.num_misses + self.num_closest_hits
    }

    /// Length of the whole table in bytes.
    pub open spec fn total_size(self) -> int {
        self.raygen_size + self.misses_size + self.closest_hits_size
    }

    /// The table's bytes: the ray-generation record padded to its region,
    /// then the miss region, then the closest-hit region.
    pub open spec fn table(self, handles: Seq<u8>) -> Seq<u8> {
        record(handles, self.handle_size as nat, 0, self.raygen_size as nat) + region(
            handles,
            self.handle_size as nat,
            self.handle_size_aligned as nat,
            1,
            self.num_misses as nat,
            self.misses_size as nat,
        ) + region(
            handles,
            self.handle_size as nat,
            self.handle_size_aligned as nat,
            (1 + self.num_misses) as nat,
            self.num_closest_hits as nat,
            self.closest_hits_size as nat,
        )
    }

    /// Offset in the table of the handle of stage `k`.
    pub open spec fn handle_offset(self, k: int) -> int {
        if k == 0 {
            0
        } else if k <= self.num_misses {
            self.raygen_size + (k - 1) * self.handle_size_aligned
        } else {
            self.raygen_size + self.misses_size + (k - 1 - self.num_misses)
                * self.handle_size_aligned
        }
    }

    /// The device's handle size and alignments and the group counts give a
    /// table that the renderer can lay out: no size overflows and every
    /// handle has at least one byte.
    pub open spec fn spec_fits(
        handle_size: usize,
        handle_alignment: usize,
        base_alignment: usize,
        num_misses: usize,
        num_closest_hits: usize,
    ) -> bool {
        let hsa = aligned(handle_size, handle_alignment);
        &&& handle_size >= 1
        &&& handle_alignment >= 1
        &&& base_alignment >= 1
        &&& handle_size + handle_alignment - 1 <= usize::MAX
        &&& handle_size + base_alignment - 1 <= usize::MAX
        &&& num_misses * hsa + base_alignment - 1 <= usize::MAX
        &&& num_closest_hits * hsa + base_alignment - 1 <= usize::MAX
        &&& aligned(handle_size, base_alignment) + aligned((num_misses * hsa) as usize, base_alignment)
            + aligned((num_closest_hits * hsa) as usize, base_alignment) <= usize::MAX
        &&& (1 + num_misses + num_closest_hits) * handle_size <= usize::MAX
    }

    /// Tests `spec_fits`, the condition under which a table is laid out and
    /// built.
    pub fn fits(
        handle_size: usize,
        handle_alignment: usize,
        base_alignment: usize,
        num_misses: usize,
        num_closest_hits: usize,
    ) -> (r: bool)
        ensures
            r == Self::spec_fits(
                handle_size,
                handle_alignment,
                base_alignment,
                num_misses,
                num_closest_hits,
            ),
    {
        if handle_size == 0 || handle_alignment == 0 || base_alignment == 0 {
            return false;
        }
        if handle_size > usize::MAX - (handle_alignment - 1) || handle_size > usize::MAX - (
        base_alignment - 1) {
            return false;
        }
        let hsa = align_to(handle_size, handle_alignment);
        let misses = match num_misses.checked_mul(hsa) {
            Some(m) => m,
            None => return false,
        };
        let hits = match num_closest_hits.checked_mul(hsa) {
            Some(h) => h,
            None => return false,
        };
        if misses > usize::MAX - (base_alignment - 1) || hits > usize::MAX - (base_alignment - 1) {
            return false;
        }
        let raygen_size = align_to(handle_size, base_alignment);
        let misses_size = align_to(misses, base_alignment);
        let hits_size = align_to(hits, base_alignment);
        let sizes_fit = match raygen_size.checked_add(misses_size) {
            Some(s) => s.checked_add(hits_size).is_some(),
            None => false,
        };
        if !sizes_fit {
            return false;
        }
        let stages = match 1usize.checked_add(num_misses) {
            Some(s) => s.checked_add(num_closest_hits),
            None => None,
        };
        match stages {
            Some(n) => n.checked_mul(handle_size).is_some(),
            None => {
                proof {
                    let k = 1 + num_misses + num_closest_hits;
                    assert(k * handle_size >= k) by (nonlinear_arith)
                        requires
                            handle_size >= 1,
                            k >= 0,
                    ;
                }
                false
            },
        }
    }

    /// Computes the region sizes from the group handle size, the handle and
    /// base alignments of the device and the numbers of miss and closest-hit
    /// groups.
    pub fn new(
        handle_size: usize,
        handle_alignment: usize,
        base_alignment: usize,
        num_misses: usize,
        num_closest_hits: usize,
    ) -> (layout: Self)
        requires
            handle_alignment >= 1,
            base_alignment >= 1,
            handle_size + handle_alignment - 1 <= usize::MAX,
            handle_size + base_alignment - 1 <= usize::MAX,
            num_misses * aligned(handle_size, handle_alignment) + base_alignment - 1
                <= usize::MAX,
            num_closest_hits * aligned(handle_size, handle_alignment) + base_alignment - 1
                <= usize::MAX,
        ensures
            layout.handle_size == handle_size,
            layout.num_misses == num_misses,
            layout.num_closest_hits == num_closest_hits,
            layout.handle_size_aligned == aligned(handle_size, handle_alignment),
            layout.raygen_size == aligned(handle_size, base_alignment),
            layout.misses_size == aligned(
                (num_misses * layout.handle_size_aligned) as usize,
                base_alignment,
            ),
            layout.closest_hits_size == aligned(
                (num_closest_hits * layout.handle_size_aligned) as usize,
                base_alignment,
            ),
            handle_size >= 1 ==> layout.wf(),
            Self::spec_fits(
                handle_size,
                handle_alignment,
                base_alignment,
                num_misses,
                num_closest_hits,
            ) ==> layout.wf() && layout.total_size() <= usize::MAX && layout.spec_num_stages()
                * layout.handle_size <= usize::MAX,
    {
        let handle_size_aligned = align_to(handle_size, handle_alignment);
        let raygen_size = align_to(handle_size, base_alignment);
        let misses_size = align_to(num_misses * handle_size_aligned, base_alignment);
        let closest_hits_size = align_to(num_closest_hits * handle_size_aligned, base_alignment);
        TableLayout {
            handle_size,
            handle_size_aligned,
            num_misses,
            num_closest_hits,
            raygen_size,
            misses_size,
            closest_hits_size,
        }
    }

    /// Lays the group handles out in a table: each handle at the start of its
    /// record and zeros everywhere else. `handles` holds one handle per stage,
    /// in pipeline order.
    pub fn build_table(&self, handles: &[u8]) -> (table: Vec<u8>)
        requires
            self.wf(),
            self.total_size() <= usize::MAX,
            handles@.len() == self.spec_num_stages() * self.handle_size,
        ensures
            table@ == self.table(handles@),
            table@.len() == self.total_size(),
    {
        let hs = self.handle_size;
        let hsa = self.handle_size_aligned;
        let nm = self.num_misses;
        let nh = self.num_closest_hits;
        proof {
            assert((1 + nm) * hs <= (1 + nm + nh) * hs) by (nonlinear_arith);
            assert(hs <= (1 + nm) * hs) by (nonlinear_arith);
            assert(1 + nm + nh <= (1 + nm + nh) * hs) by (nonlinear_arith)
                requires
                    hs >= 1,
            ;
        }
        let n = handles.len();
        let mut table: Vec<u8> = Vec::new();
        push_handle(&mut table, handles, hs, 0);
        push_zeros(&mut table, self.raygen_size - hs);
        push_records(&mut table, handles, hs, hsa, 1, nm);
        push_zeros(&mut table, self.misses_size - nm * hsa);
        push_records(&mut table, handles, hs, hsa, 1 + nm, nh);
        push_zeros(&mut table, self.closest_hits_size - nh * hsa);
        proof {
            lemma_records_len(handles@, hs as nat, hsa as nat, 1, nm as nat);
            lemma_records_len(handles@, hs as nat, hsa as nat, (1 + nm) as nat, nh as nat);
            assert(table@ =~= self.table(handles@));
        }
        table
    }

    /// The regions of a table stored at `base_address`: laid out back to
    /// back, each with the stride of its records; the callable region is
    /// empty.
    pub fn regions(&self, base_address: u64) -> (r: Regions)
        requires
            base_address + self.total_size() <= u64::MAX,
        ensures
            r.raygen == (StridedRegion {
                device_address: base_address,
                stride: self.raygen_size as u64,
                size: self.raygen_size as u64,
            }),
            r.misses == (StridedRegion {
                device_address: (base_address + self.raygen_size) as u64,
                stride: self.handle_size_aligned as u64,
                size: self.misses_size as u64,
            }),
            r.closest_hits == (StridedRegion {
                device_address: (base_address + self.raygen_size + self.misses_size) as u64,
                stride: self.handle_size_aligned as u64,
                size: self.closest_hits_size as u64,
            }),
            r.call == (StridedRegion { device_address: 0, stride: 0, size: 0 }),
    {
        let raygen = StridedRegion {
            device_address: base_address,
            stride: self.raygen_size as u64,
            size: self.raygen_size as u64,
        };
        let misses = StridedRegion {
            device_address: raygen.device_address + raygen.size,
            stride: self.handle_size_aligned as u64,
            size: self.misses_size as u64,
        };
        let closest_hits = StridedRegion {
            device_address: misses.device_address + misses.size,
            stride: self.handle_size_aligned as u64,
            size: self.closest_hits_size as u64,
        };
        let call = StridedRegion { device_address: 0, stride: 0, size: 0 };
        Regions { raygen, misses, closest_hits, call }
    }
}

/// Every stage's handle is found, byte for byte, at the start of its record
/// in the table.
pub proof fn lemma_table_holds_handles(layout: TableLayout, handles: Seq<u8>, k: int, j: int)
    requires
        layout.wf(),
        handles.len() == layout.spec_num_stages() * layout.handle_size,
        0 <= k < layout.spec_num_stages(),
        0 <= j < layout.handle_size,
    ensures
        0 <= layout.handle_offset(k) + j < layout.table(handles).len(),
        layout.table(handles)[layout.handle_offset(k) + j] == handles[k * layout.handle_size + j],
{
    let hs = layout.handle_size as nat;
    let hsa = layout.handle_size_aligned as nat;
    let nm = layout.num_misses as nat;
    let nh = layout.num_closest_hits as nat;
    let rs = layout.raygen_size as nat;
    let ms = layout.misses_size as nat;
    assert((1 + nm) * hs <= (1 + nm + nh) * hs) by (nonlinear_arith);
    assert(hs <= (1 + nm) * hs) by (nonlinear_arith);
    lemma_records_len(handles, hs, hsa, 1, nm);
    lemma_records_len(handles, hs, hsa, 1 + nm, nh);
    let t = layout.table(handles);
    let first = record(handles, hs, 0, rs);
    let misses = region(handles, hs, hsa, 1, nm, ms);
    let hits = region(handles, hs, hsa, 1 + nm, nh, layout.closest_hits_size as nat);
    assert(t == first + misses + hits);
    if k == 0 {
        assert(t[j] == first[j]);
    } else if k <= nm {
        let i = (k - 1) as nat;
        lemma_records_index(handles, hs, hsa, 1, nm, i, j as nat);
        assert(t[rs + i * hsa + j] == misses[i * hsa + j]);
        assert((1 + i) * hs + j == k * hs + j);
    } else {
        let i = (k - 1 - nm) as nat;
        lemma_records_index(handles, hs, hsa, 1 + nm, nh, i, j as nat);
        assert(t[rs + ms + i * hsa + j] == hits[i * hsa + j]);
        assert((1 + nm + i) * hs + j == k * hs + j);
    }
}

/// Position `p` of the table holds no byte of any handle.
pub open spec fn outside_handles(layout: TableLayout, p: int) -> bool {
    forall|k: int|
        0 <= k < layout.spec_num_stages() ==> p < #[trigger] layout.handle_offset(k) || p
            >= layout.handle_offset(k) + layout.handle_size
}

proof fn lemma_div_mod(x: int, d: int)
    requires
        d > 0,
        x >= 0,
    ensures
        x == (x / d) * d + x % d,
        0 <= x % d < d,
        x / d >= 0,
{
    assert(x == (x / d) * d + x % d && 0 <= x % d < d && x / d >= 0) by (nonlinear_arith)
        requires
            d > 0,
            x >= 0,
    ;
}

spec fn record_start(i: int, stride: nat) -> int {
    i * stride
}

proof fn lemma_region_padding(
    handles: Seq<u8>,
    hs: nat,
    stride: nat,
    first: nat,
    count: nat,
    size: nat,
    q: int,
)
    requires
        1 <= hs <= stride,
        count * stride <= size,
        (first + count) * hs <= handles.len(),
        0 <= q < size,
        forall|i: int|
            0 <= i < count ==> q < #[trigger] record_start(i, stride) || q >= record_start(
                i,
                stride,
            ) + hs,
    ensures
        region(handles, hs, stride, first, count, size).len() == size,
        region(handles, hs, stride, first, count, size)[q] == 0,
{
    lemma_records_len(handles, hs, stride, first, count);
    let recs = records(handles, hs, stride, first, count);
    let r = region(handles, hs, stride, first, count, size);
    if q < count * stride {
        lemma_div_mod(q, stride as int);
        let i = q / (stride as int);
        let j = q % (stride as int);
        assert(i < count) by (nonlinear_arith)
            requires
                q == i * stride + j,
                0 <= j,
                q < count * stride,
                stride > 0,
        ;
        assert(q >= record_start(i, stride));
        assert(j >= hs);
        lemma_records_index(handles, hs, stride, first, count, i as nat, j as nat);
        assert(r[q] == recs[q]);
    } else {
        assert(r[q] == zeros((size - count * stride) as nat)[q - count * stride]);
    }
}

/// Every byte of the table outside the handles is zero: the padding of each
/// record and of each region.
pub proof fn lemma_table_padding_is_zero(layout: TableLayout, handles: Seq<u8>, p: int)
    requires
        layout.wf(),
        handles.len() == layout.spec_num_stages() * layout.handle_size,
        0 <= p < layout.total_size(),
        outside_handles(layout, p),
    ensures
        layout.table(handles).len() == layout.total_size(),
        layout.table(handles)[p] == 0,
{
    let hs = layout.handle_size as nat;
    let hsa = layout.handle_size_aligned as nat;
    let nm = layout.num_misses as nat;
    let nh = layout.num_closest_hits as nat;
    let rs = layout.raygen_size as nat;
    let ms = layout.misses_size as nat;
    let cs = layout.closest_hits_size as nat;
    assert((1 + nm) * hs <= (1 + nm + nh) * hs) by (nonlinear_arith);
    assert(hs <= (1 + nm) * hs) by (nonlinear_arith);
    lemma_records_len(handles, hs, hsa, 1, nm);
    lemma_records_len(handles, hs, hsa, 1 + nm, nh);
    let t = layout.table(handles);
    let first = record(handles, hs, 0, rs);
    let misses = region(handles, hs, hsa, 1, nm, ms);
    let hits = region(handles, hs, hsa, 1 + nm, nh, cs);
    assert(t == first + misses + hits);
    assert(layout.handle_offset(0) == 0);
    if p < rs {
        assert(p >= hs);
        assert(t[p] == first[p]);
    } else if p < rs + ms {
        let q = p - rs;
        assert forall|i: int| 0 <= i < nm implies q < #[trigger] record_start(i, hsa) || q
            >= record_start(i, hsa) + hs by {
            assert(layout.handle_offset(1 + i) == rs + i * hsa);
        }
        lemma_region_padding(handles, hs, hsa, 1, nm, ms, q);
        assert(t[p] == misses[q]);
    } else {
        let q = p - rs - ms;
        assert forall|i: int| 0 <= i < nh implies q < #[trigger] record_start(i, hsa) || q
            >= record_start(i, hsa) + hs by {
            assert(layout.handle_offset(1 + nm + i) == rs + ms + i * hsa);
        }
        lemma_region_padding(handles, hs, hsa, 1 + nm, nh, cs, q);
        assert(t[p] == hits[q]);
    }
}

/// The region a trace-rays command reads for miss `i` or hit `i` (region
/// address plus `i` strides) is where the table holds that stage's handle.
pub proof fn lemma_region_strides_reach_handles(layout: TableLayout, base: int, i: int)
    requires
        0 <= i,
    ensures
        i < layout.num_misses ==> base + layout.raygen_size + i * layout.handle_size_aligned
            == base + layout.handle_offset(1 + i),
        i < layout.num_closest_hits ==> base + layout.raygen_size + layout.misses_size + i
            * layout.handle_size_aligned == base + layout.handle_offset(
            1 + layout.num_misses + i,
        ),
        base + 0 == base + layout.handle_offset(0),
{
}

} // verus!

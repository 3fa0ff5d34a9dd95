//! The device features the renderer needs, and the check of a physical
//! device's supported features against them.

use vstd::prelude::*;

verus! {

/// Core Vulkan 1.0 features the renderer needs.
pub struct V10Features {
    pub sampler_anisotropy: bool,
    pub shader_int64: bool,
}

/// Core Vulkan 1.1 features the renderer needs.
pub struct V11Features {
    pub storage_buffer16_bit_access: bool,
    pub uniform_and_storage_buffer16_bit_access: bool,
}

/// Core Vulkan 1.2 features the renderer needs.
pub struct V12Features {
    pub buffer_device_address: bool,
    pub descriptor_binding_partially_bound: bool,
    pub descriptor_binding_variable_descriptor_count: bool,
    pub runtime_descriptor_array: bool,
    pub scalar_block_layout: bool,
    pub uniform_and_storage_buffer8_bit_access: bool,
    pub vulkan_memory_model: bool,
}

/// Core Vulkan 1.3 features the renderer needs.
pub struct V13Features {
    pub dynamic_rendering: bool,
    pub synchronization2: bool,
}

/// Acceleration-structure features the renderer needs.
pub struct AccelerationStructureFeatures {
    pub acceleration_structure: bool,
}

/// Ray-tracing pipeline features the renderer needs.
pub struct RayTracingPipelineFeatures {
    pub ray_tracing_pipeline: bool,
}

/// The needed features that a physical device supports, grouped as the driver
/// reports them.
pub struct Features {
    pub v_1_0: V10Features,
    pub v_1_1: V11Features,
    pub v_1_2: V12Features,
    pub v_1_3: V13Features,
    pub acceleration_structure: AccelerationStructureFeatures,
    pub ray_tracing_pipeline: RayTracingPipelineFeatures,
}

/// A feature flag as the driver reports it (a 32-bit boolean) is set when it
/// is not zero.
pub open spec fn flag_set(raw: u32) -> bool {
    raw > 0
}

impl V10Features {
    pub open spec fn spec_supports_requirements(&self) -> bool {
        self.sampler_anisotropy && self.shader_int64
    }

    /// Reads the driver's flags.
    pub fn from_flags(sampler_anisotropy: u32, shader_int64: u32) -> (r: Self)
        ensures
            r.sampler_anisotropy == flag_set(sampler_anisotropy),
            r.shader_int64 == flag_set(shader_int64),
    {
        V10Features { sampler_anisotropy: sampler_anisotropy > 0, shader_int64: shader_int64 > 0 }
    }

    /// The 1.0 features the renderer enables on its device.
    pub open spec fn spec_required() -> Self {
        V10Features { sampler_anisotropy: true, shader_int64: true }
    }

    pub fn required() -> (r: Self)
        ensures
            r == Self::spec_required(),
    {
        V10Features { sampler_anisotropy: true, shader_int64: true }
    }

    /// Every needed 1.0 feature is supported.
    pub fn supports_requirements(&self) -> (r: bool)
        ensures
            r == (self.sampler_anisotropy && self.shader_int64),
    {
        self.sampler_anisotropy && self.shader_int64
    }
}

impl V11Features {
    pub open spec fn spec_supports_requirements(&self) -> bool {
        self.storage_buffer16_bit_access && self.uniform_and_storage_buffer16_bit_access
    }

    /// Reads the driver's flags.
    pub fn from_flags(
        storage_buffer16_bit_access: u32,
        uniform_and_storage_buffer16_bit_access: u32,
    ) -> (r: Self)
        ensures
            r.storage_buffer16_bit_access == flag_set(storage_buffer16_bit_access),
            r.uniform_and_storage_buffer16_bit_access == flag_set(
                uniform_and_storage_buffer16_bit_access,
            ),
    {
        V11Features {
            storage_buffer16_bit_access: storage_buffer16_bit_access > 0,
            uniform_and_storage_buffer16_bit_access: uniform_and_storage_buffer16_bit_access > 0,
        }
    }

    /// The 1.1 features the renderer enables on its device.
    pub open spec fn spec_required() -> Self {
        V11Features {
            storage_buffer16_bit_access: true,
            uniform_and_storage_buffer16_bit_access: true,
        }
    }

    pub fn required() -> (r: Self)
        ensures
            r == Self::spec_required(),
    {
        V11Features {
            storage_buffer16_bit_access: true,
            uniform_and_storage_buffer16_bit_access: true,
        }
    }

    /// Every needed 1.1 feature is supported.
    pub fn supports_requirements(&self) -> (r: bool)
        ensures
            r == (self.storage_buffer16_bit_access
                && self.uniform_and_storage_buffer16_bit_access),
    {
        self.storage_buffer16_bit_access && self.uniform_and_storage_buffer16_bit_access
    }
}

impl V12Features {
    pub open spec fn spec_supports_requirements(&self) -> bool {
        &&& self.buffer_device_address
        &&& self.descriptor_binding_partially_bound
        &&& self.descriptor_binding_variable_descriptor_count
        &&& self.runtime_descriptor_array
        &&& self.scalar_block_layout
        &&& self.uniform_and_storage_buffer8_bit_access
        &&& self.vulkan_memory_model
    }

    /// Reads the driver's flags.
    pub fn from_flags(
        buffer_device_address: u32,
        descriptor_binding_partially_bound: u32,
        descriptor_binding_variable_descriptor_count: u32,
        runtime_descriptor_array: u32,
        scalar_block_layout: u32,
        uniform_and_storage_buffer8_bit_access: u32,
        vulkan_memory_model: u32,
    ) -> (r: Self)
        ensures
            r.buffer_device_address == flag_set(buffer_device_address),
            r.descriptor_binding_partially_bound == flag_set(descriptor_binding_partially_bound),
            r.descriptor_binding_variable_descriptor_count == flag_set(
                descriptor_binding_variable_descriptor_count,
            ),
            r.runtime_descriptor_array == flag_set(runtime_descriptor_array),
            r.scalar_block_layout == flag_set(scalar_block_layout),
            r.uniform_and_storage_buffer8_bit_access == flag_set(
                uniform_and_storage_buffer8_bit_access,
            ),
            r.vulkan_memory_model == flag_set(vulkan_memory_model),
    {
        V12Features {
            buffer_device_address: buffer_device_address > 0,
            descriptor_binding_partially_bound: descriptor_binding_partially_bound > 0,
            descriptor_binding_variable_descriptor_count: descriptor_binding_variable_descriptor_count
                > 0,
            runtime_descriptor_array: runtime_descriptor_array > 0,
            scalar_block_layout: scalar_block_layout > 0,
            uniform_and_storage_buffer8_bit_access: uniform_and_storage_buffer8_bit_access > 0,
            vulkan_memory_model: vulkan_memory_model > 0,
        }
    }

    /// The 1.2 features the renderer enables on its device.
    pub open spec fn spec_required() -> Self {
        V12Features {
            buffer_device_address: true,
            descriptor_binding_partially_bound: true,
            descriptor_binding_variable_descriptor_count: true,
            runtime_descriptor_array: true,
            scalar_block_layout: true,
            uniform_and_storage_buffer8_bit_access: true,
            vulkan_memory_model: true,
        }
    }

    pub fn required() -> (r: Self)
        ensures
            r == Self::spec_required(),
    {
        V12Features {
            buffer_device_address: true,
            descriptor_binding_partially_bound: true,
            descriptor_binding_variable_descriptor_count: true,
            runtime_descriptor_array: true,
            scalar_block_layout: true,
            uniform_and_storage_buffer8_bit_access: true,
            vulkan_memory_model: true,
        }
    }

    /// Every needed 1.2 feature is supported.
    pub fn supports_requirements(&self) -> (r: bool)
        ensures
            r == self.spec_supports_requirements(),
    {
        self.buffer_device_address && self.descriptor_binding_partially_bound
            && self.descriptor_binding_variable_descriptor_count && self.runtime_descriptor_array
            && self.scalar_block_layout && self.uniform_and_storage_buffer8_bit_access
            && self.vulkan_memory_model
    }
}

impl V13Features {
    pub open spec fn spec_supports_requirements(&self) -> bool {
        self.dynamic_rendering && self.synchronization2
    }

    /// Reads the driver's flags.
    pub fn from_flags(dynamic_rendering: u32, synchronization2: u32) -> (r: Self)
        ensures
            r.dynamic_rendering == flag_set(dynamic_rendering),
            r.synchronization2 == flag_set(synchronization2),
    {
        V13Features { dynamic_rendering: dynamic_rendering > 0, synchronization2: synchronization2 > 0 }
    }

    /// The 1.3 features the renderer enables on its device.
    pub open spec fn spec_required() -> Self {
        V13Features { dynamic_rendering: true, synchronization2: true }
    }

    pub fn required() -> (r: Self)
        ensures
            r == Self::spec_required(),
    {
        V13Features { dynamic_rendering: true, synchronization2: true }
    }

    /// Every needed 1.3 feature is supported.
    pub fn supports_requirements(&self) -> (r: bool)
        ensures
            r == (self.dynamic_rendering && self.synchronization2),
    {
        self.dynamic_rendering && self.synchronization2
    }
}

impl AccelerationStructureFeatures {
    pub open spec fn spec_supports_requirements(&self) -> bool {
        self.acceleration_structure
    }

    /// Reads the driver's flag.
    pub fn from_flags(acceleration_structure: u32) -> (r: Self)
        ensures
            r.acceleration_structure == flag_set(acceleration_structure),
    {
        AccelerationStructureFeatures { acceleration_structure: acceleration_structure > 0 }
    }

    /// The acceleration-structure feature the renderer enables on its device.
    pub open spec fn spec_required() -> Self {
        AccelerationStructureFeatures { acceleration_structure: true }
    }

    pub fn required() -> (r: Self)
        ensures
            r == Self::spec_required(),
    {
        AccelerationStructureFeatures { acceleration_structure: true }
    }

    /// Acceleration structures are supported.
    pub fn supports_requirements(&self) -> (r: bool)
        ensures
            r == self.acceleration_structure,
    {
        self.acceleration_structure
    }
}

impl RayTracingPipelineFeatures {
    pub open spec fn spec_supports_requirements(&self) -> bool {
        self.ray_tracing_pipeline
    }

    /// Reads the driver's flag.
    pub fn from_flags(ray_tracing_pipeline: u32) -> (r: Self)
        ensures
            r.ray_tracing_pipeline == flag_set(ray_tracing_pipeline),
    {
        RayTracingPipelineFeatures { ray_tracing_pipeline: ray_tracing_pipeline > 0 }
    }

    /// The ray-tracing pipeline feature the renderer enables on its device.
    pub open spec fn spec_required() -> Self {
        RayTracingPipelineFeatures { ray_tracing_pipeline: true }
    }

    pub fn required() -> (r: Self)
        ensures
            r == Self::spec_required(),
    {
        RayTracingPipelineFeatures { ray_tracing_pipeline: true }
    }

    /// Ray-tracing pipelines are supported.
    pub fn supports_requirements(&self) -> (r: bool)
        ensures
            r == self.ray_tracing_pipeline,
    {
        self.ray_tracing_pipeline
    }
}

impl Features {
    pub open spec fn spec_supports_requirements(&self) -> bool {
        &&& self.v_1_0.spec_supports_requirements()
        &&& self.v_1_1.spec_supports_requirements()
        &&& self.v_1_2.spec_supports_requirements()
        &&& self.v_1_3.spec_supports_requirements()
        &&& self.acceleration_structure.spec_supports_requirements()
        &&& self.ray_tracing_pipeline.spec_supports_requirements()
    }

    /// All the features the renderer enables on its device.
    pub open spec fn spec_required() -> Self {
        Features {
            v_1_0: V10Features::spec_required(),
            v_1_1: V11Features::spec_required(),
            v_1_2: V12Features::spec_required(),
            v_1_3: V13Features::spec_required(),
            acceleration_structure: AccelerationStructureFeatures::spec_required(),
            ray_tracing_pipeline: RayTracingPipelineFeatures::spec_required(),
        }
    }

    pub fn required() -> (r: Self)
        ensures
            r == Self::spec_required(),
    {
        Features {
            v_1_0: V10Features::required(),
            v_1_1: V11Features::required(),
            v_1_2: V12Features::required(),
            v_1_3: V13Features::required(),
            acceleration_structure: AccelerationStructureFeatures::required(),
            ray_tracing_pipeline: RayTracingPipelineFeatures::required(),
        }
    }

    /// Every needed feature of every group is supported.
    pub fn supports_requirements(&self) -> (r: bool)
        ensures
            r == self.spec_supports_requirements(),
    {
        self.v_1_0.supports_requirements() && self.v_1_1.supports_requirements()
            && self.v_1_2.supports_requirements() && self.v_1_3.supports_requirements()
            && self.acceleration_structure.supports_requirements()
            && self.ray_tracing_pipeline.supports_requirements()
    }
}

/// The check accepts a device exactly when the device reports every 1.0
/// flag that `required` enables, and the required flags pass the check.
pub proof fn lemma_v10_checks_required(sampler_anisotropy: u32, shader_int64: u32)
    ensures
        V10Features::spec_required().spec_supports_requirements(),
        ({
            let s = V10Features {
                sampler_anisotropy: flag_set(sampler_anisotropy),
                shader_int64: flag_set(shader_int64),
            };
            let r = V10Features::spec_required();
            s.spec_supports_requirements() <==> (r.sampler_anisotropy ==> sampler_anisotropy > 0)
                && (r.shader_int64 ==> shader_int64 > 0)
        }),
{
}

/// The check accepts a device exactly when the device reports every 1.1
/// flag that `required` enables, and the required flags pass the check.
pub proof fn lemma_v11_checks_required(a: u32, b: u32)
    ensures
        V11Features::spec_required().spec_supports_requirements(),
        ({
            let s = V11Features {
                storage_buffer16_bit_access: flag_set(a),
                uniform_and_storage_buffer16_bit_access: flag_set(b),
            };
            let r = V11Features::spec_required();
            s.spec_supports_requirements() <==> (r.storage_buffer16_bit_access ==> a > 0) && (
            r.uniform_and_storage_buffer16_bit_access ==> b > 0)
        }),
{
}

/// The check accepts a device exactly when the device reports every 1.2
/// flag that `required` enables, and the required flags pass the check.
pub proof fn lemma_v12_checks_required(a: u32, b: u32, c: u32, d: u32, e: u32, f: u32, g: u32)
    ensures
        V12Features::spec_required().spec_supports_requirements(),
        ({
            let s = V12Features {
                buffer_device_address: flag_set(a),
                descriptor_binding_partially_bound: flag_set(b),
                descriptor_binding_variable_descriptor_count: flag_set(c),
                runtime_descriptor_array: flag_set(d),
                scalar_block_layout: flag_set(e),
                uniform_and_storage_buffer8_bit_access: flag_set(f),
                vulkan_memory_model: flag_set(g),
            };
            let r = V12Features::spec_required();
            s.spec_supports_requirements() <==> {
                &&& r.buffer_device_address ==> a > 0
                &&& r.descriptor_binding_partially_bound ==> b > 0
                &&& r.descriptor_binding_variable_descriptor_count ==> c > 0
                &&& r.runtime_descriptor_array ==> d > 0
                &&& r.scalar_block_layout ==> e > 0
                &&& r.uniform_and_storage_buffer8_bit_access ==> f > 0
                &&& r.vulkan_memory_model ==> g > 0
            }
        }),
{
}

/// The check accepts a device exactly when the device reports every 1.3
/// flag that `required` enables, and the required flags pass the check.
pub proof fn lemma_v13_checks_required(a: u32, b: u32)
    ensures
        V13Features::spec_required().spec_supports_requirements(),
        ({
            let s = V13Features { dynamic_rendering: flag_set(a), synchronization2: flag_set(b) };
            let r = V13Features::spec_required();
            s.spec_supports_requirements() <==> (r.dynamic_rendering ==> a > 0) && (
            r.synchronization2 ==> b > 0)
        }),
{
}

/// The check accepts a device exactly when it reports the acceleration
/// structure flag that `required` enables, and the required flag passes.
pub proof fn lemma_acceleration_structure_checks_required(a: u32)
    ensures
        AccelerationStructureFeatures::spec_required().spec_supports_requirements(),
        ({
            let s = AccelerationStructureFeatures { acceleration_structure: flag_set(a) };
            s.spec_supports_requirements() <==> (
            AccelerationStructureFeatures::spec_required().acceleration_structure ==> a > 0)
        }),
{
}

/// The check accepts a device exactly when it reports the ray-tracing
/// pipeline flag that `required` enables, and the required flag passes.
pub proof fn lemma_ray_tracing_pipeline_checks_required(a: u32)
    ensures
        RayTracingPipelineFeatures::spec_required().spec_supports_requirements(),
        ({
            let s = RayTracingPipelineFeatures { ray_tracing_pipeline: flag_set(a) };
            s.spec_supports_requirements() <==> (
            RayTracingPipelineFeatures::spec_required().ray_tracing_pipeline ==> a > 0)
        }),
{
}

/// A device that has every feature the renderer enables passes the check.
pub proof fn lemma_required_features_pass()
    ensures
        Features::spec_required().spec_supports_requirements(),
{
}

/// A device passes the whole check exactly when it has every flag of every
/// group that `Features::required` enables: a single missing flag, in any
/// group, rejects the device.
pub proof fn lemma_features_check_covers_required(f: Features)
    ensures
        ({
            let r = Features::spec_required();
            f.spec_supports_requirements() <==> {
                &&& r.v_1_0.sampler_anisotropy ==> f.v_1_0.sampler_anisotropy
                &&& r.v_1_0.shader_int64 ==> f.v_1_0.shader_int64
                &&& r.v_1_1.storage_buffer16_bit_access ==> f.v_1_1.storage_buffer16_bit_access
                &&& r.v_1_1.uniform_and_storage_buffer16_bit_access
                    ==> f.v_1_1.uniform_and_storage_buffer16_bit_access
                &&& r.v_1_2.buffer_device_address ==> f.v_1_2.buffer_device_address
                &&& r.v_1_2.descriptor_binding_partially_bound
                    ==> f.v_1_2.descriptor_binding_partially_bound
                &&& r.v_1_2.descriptor_binding_variable_descriptor_count
                    ==> f.v_1_2.descriptor_binding_variable_descriptor_count
                &&& r.v_1_2.runtime_descriptor_array ==> f.v_1_2.runtime_descriptor_array
                &&& r.v_1_2.scalar_block_layout ==> f.v_1_2.scalar_block_layout
                &&& r.v_1_2.uniform_and_storage_buffer8_bit_access
                    ==> f.v_1_2.uniform_and_storage_buffer8_bit_access
                &&& r.v_1_2.vulkan_memory_model ==> f.v_1_2.vulkan_memory_model
                &&& r.v_1_3.dynamic_rendering ==> f.v_1_3.dynamic_rendering
                &&& r.v_1_3.synchronization2 ==> f.v_1_3.synchronization2
                &&& r.acceleration_structure.acceleration_structure
                    ==> f.acceleration_structure.acceleration_structure
                &&& r.ray_tracing_pipeline.ray_tracing_pipeline
                    ==> f.ray_tracing_pipeline.ray_tracing_pipeline
            }
        }),
        !f.v_1_3.dynamic_rendering ==> !f.spec_supports_requirements(),
        !f.v_1_3.synchronization2 ==> !f.spec_supports_requirements(),
{
}

} // verus!

//! Buffer sizing and the two buffer descriptors of the flow.
//!
//! The compute buffer is device-local storage and the copy source; the
//! staging buffer is host-mappable and the copy destination. Both are
//! always planned with the same byte size.

use vstd::prelude::*;

use crate::errors::GpuError;

verus! {

/// The byte size of both buffers, fixed at planning time from the
/// element count and the element size.
#[derive(Clone, Copy, Debug, PartialEq, Eq, Structural)]
pub struct BufferPlan {
    pub element_count: u64,
    pub element_size: u64,
    pub size: u64,
}

impl BufferPlan {
    /// The plan records the exact, positive product of count and size.
    pub open spec fn wf(self) -> bool {
        &&& self.element_count > 0
        &&& self.element_size > 0
        &&& self.size == self.element_count * self.element_size
    }
}

/// Computes the shared byte size of the two buffers.
///
/// The size must be positive and representable in the device's 64-bit
/// size type; otherwise the plan is rejected before any allocation.
pub fn plan_buffers(element_count: u64, element_size: u64) -> (r: Result<BufferPlan, GpuError>)
    ensures
        r is Ok <==> element_count > 0 && element_size > 0
            && element_count * element_size <= u64::MAX,
        r matches Ok(p) ==> p == (BufferPlan {
            element_count,
            element_size,
            size: (element_count * element_size) as u64,
        }) && p.wf(),
        r is Err ==> r->Err_0 == GpuError::SizeConversion,
{
    if element_count == 0 || element_size == 0 {
        return Err(GpuError::SizeConversion);
    }
    match element_count.checked_mul(element_size) {
        Some(size) => Ok(BufferPlan { element_count, element_size, size }),
        None => Err(GpuError::SizeConversion),
    }
}

/// A buffer descriptor: fixed byte size and usage flags.
#[derive(Clone, Copy, Debug, PartialEq, Eq, Structural)]
pub struct BufferDesc {
    pub size: u64,
    /// Device-read-write storage, bindable to the compute stage.
    pub storage: bool,
    /// May serve as the source of a device-side copy.
    pub copy_src: bool,
    /// Host-mappable for reading.
    pub map_read: bool,
    /// May serve as the destination of a device-side copy.
    pub copy_dst: bool,
    pub mapped_at_creation: bool,
}

/// The descriptor of the compute buffer for a given plan.
pub open spec fn spec_compute_buffer_desc(plan: BufferPlan) -> BufferDesc {
    BufferDesc {
        size: plan.size,
        storage: true,
        copy_src: true,
        map_read: false,
        copy_dst: false,
        mapped_at_creation: false,
    }
}

/// The descriptor of the staging buffer for a given plan.
pub open spec fn spec_staging_buffer_desc(plan: BufferPlan) -> BufferDesc {
    BufferDesc {
        size: plan.size,
        storage: false,
        copy_src: false,
        map_read: true,
        copy_dst: true,
        mapped_at_creation: false,
    }
}

/// Builds the compute buffer's descriptor: storage plus copy source.
pub fn compute_buffer_desc(plan: &BufferPlan) -> (d: BufferDesc)
    ensures
        d == spec_compute_buffer_desc(*plan),
{
    BufferDesc {
        size: plan.size,
        storage: true,
        copy_src: true,
        map_read: false,
        copy_dst: false,
        mapped_at_creation: false,
    }
}

/// Builds the staging buffer's descriptor: map-read plus copy destination.
pub fn staging_buffer_desc(plan: &BufferPlan) -> (d: BufferDesc)
    ensures
        d == spec_staging_buffer_desc(*plan),
{
    BufferDesc {
        size: plan.size,
        storage: false,
        copy_src: false,
        map_read: true,
        copy_dst: true,
        mapped_at_creation: false,
    }
}

/// The two buffers of one plan are always allocated with identical
/// byte sizes, and neither is pre-mapped.
pub proof fn lemma_buffer_sizes_match(plan: BufferPlan)
    ensures
        spec_compute_buffer_desc(plan).size == spec_staging_buffer_desc(plan).size,
        !spec_compute_buffer_desc(plan).mapped_at_creation,
        !spec_staging_buffer_desc(plan).mapped_at_creation,
{
}

/// Checks a device-side copy of `len` bytes against both descriptors.
///
/// A copy is legal only when the source may be copied from, the
/// destination may be copied to, and both ranges lie inside their
/// buffers; anything else is rejected before submission, so a size
/// mismatch can never truncate silently.
pub fn validate_copy(
    src: &BufferDesc,
    dst: &BufferDesc,
    src_offset: u64,
    dst_offset: u64,
    len: u64,
) -> (r: Result<(), GpuError>)
    ensures
        r is Ok <==> src.copy_src && dst.copy_dst
            && src_offset + len <= src.size && dst_offset + len <= dst.size,
        r is Err ==> r->Err_0 == GpuError::Recording,
{
    if !src.copy_src || !dst.copy_dst {
        return Err(GpuError::Recording);
    }
    if src_offset > src.size || len > src.size - src_offset {
        return Err(GpuError::Recording);
    }
    if dst_offset > dst.size || len > dst.size - dst_offset {
        return Err(GpuError::Recording);
    }
    Ok(())
}

} // verus!

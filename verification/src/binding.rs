//! The binding contract between the compute program and the host.
//!
//! A binding layout declares one slot: its index, visibility, buffer
//! class, access mode and minimum size. The program's own declaration
//! must match it exactly, or pipeline linkage fails; a concrete binding
//! then associates the slot with the compute buffer.

use vstd::prelude::*;

use crate::buffers::BufferDesc;
use crate::errors::GpuError;

verus! {

/// The class of buffer a binding slot accepts.
#[derive(Clone, Copy, Debug, PartialEq, Eq, Structural)]
pub enum BufferClass {
    Storage,
    Uniform,
}

/// The host-side declaration of one binding slot.
#[derive(Clone, Copy, Debug, PartialEq, Eq, Structural)]
pub struct BindingLayoutEntry {
    pub slot: u32,
    /// Visible only to the compute stage.
    pub compute_visible: bool,
    pub class: BufferClass,
    /// Access mode: a read-only storage binding cannot be written.
    pub read_only: bool,
    pub has_dynamic_offset: bool,
    /// The bound buffer must hold at least this many bytes.
    pub min_binding_size: u64,
}

/// The binding the compute program itself declares.
#[derive(Clone, Copy, Debug, PartialEq, Eq, Structural)]
pub struct ShaderBinding {
    pub slot: u32,
    pub class: BufferClass,
    pub read_only: bool,
}

/// The layout the flow declares: slot 0, compute-only visibility,
/// read-write storage of at least `size` bytes, no dynamic offset.
pub open spec fn spec_storage_layout_entry(size: u64) -> BindingLayoutEntry {
    BindingLayoutEntry {
        slot: 0,
        compute_visible: true,
        class: BufferClass::Storage,
        read_only: false,
        has_dynamic_offset: false,
        min_binding_size: size,
    }
}

/// Builds the flow's single layout entry for a buffer of `size` bytes.
pub fn storage_layout_entry(size: u64) -> (e: BindingLayoutEntry)
    ensures
        e == spec_storage_layout_entry(size),
{
    BindingLayoutEntry {
        slot: 0,
        compute_visible: true,
        class: BufferClass::Storage,
        read_only: false,
        has_dynamic_offset: false,
        min_binding_size: size,
    }
}

/// The binding the fixed compute program declares: slot 0, read-write
/// storage.
pub open spec fn spec_program_binding() -> ShaderBinding {
    ShaderBinding { slot: 0, class: BufferClass::Storage, read_only: false }
}

/// The binding declared inside the fixed compute program.
pub fn program_binding() -> (b: ShaderBinding)
    ensures
        b == spec_program_binding(),
{
    ShaderBinding { slot: 0, class: BufferClass::Storage, read_only: false }
}

/// Exact agreement between the program's declaration and the host layout:
/// same slot, same buffer class, same access mode, and the slot visible
/// to the compute stage.
pub open spec fn layout_matches(shader: ShaderBinding, layout: BindingLayoutEntry) -> bool {
    &&& shader.slot == layout.slot
    &&& shader.class == layout.class
    &&& shader.read_only == layout.read_only
    &&& layout.compute_visible
}

/// A linked compute pipeline: the program bound to its layout.
#[derive(Clone, Copy, Debug, PartialEq, Eq, Structural)]
pub struct PipelineModel {
    pub layout: BindingLayoutEntry,
}

/// Links the program with the host layout into a pipeline.
///
/// Linkage succeeds exactly when the two declarations agree; any
/// divergence in slot index, buffer class, access mode or visibility is
/// rejected, never silently rebound.
pub fn link_pipeline(
    shader: &ShaderBinding,
    layout: &BindingLayoutEntry,
) -> (r: Result<PipelineModel, GpuError>)
    ensures
        r is Ok <==> layout_matches(*shader, *layout),
        r matches Ok(p) ==> p.layout == *layout,
        r is Err ==> r->Err_0 == GpuError::PipelineLayoutMismatch,
{
    if shader.slot == layout.slot
        && shader.class == layout.class
        && shader.read_only == layout.read_only
        && layout.compute_visible
    {
        Ok(PipelineModel { layout: *layout })
    } else {
        Err(GpuError::PipelineLayoutMismatch)
    }
}

/// A concrete binding: the layout's slot filled with one buffer.
#[derive(Clone, Copy, Debug, PartialEq, Eq, Structural)]
pub struct BufferBindingModel {
    pub slot: u32,
    pub buffer: BufferDesc,
    pub offset: u64,
}

/// Associates the layout's slot with a buffer, whole range at offset 0.
///
/// Only a storage-usable buffer large enough for the layout's minimum
/// size may be bound; the staging buffer has no storage usage and is
/// therefore never bindable, it is reachable only through a copy.
pub fn bind_buffer(
    layout: &BindingLayoutEntry,
    buffer: &BufferDesc,
) -> (r: Result<BufferBindingModel, GpuError>)
    ensures
        r is Ok <==> (layout.class == BufferClass::Storage ==> buffer.storage)
            && buffer.size >= layout.min_binding_size,
        r matches Ok(b) ==> b == (BufferBindingModel {
            slot: layout.slot,
            buffer: *buffer,
            offset: 0,
        }),
        r is Err ==> r->Err_0 == GpuError::PipelineLayoutMismatch,
{
    let class_ok = match layout.class {
        BufferClass::Storage => buffer.storage,
        BufferClass::Uniform => true,
    };
    if class_ok && buffer.size >= layout.min_binding_size {
        Ok(BufferBindingModel { slot: layout.slot, buffer: *buffer, offset: 0 })
    } else {
        Err(GpuError::PipelineLayoutMismatch)
    }
}

} // verus!

//! The error taxonomy of the dispatch flow.
//!
//! Every fallible step surfaces one of these immediately; there is no
//! retry and no partial result.

use vstd::prelude::*;

verus! {

/// One terminal failure of the dispatch flow.
#[derive(Clone, Copy, Debug, PartialEq, Eq, Structural)]
pub enum GpuError {
    /// No physical device satisfies the adapter request.
    NoCompatibleDevice,
    /// The physical device refused to open a logical device.
    DeviceCreation,
    /// The device rejected a buffer descriptor.
    Allocation,
    /// A byte size was zero or not representable in the device's size type.
    SizeConversion,
    /// The compute program source is invalid.
    ShaderCompilation,
    /// The program's declared bindings diverge from the host layout.
    PipelineLayoutMismatch,
    /// An operation was recorded in an illegal recorder state.
    Recording,
    /// The asynchronous map request failed, or the mapped range was read
    /// outside the mapped state.
    MapFailed,
    /// The completion channel disconnected before signalling.
    Disconnected,
}

impl GpuError {
    /// The human-readable description surfaced to the caller.
    pub open spec fn description(self) -> Seq<char> {
        match self {
            GpuError::NoCompatibleDevice => "no adapters meet the requirements"@,
            GpuError::DeviceCreation => "the adapter could not open a logical device"@,
            GpuError::Allocation => "the device rejected a buffer descriptor"@,
            GpuError::SizeConversion => "buffer size is zero or not representable"@,
            GpuError::ShaderCompilation => "the compute program source is invalid"@,
            GpuError::PipelineLayoutMismatch => "program bindings do not match the host layout"@,
            GpuError::Recording => "operation recorded in an illegal recorder state"@,
            GpuError::MapFailed => "mapping the staging buffer failed"@,
            GpuError::Disconnected => "the completion channel disconnected"@,
        }
    }

    /// A human-readable description of the failure.
    pub fn describe(&self) -> (s: &'static str)
        ensures
            s@ == self.description(),
    {
        match self {
            GpuError::NoCompatibleDevice => "no adapters meet the requirements",
            GpuError::DeviceCreation => "the adapter could not open a logical device",
            GpuError::Allocation => "the device rejected a buffer descriptor",
            GpuError::SizeConversion => "buffer size is zero or not representable",
            GpuError::ShaderCompilation => "the compute program source is invalid",
            GpuError::PipelineLayoutMismatch => "program bindings do not match the host layout",
            GpuError::Recording => "operation recorded in an illegal recorder state",
            GpuError::MapFailed => "mapping the staging buffer failed",
            GpuError::Disconnected => "the completion channel disconnected",
        }
    }
}

} // verus!

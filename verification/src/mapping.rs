//! The staging buffer's mapping state machine.
//!
//! A map is requested asynchronously; the device later signals success
//! or failure through a one-shot completion channel. Only after a
//! successful completion may the mapped range be read, and an explicit
//! unmap returns the buffer to its initial state.

use vstd::prelude::*;

use crate::errors::GpuError;

verus! {

/// The mapping state of the staging buffer.
#[derive(Clone, Copy, Debug, PartialEq, Eq, Structural)]
pub enum MapState {
    /// No map request outstanding; the bytes are not host-visible.
    Unmapped,
    /// A read map has been requested; completion has not signalled yet.
    MapRequested,
    /// The device signalled success: the bytes are host-readable.
    MapCompleted,
    /// The device signalled failure: the bytes never became readable.
    MapFailed,
}

/// The staging buffer as the host sees it: its byte size and where its
/// mapping stands.
#[derive(Clone, Copy, Debug, PartialEq, Eq, Structural)]
pub struct StagingMap {
    pub state: MapState,
    pub size: u64,
}

impl StagingMap {
    /// A freshly created staging buffer is unmapped.
    pub fn new(size: u64) -> (r: StagingMap)
        ensures
            r == (StagingMap { state: MapState::Unmapped, size }),
    {
        StagingMap { state: MapState::Unmapped, size }
    }

    /// Requests an asynchronous read map of the full range. Legal only
    /// while unmapped; a second request before completion, or a request
    /// on an already mapped buffer, fails.
    pub fn request_map(&mut self) -> (r: Result<(), GpuError>)
        ensures
            r is Ok <==> old(self).state == MapState::Unmapped,
            r is Ok ==> *final(self) == (StagingMap {
                state: MapState::MapRequested,
                ..*old(self)
            }),
            r is Err ==> *final(self) == *old(self) && r->Err_0 == GpuError::MapFailed,
    {
        match self.state {
            MapState::Unmapped => {
                self.state = MapState::MapRequested;
                Ok(())
            },
            _ => Err(GpuError::MapFailed),
        }
    }

    /// Consumes the one-shot completion signal. The device fires it
    /// exactly once per outstanding request, with the request's outcome.
    pub fn complete(&mut self, ok: bool)
        requires
            old(self).state == MapState::MapRequested,
        ensures
            final(self).size == old(self).size,
            final(self).state == if ok {
                MapState::MapCompleted
            } else {
                MapState::MapFailed
            },
    {
        if ok {
            self.state = MapState::MapCompleted;
        } else {
            self.state = MapState::MapFailed;
        }
    }

    /// Whether the mapped bytes may be read right now.
    pub fn read_allowed(&self) -> (r: bool)
        ensures
            r <==> self.state == MapState::MapCompleted,
    {
        match self.state {
            MapState::MapCompleted => true,
            _ => false,
        }
    }

    /// Grants read access to the mapped range, returning its byte
    /// length. Succeeds only once the completion signal has reported
    /// success: before that, or after a failed map, no bytes are ever
    /// handed out.
    pub fn get_mapped_range(&self) -> (r: Result<u64, GpuError>)
        ensures
            r is Ok <==> self.state == MapState::MapCompleted,
            r matches Ok(len) ==> len == self.size,
            r is Err ==> r->Err_0 == GpuError::MapFailed,
    {
        match self.state {
            MapState::MapCompleted => Ok(self.size),
            _ => Err(GpuError::MapFailed),
        }
    }

    /// Unmaps the buffer, returning it to the unmapped state; required
    /// before any further map request. Legal only while mapped.
    pub fn unmap(&mut self) -> (r: Result<(), GpuError>)
        ensures
            r is Ok <==> old(self).state == MapState::MapCompleted,
            r is Ok ==> *final(self) == (StagingMap {
                state: MapState::Unmapped,
                ..*old(self)
            }),
            r is Err ==> *final(self) == *old(self) && r->Err_0 == GpuError::MapFailed,
    {
        match self.state {
            MapState::MapCompleted => {
                self.state = MapState::Unmapped;
                Ok(())
            },
            _ => Err(GpuError::MapFailed),
        }
    }
}

} // verus!

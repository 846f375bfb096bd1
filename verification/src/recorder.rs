//! Command recording: an ordered, write-once command sequence.
//!
//! Commands are recorded into a sequence that becomes executable only
//! once finished, and is then submit-only. A compute pass is a scoped
//! phase: while it is open, only pass commands are legal; the copy may
//! be recorded only after the pass has closed.

use vstd::prelude::*;

use crate::buffers::BufferDesc;
use crate::errors::GpuError;

verus! {

/// One recorded device operation.
#[derive(Clone, Copy, Debug, PartialEq, Eq, Structural)]
pub enum Command {
    /// Bind the compute pipeline inside the open pass.
    SetPipeline,
    /// Bind the buffer binding at the given slot group inside the open pass.
    SetBindGroup { group: u32 },
    /// Dispatch a 3-dimensional grid of workgroups inside the open pass.
    Dispatch { x: u32, y: u32, z: u32 },
    /// Copy `len` bytes between two buffers, outside any pass.
    CopyBufferToBuffer { src_offset: u64, dst_offset: u64, len: u64 },
}

/// Where the recorder stands.
#[derive(Clone, Copy, Debug, PartialEq, Eq, Structural)]
pub enum RecorderPhase {
    /// Open for top-level commands; no pass in progress.
    Idle,
    /// A compute pass is open; only pass commands are legal.
    PassOpen,
    /// Finished: immutable and submit-only.
    Finished,
}

/// A command sequence under construction.
pub struct CommandRecorder {
    pub phase: RecorderPhase,
    pub commands: Vec<Command>,
}

impl CommandRecorder {
    /// The recorded sequence so far.
    pub open spec fn view(self) -> Seq<Command> {
        self.commands@
    }

    /// Opens a new, empty recording context.
    pub fn new() -> (r: CommandRecorder)
        ensures
            r.phase == RecorderPhase::Idle,
            r@ == Seq::<Command>::empty(),
    {
        CommandRecorder { phase: RecorderPhase::Idle, commands: Vec::new() }
    }

    /// Opens a compute pass. Legal only while idle: a pass cannot be
    /// opened inside another pass or on a finished sequence.
    pub fn begin_compute_pass(&mut self) -> (r: Result<(), GpuError>)
        ensures
            r is Ok <==> old(self).phase == RecorderPhase::Idle,
            r is Ok ==> final(self).phase == RecorderPhase::PassOpen,
            r is Err ==> *final(self) == *old(self) && r->Err_0 == GpuError::Recording,
            final(self)@ == old(self)@,
    {
        match self.phase {
            RecorderPhase::Idle => {
                self.phase = RecorderPhase::PassOpen;
                Ok(())
            },
            _ => Err(GpuError::Recording),
        }
    }

    /// Binds the pipeline inside the open pass.
    pub fn set_pipeline(&mut self) -> (r: Result<(), GpuError>)
        ensures
            r is Ok <==> old(self).phase == RecorderPhase::PassOpen,
            r is Ok ==> final(self).phase == RecorderPhase::PassOpen
                && final(self)@ == old(self)@.push(Command::SetPipeline),
            r is Err ==> *final(self) == *old(self) && r->Err_0 == GpuError::Recording,
    {
        match self.phase {
            RecorderPhase::PassOpen => {
                self.commands.push(Command::SetPipeline);
                Ok(())
            },
            _ => Err(GpuError::Recording),
        }
    }

    /// Binds the buffer binding at slot group `group` inside the open pass.
    pub fn set_bind_group(&mut self, group: u32) -> (r: Result<(), GpuError>)
        ensures
            r is Ok <==> old(self).phase == RecorderPhase::PassOpen,
            r is Ok ==> final(self).phase == RecorderPhase::PassOpen
                && final(self)@ == old(self)@.push(Command::SetBindGroup { group }),
            r is Err ==> *final(self) == *old(self) && r->Err_0 == GpuError::Recording,
    {
        match self.phase {
            RecorderPhase::PassOpen => {
                self.commands.push(Command::SetBindGroup { group });
                Ok(())
            },
            _ => Err(GpuError::Recording),
        }
    }

    /// Dispatches an `x` by `y` by `z` grid of workgroups inside the
    /// open pass.
    pub fn dispatch_workgroups(&mut self, x: u32, y: u32, z: u32) -> (r: Result<(), GpuError>)
        ensures
            r is Ok <==> old(self).phase == RecorderPhase::PassOpen,
            r is Ok ==> final(self).phase == RecorderPhase::PassOpen
                && final(self)@ == old(self)@.push(Command::Dispatch { x, y, z }),
            r is Err ==> *final(self) == *old(self) && r->Err_0 == GpuError::Recording,
    {
        match self.phase {
            RecorderPhase::PassOpen => {
                self.commands.push(Command::Dispatch { x, y, z });
                Ok(())
            },
            _ => Err(GpuError::Recording),
        }
    }

    /// Closes the open compute pass; further top-level commands become
    /// legal again.
    pub fn end_compute_pass(&mut self) -> (r: Result<(), GpuError>)
        ensures
            r is Ok <==> old(self).phase == RecorderPhase::PassOpen,
            r is Ok ==> final(self).phase == RecorderPhase::Idle,
            r is Err ==> *final(self) == *old(self) && r->Err_0 == GpuError::Recording,
            final(self)@ == old(self)@,
    {
        match self.phase {
            RecorderPhase::PassOpen => {
                self.phase = RecorderPhase::Idle;
                Ok(())
            },
            _ => Err(GpuError::Recording),
        }
    }

    /// Records a device-side copy of `len` bytes from `src` to `dst`.
    ///
    /// Rejected while a compute pass is still open, on a finished
    /// sequence, and whenever the ranges or usages make the copy
    /// illegal: the pass must close before the copy, and a size
    /// mismatch can never truncate silently.
    pub fn copy_buffer_to_buffer(
        &mut self,
        src: &BufferDesc,
        dst: &BufferDesc,
        src_offset: u64,
        dst_offset: u64,
        len: u64,
    ) -> (r: Result<(), GpuError>)
        ensures
            r is Ok <==> old(self).phase == RecorderPhase::Idle
                && src.copy_src && dst.copy_dst
                && src_offset + len <= src.size && dst_offset + len <= dst.size,
            r is Ok ==> final(self).phase == RecorderPhase::Idle
                && final(self)@ == old(self)@.push(
                    Command::CopyBufferToBuffer { src_offset, dst_offset, len },
                ),
            r is Err ==> *final(self) == *old(self) && r->Err_0 == GpuError::Recording,
    {
        match self.phase {
            RecorderPhase::Idle => {
                match crate::buffers::validate_copy(src, dst, src_offset, dst_offset, len) {
                    Ok(()) => {
                        self.commands.push(
                            Command::CopyBufferToBuffer { src_offset, dst_offset, len },
                        );
                        Ok(())
                    },
                    Err(e) => Err(e),
                }
            },
            _ => Err(GpuError::Recording),
        }
    }

    /// Finalizes the sequence. From here on it is immutable and
    /// submit-only: every further recording call fails.
    pub fn finish(&mut self) -> (r: Result<(), GpuError>)
        ensures
            r is Ok <==> old(self).phase == RecorderPhase::Idle,
            r is Ok ==> final(self).phase == RecorderPhase::Finished,
            r is Err ==> *final(self) == *old(self) && r->Err_0 == GpuError::Recording,
            final(self)@ == old(self)@,
    {
        match self.phase {
            RecorderPhase::Idle => {
                self.phase = RecorderPhase::Finished;
                Ok(())
            },
            _ => Err(GpuError::Recording),
        }
    }
}

/// The command sequence of one full run: bind the pipeline and the
/// binding inside a compute pass, dispatch the grid, and, only after
/// the pass has closed, copy the full byte range to the staging buffer.
pub open spec fn spec_dispatch_sequence(x: u32, y: u32, z: u32, len: u64) -> Seq<Command> {
    seq![
        Command::SetPipeline,
        Command::SetBindGroup { group: 0 },
        Command::Dispatch { x, y, z },
        Command::CopyBufferToBuffer { src_offset: 0, dst_offset: 0, len },
    ]
}

/// Records and finalizes the whole run's command sequence: compute pass
/// (pipeline, binding at slot group 0, dispatch of the grid), pass
/// close, then a full-range copy from `src` to `dst`.
pub fn record_dispatch_sequence(
    src: &BufferDesc,
    dst: &BufferDesc,
    x: u32,
    y: u32,
    z: u32,
    len: u64,
) -> (r: Result<CommandRecorder, GpuError>)
    ensures
        r is Ok <==> src.copy_src && dst.copy_dst && len <= src.size && len <= dst.size,
        r matches Ok(rec) ==> rec.phase == RecorderPhase::Finished
            && rec@ == spec_dispatch_sequence(x, y, z, len),
        r is Err ==> r->Err_0 == GpuError::Recording,
{
    let mut rec = CommandRecorder::new();
    let _ = rec.begin_compute_pass();
    let _ = rec.set_pipeline();
    let _ = rec.set_bind_group(0);
    let _ = rec.dispatch_workgroups(x, y, z);
    let _ = rec.end_compute_pass();
    match rec.copy_buffer_to_buffer(src, dst, 0, 0, len) {
        Ok(()) => {},
        Err(e) => {
            return Err(e);
        },
    }
    let _ = rec.finish();
    assert(rec@ =~= spec_dispatch_sequence(x, y, z, len));
    Ok(rec)
}

} // verus!

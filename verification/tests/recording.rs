use gpu_dispatch::buffers::{compute_buffer_desc, plan_buffers, staging_buffer_desc};
use gpu_dispatch::errors::GpuError;
use gpu_dispatch::recorder::{record_dispatch_sequence, Command, CommandRecorder, RecorderPhase};

#[test]
fn copy_while_pass_is_open_is_rejected() {
    let plan = plan_buffers(10, 4).unwrap();
    let compute = compute_buffer_desc(&plan);
    let staging = staging_buffer_desc(&plan);
    let mut rec = CommandRecorder::new();
    rec.begin_compute_pass().unwrap();
    rec.set_pipeline().unwrap();
    rec.set_bind_group(0).unwrap();
    rec.dispatch_workgroups(10, 1, 1).unwrap();
    assert_eq!(
        rec.copy_buffer_to_buffer(&compute, &staging, 0, 0, 40),
        Err(GpuError::Recording)
    );
    rec.end_compute_pass().unwrap();
    assert_eq!(rec.copy_buffer_to_buffer(&compute, &staging, 0, 0, 40), Ok(()));
}

#[test]
fn pass_commands_outside_a_pass_are_rejected() {
    let mut rec = CommandRecorder::new();
    assert_eq!(rec.set_pipeline(), Err(GpuError::Recording));
    assert_eq!(rec.set_bind_group(0), Err(GpuError::Recording));
    assert_eq!(rec.dispatch_workgroups(10, 1, 1), Err(GpuError::Recording));
    assert_eq!(rec.end_compute_pass(), Err(GpuError::Recording));
}

#[test]
fn a_finished_sequence_is_submit_only() {
    let plan = plan_buffers(10, 4).unwrap();
    let compute = compute_buffer_desc(&plan);
    let staging = staging_buffer_desc(&plan);
    let mut rec = CommandRecorder::new();
    rec.finish().unwrap();
    assert_eq!(rec.begin_compute_pass(), Err(GpuError::Recording));
    assert_eq!(
        rec.copy_buffer_to_buffer(&compute, &staging, 0, 0, 40),
        Err(GpuError::Recording)
    );
    assert_eq!(rec.finish(), Err(GpuError::Recording));
}

#[test]
fn the_recorded_flow_closes_the_pass_before_the_copy() {
    let plan = plan_buffers(10, 4).unwrap();
    let compute = compute_buffer_desc(&plan);
    let staging = staging_buffer_desc(&plan);
    let rec = record_dispatch_sequence(&compute, &staging, 10, 1, 1, 40).unwrap();
    assert_eq!(rec.phase, RecorderPhase::Finished);
    assert_eq!(
        rec.commands,
        vec![
            Command::SetPipeline,
            Command::SetBindGroup { group: 0 },
            Command::Dispatch { x: 10, y: 1, z: 1 },
            Command::CopyBufferToBuffer { src_offset: 0, dst_offset: 0, len: 40 },
        ]
    );
}

#[test]
fn recording_a_flow_with_mismatched_sizes_is_rejected() {
    let big = plan_buffers(10, 4).unwrap();
    let small = plan_buffers(9, 4).unwrap();
    let compute = compute_buffer_desc(&big);
    let staging = staging_buffer_desc(&small);
    assert!(matches!(
        record_dispatch_sequence(&compute, &staging, 10, 1, 1, 40),
        Err(GpuError::Recording)
    ));
}

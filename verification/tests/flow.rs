use gpu_dispatch::driver::{DeviceAction, Driver, Event, Phase};
use gpu_dispatch::errors::GpuError;
use gpu_dispatch::recorder::Command;

fn success_events() -> Vec<Event> {
    vec![
        Event::AdapterReady,
        Event::DeviceReady,
        Event::BuffersReady,
        Event::PipelineReady,
        Event::Submitted,
        Event::MapSignaled,
        Event::BytesRead,
    ]
}

fn run_to_completion(events: &[Event]) -> (Driver, Vec<DeviceAction>) {
    let mut driver = Driver::new(10, 4).unwrap();
    let mut actions = vec![driver.current_action()];
    for event in events {
        actions.push(driver.step(*event));
    }
    (driver, actions)
}

#[test]
fn a_fresh_run_plans_the_whole_flow() {
    let driver = Driver::new(10, 4).unwrap();
    assert_eq!(driver.phase, Phase::AcquiringAdapter);
    assert_eq!(driver.plan.size, 40);
    assert_eq!(driver.compute_buffer.size, driver.staging_buffer.size);
    assert_eq!(driver.layout.slot, 0);
    assert_eq!(driver.layout.min_binding_size, 40);
    assert_eq!(driver.binding.buffer, driver.compute_buffer);
    assert_eq!(driver.pipeline.layout, driver.layout);
    assert_eq!(driver.failure, None);
    assert_eq!(
        driver.sequence.commands,
        vec![
            Command::SetPipeline,
            Command::SetBindGroup { group: 0 },
            Command::Dispatch { x: 10, y: 1, z: 1 },
            Command::CopyBufferToBuffer { src_offset: 0, dst_offset: 0, len: 40 },
        ]
    );
}

#[test]
fn an_empty_run_is_rejected_before_any_device_call() {
    assert!(matches!(Driver::new(0, 4), Err(GpuError::SizeConversion)));
}

#[test]
fn a_successful_run_walks_every_phase_in_order() {
    let (driver, actions) = run_to_completion(&success_events());
    assert_eq!(driver.phase, Phase::Done);
    assert_eq!(driver.failure, None);
    assert_eq!(
        actions,
        vec![
            DeviceAction::RequestAdapter,
            DeviceAction::OpenDevice,
            DeviceAction::CreateBuffers,
            DeviceAction::BuildPipeline,
            DeviceAction::Submit,
            DeviceAction::AwaitSignal,
            DeviceAction::ReadBack,
            DeviceAction::Halt,
        ]
    );
}

#[test]
fn two_identical_runs_end_identically() {
    let (first_driver, first_actions) = run_to_completion(&success_events());
    let (second_driver, second_actions) = run_to_completion(&success_events());
    assert_eq!(first_driver.phase, second_driver.phase);
    assert_eq!(first_driver.failure, second_driver.failure);
    assert_eq!(first_driver.sequence.commands, second_driver.sequence.commands);
    assert_eq!(first_actions, second_actions);
}

#[test]
fn each_failing_outcome_records_its_own_error() {
    let cases = [
        (0, Event::AdapterUnavailable, GpuError::NoCompatibleDevice),
        (1, Event::DeviceRejected, GpuError::DeviceCreation),
        (2, Event::AllocationRejected, GpuError::Allocation),
        (3, Event::ShaderRejected, GpuError::ShaderCompilation),
        (3, Event::LayoutRejected, GpuError::PipelineLayoutMismatch),
        (5, Event::MapErrored, GpuError::MapFailed),
        (5, Event::SignalLost, GpuError::Disconnected),
    ];
    for (good_steps, failing_event, expected) in cases {
        let mut driver = Driver::new(10, 4).unwrap();
        for event in &success_events()[..good_steps] {
            driver.step(*event);
        }
        let action = driver.step(failing_event);
        assert_eq!(action, DeviceAction::Halt);
        assert_eq!(driver.phase, Phase::Failed);
        assert_eq!(driver.failure, Some(expected));
    }
}

#[test]
fn a_failed_run_stays_failed() {
    let mut driver = Driver::new(10, 4).unwrap();
    driver.step(Event::AdapterUnavailable);
    for event in success_events() {
        assert_eq!(driver.step(event), DeviceAction::Halt);
    }
    assert_eq!(driver.phase, Phase::Failed);
    assert_eq!(driver.failure, Some(GpuError::NoCompatibleDevice));
}

#[test]
fn a_finished_run_stays_done() {
    let (mut driver, _) = run_to_completion(&success_events());
    assert_eq!(driver.step(Event::MapSignaled), DeviceAction::Halt);
    assert_eq!(driver.phase, Phase::Done);
    assert_eq!(driver.failure, None);
}

#[test]
fn an_out_of_protocol_event_changes_nothing() {
    let mut driver = Driver::new(10, 4).unwrap();
    let action = driver.step(Event::BytesRead);
    assert_eq!(action, DeviceAction::RequestAdapter);
    assert_eq!(driver.phase, Phase::AcquiringAdapter);
    assert_eq!(driver.failure, None);
}

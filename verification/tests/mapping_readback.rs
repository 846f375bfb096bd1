use gpu_dispatch::errors::GpuError;
use gpu_dispatch::mapping::{MapState, StagingMap};
use gpu_dispatch::readback::decode_words;

#[test]
fn reading_before_the_signal_fails() {
    let mut staging = StagingMap::new(40);
    assert_eq!(staging.get_mapped_range(), Err(GpuError::MapFailed));
    staging.request_map().unwrap();
    assert_eq!(staging.state, MapState::MapRequested);
    assert_eq!(staging.get_mapped_range(), Err(GpuError::MapFailed));
    assert!(!staging.read_allowed());
}

#[test]
fn reading_after_a_successful_signal_succeeds() {
    let mut staging = StagingMap::new(40);
    staging.request_map().unwrap();
    staging.complete(true);
    assert_eq!(staging.state, MapState::MapCompleted);
    assert!(staging.read_allowed());
    assert_eq!(staging.get_mapped_range(), Ok(40));
}

#[test]
fn reading_after_a_failed_signal_fails() {
    let mut staging = StagingMap::new(40);
    staging.request_map().unwrap();
    staging.complete(false);
    assert_eq!(staging.state, MapState::MapFailed);
    assert_eq!(staging.get_mapped_range(), Err(GpuError::MapFailed));
}

#[test]
fn a_second_request_before_completion_fails() {
    let mut staging = StagingMap::new(40);
    staging.request_map().unwrap();
    assert_eq!(staging.request_map(), Err(GpuError::MapFailed));
}

#[test]
fn unmap_returns_the_buffer_to_its_initial_state() {
    let mut staging = StagingMap::new(40);
    assert_eq!(staging.unmap(), Err(GpuError::MapFailed));
    staging.request_map().unwrap();
    staging.complete(true);
    staging.unmap().unwrap();
    assert_eq!(staging.state, MapState::Unmapped);
    staging.request_map().unwrap();
    assert_eq!(staging.state, MapState::MapRequested);
}

#[test]
fn doubled_indices_decode_exactly() {
    let mut bytes: Vec<u8> = Vec::new();
    for index in 0..10u32 {
        let value = index as f32 * 2.0;
        bytes.extend_from_slice(&value.to_bits().to_le_bytes());
    }
    let words = decode_words(&bytes).unwrap();
    let floats: Vec<f32> = words.iter().map(|w| f32::from_bits(*w)).collect();
    assert_eq!(
        floats,
        vec![0.0, 2.0, 4.0, 6.0, 8.0, 10.0, 12.0, 14.0, 16.0, 18.0]
    );
}

#[test]
fn decoding_keeps_the_byte_order() {
    let bytes = vec![0x78, 0x56, 0x34, 0x12, 0x01, 0x00, 0x00, 0x00];
    assert_eq!(decode_words(&bytes), Ok(vec![0x1234_5678, 1]));
}

#[test]
fn a_partial_word_is_rejected() {
    let bytes = vec![1, 2, 3];
    assert_eq!(decode_words(&bytes), Err(GpuError::SizeConversion));
}

#[test]
fn an_empty_range_decodes_to_nothing() {
    assert_eq!(decode_words(&Vec::new()), Ok(Vec::new()));
}

#[test]
fn error_descriptions_are_human_readable() {
    assert_eq!(
        GpuError::NoCompatibleDevice.describe(),
        "no adapters meet the requirements"
    );
    assert_eq!(
        GpuError::Disconnected.describe(),
        "the completion channel disconnected"
    );
}

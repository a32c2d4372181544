use moshi::candle::{DType, Device, Tensor};
use rustymimi_c::adapter::{extract_codes, frame_shape_matches};
use rustymimi_c::codes::EncodeError;

#[test]
fn frame_shape_check_reads_the_tensor_dims() {
    let dev = Device::Cpu;
    // A zero-filled frame of 1920 samples (one 12.5 Hz step at 24 kHz).
    let t = Tensor::zeros((1, 1, 1920), DType::F32, &dev).unwrap();
    assert!(frame_shape_matches(&t, 1920));
    assert!(!frame_shape_matches(&t, 1919));
    let two_channels = Tensor::zeros((1, 2, 1920), DType::F32, &dev).unwrap();
    assert!(!frame_shape_matches(&two_channels, 1920));
    let rank_two = Tensor::zeros((1, 1920), DType::F32, &dev).unwrap();
    assert!(!frame_shape_matches(&rank_two, 1920));
}

#[test]
fn extract_codes_reads_the_tensor_contents() {
    let dev = Device::Cpu;
    // Shape (batch=1, codebooks=2, steps=3), row-major data.
    let t = Tensor::from_slice(&[1u32, 2, 3, 4, 5, 6], (1, 2, 3), &dev).unwrap();
    let b = extract_codes(&t).unwrap();
    assert_eq!(b.codebooks, 2);
    assert_eq!(b.steps, 3);
    // Step s, codebook c sits at flat index s * codebooks + c.
    let (data, codebooks, steps) = b.into_parts();
    assert_eq!((codebooks, steps), (2, 3));
    assert_eq!(data, vec![1, 4, 2, 5, 3, 6]);
}

#[test]
fn extract_codes_rejects_wrong_rank() {
    let dev = Device::Cpu;
    let t = Tensor::from_slice(&[1u32, 2, 3, 4, 5, 6], (2, 3), &dev).unwrap();
    match extract_codes(&t) {
        Err(e) => assert_eq!(e, EncodeError::ModelFailure),
        Ok(_) => panic!("a rank-2 tensor must be rejected"),
    }
}

#[test]
fn extract_codes_rejects_empty_steps() {
    let dev = Device::Cpu;
    let empty: Vec<u32> = Vec::new();
    let t = Tensor::from_slice(&empty, (1, 2, 0), &dev).unwrap();
    match extract_codes(&t) {
        Err(e) => assert_eq!(e, EncodeError::EmptyCodes),
        Ok(_) => panic!("an empty code matrix must be rejected"),
    }
}

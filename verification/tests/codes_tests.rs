use rustymimi_c::codes::{
    flatten_codes, status_of, EncodeError, EncodeOutcome, STATUS_ERROR, STATUS_OK, STATUS_PENDING,
};

#[test]
fn flatten_layout_is_row_major_with_step_outer() {
    // Two codebooks, three steps: row c holds the codes of codebook c.
    let codes = vec![vec![1u32, 2, 3], vec![4u32, 5, 6]];
    let b = flatten_codes(&codes).unwrap();
    assert_eq!(b.codebooks, 2);
    assert_eq!(b.steps, 3);
    // Element at s * codebooks + c is the code for step s, codebook c.
    for s in 0..3 {
        for c in 0..2 {
            assert_eq!(b.code(s, c), codes[c][s]);
        }
    }
    let (data, codebooks, steps) = b.into_parts();
    assert_eq!(codebooks, 2);
    assert_eq!(steps, 3);
    assert_eq!(data, vec![1, 4, 2, 5, 3, 6]);
}

#[test]
fn flatten_single_cell() {
    let codes = vec![vec![7u32]];
    let b = flatten_codes(&codes).unwrap();
    assert_eq!(b.codebooks, 1);
    assert_eq!(b.steps, 1);
    assert_eq!(b.code(0, 0), 7);
}

#[test]
fn flatten_rejects_empty_matrix() {
    let codes: Vec<Vec<u32>> = Vec::new();
    match flatten_codes(&codes) {
        Err(e) => assert_eq!(e, EncodeError::EmptyCodes),
        Ok(_) => panic!("an empty matrix must be rejected"),
    }
}

#[test]
fn flatten_rejects_empty_rows() {
    let codes: Vec<Vec<u32>> = vec![Vec::new(), Vec::new()];
    match flatten_codes(&codes) {
        Err(e) => assert_eq!(e, EncodeError::EmptyCodes),
        Ok(_) => panic!("empty rows must be rejected"),
    }
}

#[test]
fn flatten_rejects_ragged_rows() {
    let codes = vec![vec![1u32, 2], vec![3u32]];
    match flatten_codes(&codes) {
        Err(e) => assert_eq!(e, EncodeError::RaggedCodes),
        Ok(_) => panic!("ragged rows must be rejected"),
    }
}

#[test]
fn release_with_exact_count_succeeds() {
    let codes = vec![vec![1u32, 2, 3], vec![4u32, 5, 6]];
    let b = flatten_codes(&codes).unwrap();
    let count = b.element_count();
    assert_eq!(count, 6);
    assert!(b.release(count));
}

#[test]
fn release_with_wrong_count_is_reported() {
    let codes = vec![vec![1u32, 2, 3], vec![4u32, 5, 6]];
    let b = flatten_codes(&codes).unwrap();
    assert!(!b.release(5));
}

#[test]
fn status_values_distinguish_the_three_outcomes() {
    let codes = vec![vec![9u32]];
    let produced: Result<EncodeOutcome, EncodeError> =
        Ok(EncodeOutcome::Produced(flatten_codes(&codes).unwrap()));
    assert_eq!(status_of(&produced), STATUS_OK);
    assert_eq!(status_of(&produced), 0);

    let pending: Result<EncodeOutcome, EncodeError> = Ok(EncodeOutcome::NoOutputYet);
    assert_eq!(status_of(&pending), STATUS_PENDING);
    assert_eq!(status_of(&pending), 1);

    let failed: Result<EncodeOutcome, EncodeError> = Err(EncodeError::ModelFailure);
    assert_eq!(status_of(&failed), STATUS_ERROR);
    assert_eq!(status_of(&failed), -1);
}

#[test]
fn eight_codebook_step_keeps_declared_shape() {
    // One emitted step for a handle built with eight codebooks: the
    // flattened buffer reports exactly eight codebooks.
    let codes: Vec<Vec<u32>> = (0..8).map(|c| vec![c as u32]).collect();
    let b = flatten_codes(&codes).unwrap();
    assert_eq!(b.codebooks, 8);
    assert_eq!(b.steps, 1);
    for c in 0..8 {
        assert_eq!(b.code(0, c), c as u32);
    }
}

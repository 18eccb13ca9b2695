use otp_pad::otp::{apply_pad, verify_sizes, xor_process, ApplyError};

#[test]
fn xor_process_is_bytewise_xor() {
    let data = vec![0x00u8, 0xFF, 0xAA, 0x55];
    let key = vec![0x0Fu8, 0xF0, 0xAA, 0x00];
    assert_eq!(xor_process(&data, &key), vec![0x0Fu8, 0x0F, 0x00, 0x55]);
}

#[test]
fn xor_process_stops_at_common_prefix() {
    let data = vec![1u8, 2, 3, 4, 5];
    let key = vec![1u8, 1, 1];
    assert_eq!(xor_process(&data, &key), vec![0u8, 3, 2]);
    assert_eq!(xor_process(&key, &data), vec![0u8, 3, 2]);
}

#[test]
fn apply_is_an_involution() {
    let data: Vec<u8> = (0u8..100).collect();
    let key: Vec<u8> = (0u8..100).map(|b| b.wrapping_mul(37).wrapping_add(11)).collect();
    let ciphertext = apply_pad(&data, &key).unwrap();
    assert_ne!(ciphertext, data);
    let plaintext = apply_pad(&ciphertext, &key).unwrap();
    assert_eq!(plaintext, data);
}

#[test]
fn apply_involution_with_longer_key() {
    let data = vec![9u8, 8, 7];
    let key: Vec<u8> = (50u8..100).collect();
    let ciphertext = apply_pad(&data, &key).unwrap();
    assert_eq!(ciphertext.len(), data.len());
    assert_eq!(apply_pad(&ciphertext, &key).unwrap(), data);
}

#[test]
fn apply_rejects_empty_key() {
    let data = vec![1u8, 2, 3];
    let key: Vec<u8> = Vec::new();
    assert_eq!(apply_pad(&data, &key), Err(ApplyError::EmptyKey));
    // An empty key is reported before empty data.
    let empty: Vec<u8> = Vec::new();
    assert_eq!(apply_pad(&empty, &key), Err(ApplyError::EmptyKey));
}

#[test]
fn apply_rejects_empty_data() {
    let data: Vec<u8> = Vec::new();
    let key = vec![1u8, 2, 3];
    assert_eq!(apply_pad(&data, &key), Err(ApplyError::EmptyData));
}

#[test]
fn apply_rejects_insufficient_key_at_boundary() {
    let data = vec![1u8; 10];
    let key_short = vec![2u8; 9];
    assert_eq!(apply_pad(&data, &key_short), Err(ApplyError::InsufficientKey));
    let key_exact = vec![2u8; 10];
    assert!(apply_pad(&data, &key_exact).is_ok());
}

#[test]
fn apply_rejects_key_far_below_data() {
    let data = vec![1u8; 1000];
    let key = vec![2u8; 1];
    assert_eq!(apply_pad(&data, &key), Err(ApplyError::InsufficientKey));
}

#[test]
fn verify_sizes_accepts_equal() {
    assert_eq!(verify_sizes(10, 10), Ok(()));
    assert_eq!(verify_sizes(0, 0), Ok(()));
}

#[test]
fn verify_sizes_detects_truncation() {
    assert_eq!(verify_sizes(10, 9), Err(ApplyError::SizeMismatch));
    assert_eq!(verify_sizes(9, 10), Err(ApplyError::SizeMismatch));
}

use aes::Aes256;
use ctr::cipher::generic_array::GenericArray;
use ctr::cipher::{KeyIvInit, StreamCipher};
use rand::{RngCore, SeedableRng};
use rand_chacha::ChaCha20Rng;

use otp_pad::config;
use otp_pad::generator::{begin_generation, generate_pad, GenerateError};
use otp_pad::kdf::{derive_key, CostParams, DeriveError};
use otp_pad::keystream::expand;
use otp_pad::sizes::{requested_size, SizeUnit};

/// Cheap but valid cost parameters, so tests that only need some derived
/// key do not pay for the protocol's 64 MiB memory cost.
fn small_params() -> CostParams {
    CostParams { m_cost: 8, t_cost: 1, p_cost: 1 }
}

fn protocol_params() -> CostParams {
    CostParams {
        m_cost: config::ARGON2_MEMORY_COST,
        t_cost: config::ARGON2_TIME_COST,
        p_cost: config::ARGON2_PARALLELISM,
    }
}

fn test_key() -> Vec<u8> {
    (0u8..32).collect()
}

fn test_iv() -> Vec<u8> {
    (100u8..116).collect()
}

#[test]
fn derive_is_deterministic() {
    let password = b"correct horse".to_vec();
    let salt = config::salt_bytes();
    let k1 = derive_key(&password, &salt, small_params()).unwrap();
    let k2 = derive_key(&password, &salt, small_params()).unwrap();
    assert_eq!(k1, k2);
    assert_eq!(k1.len(), 32);
    assert_ne!(k1, vec![0u8; 32]);
}

#[test]
fn derive_depends_on_password() {
    let salt = config::salt_bytes();
    let k1 = derive_key(&b"one password".to_vec(), &salt, small_params()).unwrap();
    let k2 = derive_key(&b"another password".to_vec(), &salt, small_params()).unwrap();
    assert_ne!(k1, k2);
}

#[test]
fn derive_rejects_zero_parallelism() {
    let salt = config::salt_bytes();
    let params = CostParams { m_cost: 65536, t_cost: 3, p_cost: 0 };
    let r = derive_key(&b"pw".to_vec(), &salt, params);
    assert_eq!(r, Err(DeriveError::InvalidCostParams));
}

#[test]
fn derive_rejects_too_little_memory() {
    let salt = config::salt_bytes();
    let params = CostParams { m_cost: 7, t_cost: 1, p_cost: 1 };
    let r = derive_key(&b"pw".to_vec(), &salt, params);
    assert_eq!(r, Err(DeriveError::InvalidCostParams));
}

#[test]
fn derive_rejects_short_salt() {
    let salt = b"1234567".to_vec();
    let r = derive_key(&b"pw".to_vec(), &salt, small_params());
    assert_eq!(r, Err(DeriveError::DerivationFailed));
}

#[test]
fn requested_size_multiplies_units() {
    assert_eq!(requested_size(1, SizeUnit::Bytes), Some(1));
    assert_eq!(requested_size(1024, SizeUnit::Bytes), Some(1024));
    assert_eq!(requested_size(1, SizeUnit::Mb), Some(1048576));
    assert_eq!(requested_size(1024, SizeUnit::Mb), Some(1073741824));
    assert_eq!(requested_size(1, SizeUnit::Gb), Some(1073741824));
    assert_eq!(requested_size(5, SizeUnit::Gb), Some(5368709120));
}

#[test]
fn requested_size_enforces_range() {
    assert_eq!(requested_size(0, SizeUnit::Bytes), None);
    assert_eq!(requested_size(0, SizeUnit::Mb), None);
    assert_eq!(requested_size(0, SizeUnit::Gb), None);
    assert_eq!(requested_size(5368709120, SizeUnit::Bytes), Some(5368709120));
    assert_eq!(requested_size(5368709121, SizeUnit::Bytes), None);
    assert_eq!(requested_size(5120, SizeUnit::Mb), Some(5368709120));
    assert_eq!(requested_size(5121, SizeUnit::Mb), None);
    assert_eq!(requested_size(6, SizeUnit::Gb), None);
    assert_eq!(requested_size(u64::MAX, SizeUnit::Gb), None);
}

#[test]
fn expand_has_exact_length() {
    let key = test_key();
    let iv = test_iv();
    for len in [1usize, 1024, 1048576] {
        assert_eq!(expand(&key, &iv, len, 4096).len(), len);
    }
}

#[test]
fn expand_is_chunk_invariant() {
    let key = test_key();
    let iv = test_iv();
    for len in [1usize, 7, 4096, 100000] {
        let a = expand(&key, &iv, len, 4);
        let b = expand(&key, &iv, len, 65536);
        let c = expand(&key, &iv, len, 131072);
        assert_eq!(a, b);
        assert_eq!(b, c);
    }
}

#[test]
fn expand_is_deterministic() {
    let key = test_key();
    let iv = test_iv();
    assert_eq!(expand(&key, &iv, 256, 64), expand(&key, &iv, 256, 64));
}

#[test]
fn expand_matches_direct_composition() {
    let key = test_key();
    let iv = test_iv();
    let len = 102usize;
    let out = expand(&key, &iv, len, 40);

    let mut seed = [0u8; 32];
    seed.copy_from_slice(&key);
    let mut rng = ChaCha20Rng::from_seed(seed);
    let mut r = vec![0u8; len];
    rng.fill_bytes(&mut r);

    let mut cipher = ctr::Ctr64BE::<Aes256>::new(
        GenericArray::from_slice(&key),
        GenericArray::from_slice(&iv),
    );
    let mut c = vec![0u8; len];
    cipher.apply_keystream(&mut c);

    let expected: Vec<u8> = r.iter().zip(c.iter()).map(|(x, y)| x ^ y).collect();
    assert_eq!(out, expected);
}

#[test]
fn expand_depends_on_key_and_iv() {
    let key = test_key();
    let iv = test_iv();
    let mut other_key = test_key();
    other_key[0] ^= 1;
    let mut other_iv = test_iv();
    other_iv[0] ^= 1;
    let base = expand(&key, &iv, 64, 64);
    assert_ne!(base, expand(&other_key, &iv, 64, 64));
    assert_ne!(base, expand(&key, &other_iv, 64, 64));
    assert_ne!(base, vec![0u8; 64]);
}

#[test]
fn generator_streams_the_expander_bytes() {
    let password = b"stream check".to_vec();
    let salt = config::salt_bytes();
    let total = 1048576u64 + 5;
    let mut g = begin_generation(&password, &salt, small_params(), total, SizeUnit::Bytes, false)
        .unwrap();
    let mut pad: Vec<u8> = Vec::new();
    let mut chunk_lens: Vec<usize> = Vec::new();
    while let Some(chunk) = g.next_chunk() {
        chunk_lens.push(chunk.len());
        pad.extend_from_slice(&chunk);
    }
    assert_eq!(pad.len() as u64, total);
    assert_eq!(chunk_lens, vec![1048576, 5]);

    let key = derive_key(&password, &salt, small_params()).unwrap();
    let iv = otp_pad::config::iv_bytes();
    let expected = expand(&key, &iv, 1048581, 65536);
    assert_eq!(pad, expected);
}

#[test]
fn generate_pad_has_exact_length() {
    let password = b"length check".to_vec();
    let salt = config::salt_bytes();
    let pad = generate_pad(&password, &salt, small_params(), 64, SizeUnit::Bytes, false).unwrap();
    assert_eq!(pad.len(), 64);
    let pad_mb = generate_pad(&password, &salt, small_params(), 1, SizeUnit::Mb, false).unwrap();
    assert_eq!(pad_mb.len(), 1048576);
}

#[test]
fn generate_pad_rejects_out_of_range() {
    let password = b"pw".to_vec();
    let salt = config::salt_bytes();
    let r = generate_pad(&password, &salt, small_params(), 0, SizeUnit::Bytes, false);
    assert_eq!(r, Err(GenerateError::SizeOutOfRange));
    let r = begin_generation(
        &password,
        &salt,
        small_params(),
        5368709121,
        SizeUnit::Bytes,
        false,
    );
    assert!(matches!(r, Err(GenerateError::SizeOutOfRange)));
    let r = begin_generation(&password, &salt, small_params(), 6, SizeUnit::Gb, false);
    assert!(matches!(r, Err(GenerateError::SizeOutOfRange)));
}

#[test]
fn generation_refuses_existing_output() {
    let password = b"pw".to_vec();
    let salt = config::salt_bytes();
    let r = generate_pad(&password, &salt, small_params(), 64, SizeUnit::Bytes, true);
    assert_eq!(r, Err(GenerateError::OutputExists));
    let r = begin_generation(&password, &salt, small_params(), 64, SizeUnit::Bytes, true);
    assert!(matches!(r, Err(GenerateError::OutputExists)));
}

#[test]
fn generation_reports_bad_params_after_range_and_overwrite() {
    let password = b"pw".to_vec();
    let salt = config::salt_bytes();
    let bad = CostParams { m_cost: 65536, t_cost: 0, p_cost: 1 };
    let r = generate_pad(&password, &salt, bad, 64, SizeUnit::Bytes, false);
    assert_eq!(r, Err(GenerateError::InvalidCostParams));
    // Range and overwrite checks come first, in that order.
    let r = generate_pad(&password, &salt, bad, 0, SizeUnit::Bytes, true);
    assert_eq!(r, Err(GenerateError::SizeOutOfRange));
    let r = generate_pad(&password, &salt, bad, 64, SizeUnit::Bytes, true);
    assert_eq!(r, Err(GenerateError::OutputExists));
    let short_salt = b"1234567".to_vec();
    let r = generate_pad(&password, &short_salt, small_params(), 64, SizeUnit::Bytes, false);
    assert_eq!(r, Err(GenerateError::DerivationFailed));
}

#[test]
fn scenario_correct_horse_sixty_four_bytes() {
    let password = b"correct horse".to_vec();
    let salt = config::salt_bytes();
    let pad = generate_pad(&password, &salt, protocol_params(), 64, SizeUnit::Bytes, false)
        .unwrap();
    assert_eq!(pad.len(), 64);

    let zeros = vec![0u8; 64];
    let out = otp_pad::otp::apply_pad(&zeros, &pad).unwrap();
    assert_eq!(out, pad);
}

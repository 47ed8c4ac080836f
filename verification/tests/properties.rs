//! Behavioural tests of the cipher: determinism, seeking, reapplication,
//! chunking, backend agreement, and the error conditions.
use salsa20::backend::Backend;
use salsa20::cipher::Error;
use salsa20::cipher::Salsa;
use salsa20::state::SalsaCore;

fn test_key() -> Vec<u8> {
    (0u8..32).map(|i| i.wrapping_mul(7).wrapping_add(3)).collect()
}

fn test_nonce() -> Vec<u8> {
    vec![0x11, 0x22, 0x33, 0x44, 0x55, 0x66, 0x77, 0x88]
}

fn sample_data(len: usize) -> Vec<u8> {
    (0..len).map(|i| (i as u8).wrapping_mul(31).wrapping_add(5)).collect()
}

#[test]
fn generate_block_is_deterministic() {
    for block in [0u64, 1, 1023, 1 << 40] {
        let mut core1 = SalsaCore::new(&test_key(), &test_nonce(), 10);
        let mut core2 = SalsaCore::new(&test_key(), &test_nonce(), 10);
        core1.set_block_pos(block);
        core2.set_block_pos(block);
        let b1 = Backend::Soft.gen_ks_block(&mut core1);
        let b2 = Backend::Soft.gen_ks_block(&mut core2);
        assert_eq!(b1, b2);
        assert_eq!(core1.get_block_pos(), block + 1);
    }
}

#[test]
fn seek_matches_sequential_generation() {
    let n: usize = 9;
    let mut sequential = SalsaCore::new(&test_key(), &test_nonce(), 10);
    let mut blocks = Vec::new();
    for _ in 0..=n {
        blocks.push(Backend::Soft.gen_ks_block(&mut sequential));
    }
    for (i, expected) in blocks.iter().enumerate() {
        let mut sought = SalsaCore::new(&test_key(), &test_nonce(), 10);
        sought.set_block_pos(i as u64);
        assert_eq!(&Backend::Soft.gen_ks_block(&mut sought), expected);
    }
}

#[test]
fn seek_to_byte_offset_matches_bulk_output() {
    let mut bulk = Salsa::new(&test_key(), &test_nonce()).unwrap();
    let mut keystream = vec![0u8; 300];
    bulk.apply_keystream(&mut keystream).unwrap();

    for offset in [0usize, 1, 63, 64, 65, 100, 128, 199] {
        let mut cipher = Salsa::new(&test_key(), &test_nonce()).unwrap();
        cipher.seek(offset as u64);
        let mut window = vec![0u8; 64];
        cipher.apply_keystream(&mut window).unwrap();
        assert_eq!(&window[..], &keystream[offset..offset + 64]);
    }
}

#[test]
fn reapplying_keystream_restores_data() {
    let data = sample_data(517);
    let mut buf = data.clone();

    let mut cipher = Salsa::new(&test_key(), &test_nonce()).unwrap();
    cipher.seek(1000);
    cipher.apply_keystream(&mut buf).unwrap();
    assert_ne!(buf, data);

    cipher.seek(1000);
    cipher.apply_keystream(&mut buf).unwrap();
    assert_eq!(buf, data);
}

#[test]
fn chunked_calls_equal_one_call() {
    let data = sample_data(1 + 63 + 64 + 65 + 1000);
    let mut whole = data.clone();
    let mut cipher = Salsa::new(&test_key(), &test_nonce()).unwrap();
    cipher.apply_keystream(&mut whole).unwrap();

    let mut cipher = Salsa::new(&test_key(), &test_nonce()).unwrap();
    let mut pieced: Vec<u8> = Vec::new();
    let mut rest = data.as_slice();
    for size in [1usize, 63, 64, 65, 1000] {
        let mut chunk = rest[..size].to_vec();
        rest = &rest[size..];
        cipher.apply_keystream(&mut chunk).unwrap();
        pieced.extend_from_slice(&chunk);
    }
    assert_eq!(pieced, whole);
}

#[test]
fn backends_produce_identical_output() {
    // whole-buffer comparison across block boundaries at counter 0
    let data = sample_data(257);
    for rounds in [4usize, 6, 10] {
        let mut soft_buf = data.clone();
        let mut soft =
            Salsa::new_with(Backend::Soft, rounds, &test_key(), &test_nonce()).unwrap();
        soft.apply_keystream(&mut soft_buf).unwrap();

        let mut wide_buf = data.clone();
        let mut wide =
            Salsa::new_with(Backend::Vectorized, rounds, &test_key(), &test_nonce()).unwrap();
        wide.apply_keystream(&mut wide_buf).unwrap();

        assert_eq!(soft_buf, wide_buf);
    }

    // single blocks at counters near the published test-vector offsets
    for block in [0u64, 1, 1022, 1023, 2047, 2048] {
        let mut core1 = SalsaCore::new(&test_key(), &test_nonce(), 10);
        let mut core2 = SalsaCore::new(&test_key(), &test_nonce(), 10);
        core1.set_block_pos(block);
        core2.set_block_pos(block);
        let soft = Backend::Soft.gen_ks_block(&mut core1);
        let wide = Backend::Vectorized.gen_ks_block(&mut core2);
        assert_eq!(soft, wide);
    }
}

#[test]
fn wrong_key_or_nonce_length_is_rejected() {
    for key_len in [0usize, 16, 31, 33] {
        let key = vec![0u8; key_len];
        assert_eq!(Salsa::new(&key, &test_nonce()).unwrap_err(), Error::InvalidLength);
    }
    for nonce_len in [0usize, 7, 9, 12] {
        let nonce = vec![0u8; nonce_len];
        assert_eq!(Salsa::new(&test_key(), &nonce).unwrap_err(), Error::InvalidLength);
    }
    assert!(Salsa::new(&test_key(), &test_nonce()).is_ok());
}

#[test]
fn exhausting_the_counter_is_an_error() {
    let mut cipher = Salsa::new(&test_key(), &test_nonce()).unwrap();

    // at the very end of the keystream nothing more can be produced
    cipher.seek_to_block(u64::MAX);
    let data = sample_data(5);
    let mut buf = data.clone();
    assert_eq!(cipher.apply_keystream(&mut buf).unwrap_err(), Error::CounterExhausted);
    assert_eq!(buf, data, "nothing may be written on error");

    // the block before the last position is still fully usable
    cipher.seek_to_block(u64::MAX - 1);
    let mut last_block = vec![0u8; 64];
    assert!(cipher.apply_keystream(&mut last_block).is_ok());
    let mut one_more = vec![0u8; 1];
    assert_eq!(cipher.apply_keystream(&mut one_more).unwrap_err(), Error::CounterExhausted);

    // a request reaching past the end fails as a whole
    cipher.seek_to_block(u64::MAX - 1);
    let mut too_long = vec![0u8; 65];
    assert_eq!(cipher.apply_keystream(&mut too_long).unwrap_err(), Error::CounterExhausted);
    assert!(too_long.iter().all(|&b| b == 0), "nothing may be written on error");

    // seeking back recovers the cipher
    cipher.seek(0);
    let mut buf = vec![0u8; 64];
    assert!(cipher.apply_keystream(&mut buf).is_ok());
}

#[test]
fn round_variants_differ() {
    let mut out8 = vec![0u8; 64];
    Salsa::new_with(Backend::Soft, 4, &test_key(), &test_nonce())
        .unwrap()
        .apply_keystream(&mut out8)
        .unwrap();
    let mut out12 = vec![0u8; 64];
    Salsa::new_with(Backend::Soft, 6, &test_key(), &test_nonce())
        .unwrap()
        .apply_keystream(&mut out12)
        .unwrap();
    let mut out20 = vec![0u8; 64];
    Salsa::new_with(Backend::Soft, 10, &test_key(), &test_nonce())
        .unwrap()
        .apply_keystream(&mut out20)
        .unwrap();
    assert_ne!(out8, out12);
    assert_ne!(out8, out20);
    assert_ne!(out12, out20);
}

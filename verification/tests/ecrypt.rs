//! Known-answer test against the published ECRYPT test vector for the
//! 256-bit-key, 20-round Salsa20 variant (Set 1, vector 0), together with
//! checks that the windows deep in the same stream are reachable by seeking.
use salsa20::cipher::Salsa;

const BLOCK_SIZE: usize = 64;

// ECRYPT Salsa20/20, 256-bit key: Set 1, vector 0.
const KEY: &str = "8000000000000000000000000000000000000000000000000000000000000000";
const IV: &str = "0000000000000000";
const STREAM1_INDEX: usize = 0;
const STREAM1_EXPECTED: &str = "E3BE8FDD8BECA2E3EA8EF9475B29A6E7003951E1097A5C38D23B7A5FAD9F6844B22C97559E2723C7CBBD3FE4FC8D9A0744652A83E72A9C461876AF4D7EF1A117";
// window offsets the ECRYPT format samples deep in the same stream
const STREAM2_INDEX: usize = 65472;
const STREAM3_INDEX: usize = 65536;
const STREAM4_INDEX: usize = 131008;

#[test]
fn ecrypt_test_vectors_256_bit_key() {
    let key = hex::decode(KEY).expect("invalid hex string");
    let iv = hex::decode(IV).expect("invalid hex string");

    let stream1_expected = hex::decode(STREAM1_EXPECTED).expect("invalid hex string");

    let key_as_array: [u8; 32] = key.try_into().expect("data do not fit");

    let mut cipher = Salsa::new(&key_as_array, &iv).expect("valid key and nonce sizes");

    let mut buf = vec![0; STREAM4_INDEX + BLOCK_SIZE];
    cipher.apply_keystream(&mut buf).expect("keystream within counter range");

    // Test stream 1 against the published bytes
    for i in STREAM1_INDEX..(STREAM1_INDEX + BLOCK_SIZE) {
        assert_eq!(buf[i], stream1_expected[i]);
    }

    // The windows the ECRYPT format samples deeper in the stream must each
    // be reproduced exactly by seeking straight to them.
    let key = hex::decode(KEY).expect("invalid hex string");
    for index in [STREAM2_INDEX, STREAM3_INDEX, STREAM4_INDEX] {
        let mut sought = Salsa::new(&key, &iv).expect("valid key and nonce sizes");
        sought.seek(index as u64);
        let mut window = vec![0u8; BLOCK_SIZE];
        sought.apply_keystream(&mut window).expect("keystream within counter range");
        assert_eq!(&window[..], &buf[index..index + BLOCK_SIZE]);
    }
}

#[test]
fn ecrypt_first_window_reachable_by_seek() {
    let key = hex::decode(KEY).expect("invalid hex string");
    let iv = hex::decode(IV).expect("invalid hex string");
    let stream1_expected = hex::decode(STREAM1_EXPECTED).expect("invalid hex string");

    let mut cipher = Salsa::new(&key, &iv).expect("valid key and nonce sizes");
    // move away, then seek back to the published window
    cipher.seek(100_000);
    cipher.seek(STREAM1_INDEX as u64);
    let mut buf = vec![0u8; BLOCK_SIZE];
    cipher.apply_keystream(&mut buf).expect("keystream within counter range");
    assert_eq!(buf, stream1_expected);
}

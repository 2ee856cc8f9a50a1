use kmbox_net::cipher::xxtea_encrypt;

fn seq_buf(n: usize) -> Vec<u8> {
    (0..n).map(|i| (i % 256) as u8).collect()
}

#[test]
fn cipher_known_vector() {
    let mut data = seq_buf(128);
    let key: Vec<u8> = (0u8..16).collect();
    xxtea_encrypt(&mut data, &key);
    let expected: [u8; 128] = [
        215, 6, 86, 206, 162, 0, 103, 141, 27, 16, 196, 27, 191, 64, 67, 44, 194, 132, 180, 53,
        179, 223, 92, 210, 154, 150, 158, 207, 127, 87, 20, 44, 220, 128, 80, 117, 199, 75, 20,
        14, 111, 43, 229, 214, 48, 179, 180, 6, 67, 119, 232, 225, 24, 239, 61, 218, 246, 254,
        11, 196, 240, 1, 236, 120, 78, 185, 22, 129, 143, 34, 166, 148, 243, 215, 86, 191, 196,
        211, 170, 174, 221, 101, 149, 36, 93, 222, 161, 179, 151, 209, 21, 95, 171, 146, 70, 6,
        165, 109, 162, 76, 12, 43, 250, 109, 235, 133, 39, 237, 77, 215, 239, 68, 26, 7, 11, 115,
        68, 37, 73, 22, 253, 55, 55, 209, 86, 104, 229, 31,
    ];
    assert_eq!(data.as_slice(), expected.as_slice());
}

#[test]
fn cipher_short_buffer_untouched() {
    let mut data = seq_buf(127);
    let before = data.clone();
    let key = vec![0u8; 16];
    xxtea_encrypt(&mut data, &key);
    assert_eq!(data, before);
}

#[test]
fn cipher_empty_buffer_untouched() {
    let mut data: Vec<u8> = Vec::new();
    xxtea_encrypt(&mut data, &vec![1u8, 2, 3, 4]);
    assert!(data.is_empty());
}

#[test]
fn cipher_deterministic_two_calls() {
    let key: Vec<u8> = (100u8..116).collect();
    let mut a = seq_buf(128);
    let mut b = seq_buf(128);
    xxtea_encrypt(&mut a, &key);
    xxtea_encrypt(&mut b, &key);
    assert_eq!(a, b);
}

#[test]
fn cipher_zero_key_not_identity() {
    let mut data = vec![0x41u8; 128];
    let key = vec![0u8; 16];
    xxtea_encrypt(&mut data, &key);
    assert_ne!(data, vec![0x41u8; 128]);
    // exact first block words of the round-constant-only transform
    assert_eq!(
        &data[..16],
        &[186, 246, 160, 241, 30, 204, 17, 218, 203, 139, 217, 165, 183, 143, 51, 135]
    );
}

#[test]
fn cipher_short_key_zero_padded() {
    let mut a = seq_buf(128);
    let mut b = seq_buf(128);
    let short_key = vec![9u8, 8, 7, 6];
    let mut padded = short_key.clone();
    padded.resize(16, 0);
    xxtea_encrypt(&mut a, &short_key);
    xxtea_encrypt(&mut b, &padded);
    assert_eq!(a, b);
}

#[test]
fn cipher_tail_beyond_block_untouched() {
    let mut data = seq_buf(130);
    let key = vec![1u8; 16];
    xxtea_encrypt(&mut data, &key);
    assert_eq!(data[128], 128);
    assert_eq!(data[129], 129);
}

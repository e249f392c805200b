use launchpad::entropy::{digest_residue, entropy_input, u64_be_bytes};
use launchpad::AccountId;

#[test]
fn be_bytes_put_the_high_byte_first() {
    assert_eq!(u64_be_bytes(0), [0, 0, 0, 0, 0, 0, 0, 0]);
    assert_eq!(u64_be_bytes(258), [0, 0, 0, 0, 0, 0, 1, 2]);
    assert_eq!(u64_be_bytes(0x0102030405060708), [1, 2, 3, 4, 5, 6, 7, 8]);
    assert_eq!(u64_be_bytes(u64::MAX), [255; 8]);
    assert_eq!(u64_be_bytes(1682899200001), 1682899200001u64.to_be_bytes());
}

#[test]
fn entropy_input_is_salt_caller_time() {
    let alice = AccountId { bytes: [1u8; 32] };
    let input = entropy_input(258, &alice, 65537);
    let mut expected: Vec<u8> = vec![0, 0, 0, 0, 0, 0, 1, 2];
    expected.extend_from_slice(&[1u8; 32]);
    expected.extend_from_slice(&[0, 0, 0, 0, 0, 1, 0, 1]);
    assert_eq!(input.len(), 48);
    assert_eq!(input, expected);
}

#[test]
fn digest_residue_reads_the_whole_digest() {
    let mut digest = [0u8; 32];
    for i in 0..32 {
        digest[i] = i as u8;
    }
    assert_eq!(digest_residue(&digest, 1000), 671);
    assert_eq!(digest_residue(&digest, 7), 5);
    assert_eq!(digest_residue(&digest, u64::MAX), 3473463044036905036);
    assert_eq!(digest_residue(&digest, 1), 0);
    assert_eq!(digest_residue(&[255u8; 32], 10), 5);
    assert_eq!(digest_residue(&[255u8; 32], u64::MAX), 0);
    assert_eq!(digest_residue(&[0u8; 32], 10), 0);
    let mut low = [0u8; 32];
    low[31] = 9;
    assert_eq!(digest_residue(&low, 10), 9);
    low[30] = 1;
    assert_eq!(digest_residue(&low, 10), 5);
}

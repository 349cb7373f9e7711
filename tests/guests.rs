use pvm_host::nes_guest::{frame_checksum, guest_checksum, memory_checksum, EXPECTED_CHECKSUM};
use pvm_host::driver::Interrupt;
use pvm_host::sha1_guest::{digest_prefix, run};
use sha1::Digest;

#[test]
fn sha1_guest_result_is_digest_prefix() {
    // SHA-1("abc") = a9993e364706816aba3e25717850c26c9cd0d89d
    assert_eq!(run(b"abc"), 0xa9993e364706816a);
    // SHA-1("") = da39a3ee5e6b4b0d3255bfef95601890afd80709
    assert_eq!(run(b""), 0xda39a3ee5e6b4b0d);
}

#[test]
fn sha1_guest_matches_digest_for_a_kilobyte() {
    let data: Vec<u8> = (0..1024u32).map(|i| (i * 31 % 251) as u8).collect();
    let d = sha1::Sha1::digest(&data);
    let expected = u64::from_be_bytes([d[0], d[1], d[2], d[3], d[4], d[5], d[6], d[7]]);
    assert_eq!(run(&data), expected);
}

#[test]
fn digest_prefix_is_big_endian() {
    assert_eq!(digest_prefix(&[1, 2, 3, 4, 5, 6, 7, 8, 9, 10]), 0x0102030405060708);
    assert_eq!(digest_prefix(&[0xff; 8]), u64::MAX);
}

#[test]
fn frame_checksum_shifts_by_position_and_frame() {
    assert_eq!(frame_checksum(0, 0, &[1, 1]), 3);
    assert_eq!(frame_checksum(0, 15, &[1, 1]), 0x8001);
    assert_eq!(frame_checksum(0xff, 0, &[]), 0xff);
    assert_eq!(frame_checksum(0, 1, &[0x1ff; 16]), (0..16).fold(0u32, |c, i| c ^ (0x1ffu32 << ((1 + i) % 16))));
}

#[test]
fn memory_checksum_shifts_by_address() {
    assert_eq!(memory_checksum(0, &[1, 1, 1, 1, 1]), 0x01010100);
    assert_eq!(memory_checksum(0, &[0xc2, 0xde]), 0xdec2);
}

#[test]
fn guest_checksum_folds_frames_then_ram() {
    assert_eq!(guest_checksum(&vec![vec![2]], &[0xff]), 0xfd);
    assert_eq!(guest_checksum(&vec![vec![1], vec![1]], &[]), 1 ^ 2);
    assert_eq!(guest_checksum(&vec![], &[0, 0, 0xde, 0xc2]), EXPECTED_CHECKSUM);
}

#[test]
fn panic_handler_spins_until_gas_runs_out() {
    assert_eq!(pvm_host::sha1_guest::panic(10, 3), (Interrupt::NotEnoughGas, -2));
    assert_eq!(pvm_host::sha1_guest::panic(9, 3), (Interrupt::NotEnoughGas, -3));
    assert_eq!(pvm_host::sha1_guest::panic(0, 1), (Interrupt::NotEnoughGas, -1));
    assert_eq!(pvm_host::sha1_guest::panic(-5, 2), (Interrupt::NotEnoughGas, -5));
}

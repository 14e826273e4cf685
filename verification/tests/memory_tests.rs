use avr_echo::initialize::{
    __sync_lock_test_and_set_1, info, load_data, memcpy, memory, zero_out_bss,
};
use avr_echo::write::{hex_digit, newline, raw, slice_hex, str, strln, u8_hex};

#[test]
fn bss_is_cleared() {
    let mut bss = vec![1u8, 2, 3, 0xff];
    zero_out_bss(&mut bss);
    assert_eq!(bss, vec![0u8; 4]);
    let mut empty: Vec<u8> = Vec::new();
    zero_out_bss(&mut empty);
    assert!(empty.is_empty());
}

#[test]
fn data_is_loaded_from_the_image() {
    let mut data = vec![0u8; 3];
    load_data(&mut data, &[9, 8, 7, 6, 5]);
    assert_eq!(data, vec![9, 8, 7]);
}

#[test]
fn memory_does_both() {
    let mut data = vec![0xaau8; 2];
    let mut bss = vec![0x55u8; 3];
    memory(&mut data, &[1, 2], &mut bss);
    assert_eq!(data, vec![1, 2]);
    assert_eq!(bss, vec![0, 0, 0]);
}

#[test]
fn info_gives_the_two_lengths() {
    assert_eq!(info(0x100, 0x120, 0x120, 0x1a0), (0x20, 0x80));
    assert_eq!(info(5, 5, 7, 7), (0, 0));
}

#[test]
fn memcpy_copies_a_prefix() {
    let mut dst = vec![1u8, 2, 3, 4, 5];
    memcpy(&mut dst, &[9, 8, 7], 2);
    assert_eq!(dst, vec![9, 8, 3, 4, 5]);
    memcpy(&mut dst, &[6], 0);
    assert_eq!(dst, vec![9, 8, 3, 4, 5]);
}

#[test]
fn test_and_set_returns_what_was_held() {
    let mut cell = 3u8;
    assert_eq!(__sync_lock_test_and_set_1(&mut cell, 1), 3);
    assert_eq!(cell, 1);
}

#[test]
fn hex_digits() {
    assert_eq!(hex_digit(0), b'0');
    assert_eq!(hex_digit(9), b'9');
    assert_eq!(hex_digit(10), b'A');
    assert_eq!(hex_digit(15), b'F');
    assert_eq!(u8_hex(0x00), b"00".to_vec());
    assert_eq!(u8_hex(0x05), b"05".to_vec());
    assert_eq!(u8_hex(0x50), b"50".to_vec());
    assert_eq!(u8_hex(0xff), b"FF".to_vec());
    assert_eq!(u8_hex(0xab), b"AB".to_vec());
}

#[test]
fn slice_in_hex() {
    assert_eq!(slice_hex(&[0x00, 0x05, 0x50, 0xff]), b"000550FF".to_vec());
    assert_eq!(slice_hex(&[]), Vec::<u8>::new());
    assert_eq!(slice_hex(&0x56ab_cdefu32.to_be_bytes()), b"56ABCDEF".to_vec());
}

#[test]
fn lines() {
    assert_eq!(newline(), vec![b'\r', b'\n']);
    assert_eq!(str("OK"), b"OK".to_vec());
    assert_eq!(str(""), Vec::<u8>::new());
    assert_eq!(strln("PANIC"), b"PANIC\r\n".to_vec());
    assert_eq!(raw("raw"), b"raw\r\n".to_vec());
}

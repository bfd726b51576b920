use ares_token::error::TokenError;
use ares_token::init::{ids_equal, initialize};

const INITIALIZED: [u8; 13] = [
    0x01, // flag
    0x00, 0x80, 0xCA, 0x39, 0x61, 0x24, 0x00, 0x00, // 40_000_000_000_000, little endian
    0x41, 0x52, 0x45, 0x53, // "ARES"
];

#[test]
fn fresh_account_initializes() {
    let owner = [3u8; 32];
    let program = [3u8; 32];
    let mut buf: Vec<u8> = vec![0u8; 13];
    assert_eq!(initialize(&owner, &program, &mut buf, true), Ok(()));
    assert_eq!(buf, INITIALIZED.to_vec());
}

#[test]
fn already_initialized_account_is_rejected() {
    let owner = [3u8; 32];
    let program = [3u8; 32];
    let mut buf: Vec<u8> = vec![0u8; 13];
    buf[0] = 0x01;
    let before = buf.clone();
    assert_eq!(initialize(&owner, &program, &mut buf, true), Err(TokenError::AlreadyInitialized));
    assert_eq!(buf, before);
}

#[test]
fn nonzero_flag_counts_as_initialized() {
    let owner = [3u8; 32];
    let program = [3u8; 32];
    let mut buf: Vec<u8> = vec![0u8; 13];
    buf[0] = 0x80;
    let before = buf.clone();
    assert_eq!(initialize(&owner, &program, &mut buf, true), Err(TokenError::AlreadyInitialized));
    assert_eq!(buf, before);
}

#[test]
fn wrong_owner_is_rejected() {
    let owner = [3u8; 32];
    let mut program = [3u8; 32];
    program[31] = 4;
    let mut buf: Vec<u8> = vec![0u8; 13];
    let before = buf.clone();
    assert_eq!(initialize(&owner, &program, &mut buf, true), Err(TokenError::WrongOwner));
    assert_eq!(buf, before);
}

#[test]
fn not_rent_exempt_is_rejected() {
    let owner = [3u8; 32];
    let program = [3u8; 32];
    let mut buf: Vec<u8> = vec![0u8; 13];
    let before = buf.clone();
    assert_eq!(initialize(&owner, &program, &mut buf, false), Err(TokenError::NotRentExempt));
    assert_eq!(buf, before);
}

#[test]
fn ownership_check_precedes_funding_check() {
    // Both checks would fail; the reported error must be WrongOwner.
    let owner = [0u8; 32];
    let program = [1u8; 32];
    let mut buf: Vec<u8> = vec![0x01u8; 13];
    let before = buf.clone();
    assert_eq!(initialize(&owner, &program, &mut buf, false), Err(TokenError::WrongOwner));
    assert_eq!(buf, before);
}

#[test]
fn short_buffer_is_rejected_unchanged() {
    let owner = [3u8; 32];
    let program = [3u8; 32];
    let mut buf: Vec<u8> = vec![0u8; 5];
    assert_eq!(initialize(&owner, &program, &mut buf, true), Err(TokenError::OutOfBounds));
    assert_eq!(buf, vec![0u8; 5]);
}

#[test]
fn initialization_is_one_shot() {
    let owner = [9u8; 32];
    let program = [9u8; 32];
    let mut buf: Vec<u8> = vec![0u8; 13];
    assert_eq!(initialize(&owner, &program, &mut buf, true), Ok(()));
    let after_first = buf.clone();
    assert_eq!(initialize(&owner, &program, &mut buf, true), Err(TokenError::AlreadyInitialized));
    assert_eq!(buf, after_first);
}

#[test]
fn trailing_bytes_survive_initialization() {
    let owner = [9u8; 32];
    let program = [9u8; 32];
    let mut buf: Vec<u8> = vec![0u8; 16];
    buf[13] = 0xAB;
    buf[14] = 0xCD;
    buf[15] = 0xEF;
    assert_eq!(initialize(&owner, &program, &mut buf, true), Ok(()));
    assert_eq!(&buf[..13], &INITIALIZED);
    assert_eq!(&buf[13..], &[0xAB, 0xCD, 0xEF]);
}

#[test]
fn ids_equal_compares_every_byte() {
    let a = [0u8; 32];
    let mut b = [0u8; 32];
    assert!(ids_equal(&a, &b));
    b[31] = 1;
    assert!(!ids_equal(&a, &b));
    let mut c = [0u8; 32];
    c[0] = 1;
    assert!(!ids_equal(&a, &c));
}

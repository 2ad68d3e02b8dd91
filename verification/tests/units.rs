//! Unit tests for the leaf components: method selection, credential lookup,
//! address helpers and reply encoding.

use socks5_proxy::addr::{be16, take_bytes};
use socks5_proxy::creds::{bytes_eq, check_credentials, Credential};
use socks5_proxy::method::{select_method, Method};
use socks5_proxy::reply::{encode_failure_reply, encode_reply, encode_success_reply, CommandError};

#[test]
fn select_first_acceptable_method() {
    assert_eq!(select_method(&vec![0x00], false), 0x00);
    assert_eq!(select_method(&vec![0x01, 0x03, 0x00], false), 0x00);
    assert_eq!(select_method(&vec![0x02, 0x00], false), 0x00);
    assert_eq!(select_method(&vec![0x00, 0x02], true), 0x02);
}

#[test]
fn select_no_acceptable_method() {
    assert_eq!(select_method(&vec![], false), 0xFF);
    assert_eq!(select_method(&vec![0x02], false), 0xFF);
    assert_eq!(select_method(&vec![0x00, 0x01], true), 0xFF);
    assert_eq!(select_method(&vec![0xFF], false), 0xFF);
}

#[test]
fn selection_is_deterministic() {
    let offered = vec![0x01, 0x02, 0x00];
    let first = select_method(&offered, false);
    let second = select_method(&offered, false);
    assert_eq!(first, second);
    assert_eq!(first, 0x00);
}

#[test]
fn method_from_wire_byte() {
    assert_eq!(Method::from(0x00), Method::NoAuth);
    assert_eq!(Method::from(0x02), Method::UserPass);
    assert_eq!(Method::from(0x01), Method::NoAcceptable);
    assert_eq!(Method::from(0xFF), Method::NoAcceptable);
}

#[test]
fn method_to_wire_byte() {
    assert_eq!(Method::NoAuth.byte(), 0x00);
    assert_eq!(Method::UserPass.byte(), 0x02);
    assert_eq!(Method::NoAcceptable.byte(), 0xFF);
}

#[test]
fn reply_codes_of_command_errors() {
    assert_eq!(CommandError::ServerFailure.code(), 0x01);
    assert_eq!(CommandError::DisallowedConnection.code(), 0x02);
    assert_eq!(CommandError::NetworkUnreachable.code(), 0x03);
    assert_eq!(CommandError::HostUnreachable.code(), 0x04);
    assert_eq!(CommandError::ConnectionRefused.code(), 0x05);
    assert_eq!(CommandError::TtlExpired.code(), 0x06);
    assert_eq!(CommandError::UnsupportedCommand.code(), 0x07);
    assert_eq!(CommandError::UnsupportedAddr.code(), 0x08);
}

#[test]
fn encoded_replies() {
    assert_eq!(encode_success_reply(), vec![0x05, 0x00, 0x00, 0x01, 0, 0, 0, 0, 0, 0]);
    assert_eq!(
        encode_failure_reply(CommandError::HostUnreachable),
        vec![0x05, 0x04, 0x00, 0x01, 0, 0, 0, 0, 0, 0]
    );
    assert_eq!(encode_reply(0x42), vec![0x05, 0x42, 0x00, 0x01, 0, 0, 0, 0, 0, 0]);
}

#[test]
fn byte_string_equality() {
    assert!(bytes_eq(&vec![], &vec![]));
    assert!(bytes_eq(&vec![1, 2, 3], &vec![1, 2, 3]));
    assert!(!bytes_eq(&vec![1, 2, 3], &vec![1, 2]));
    assert!(!bytes_eq(&vec![1, 2, 3], &vec![1, 2, 4]));
}

#[test]
fn credential_lookup_is_byte_exact() {
    let table = vec![
        Credential { username: b"alice".to_vec(), password: b"pw".to_vec() },
        Credential { username: b"bob".to_vec(), password: b"hunter2".to_vec() },
    ];
    assert!(check_credentials(&table, &b"alice".to_vec(), &b"pw".to_vec()));
    assert!(check_credentials(&table, &b"bob".to_vec(), &b"hunter2".to_vec()));
    assert!(!check_credentials(&table, &b"alice".to_vec(), &b"wrong".to_vec()));
    assert!(!check_credentials(&table, &b"carol".to_vec(), &b"pw".to_vec()));
    assert!(!check_credentials(&vec![], &b"alice".to_vec(), &b"pw".to_vec()));
}

#[test]
fn big_endian_port() {
    assert_eq!(be16(0x00, 0x50), 80);
    assert_eq!(be16(0x1F, 0x90), 8080);
    assert_eq!(be16(0xFF, 0xFF), 65535);
    assert_eq!(be16(0x00, 0x00), 0);
}

#[test]
fn take_prefix_of_buffer() {
    assert_eq!(take_bytes(&vec![1, 2, 3, 4, 5], 3), vec![1, 2, 3]);
    assert_eq!(take_bytes(&vec![1, 2], 0), vec![]);
    assert_eq!(take_bytes(&vec![7], 1), vec![7]);
}

//! End-to-end protocol scenarios, driven through the session state machine
//! one event at a time.

use socks5_proxy::addr::Address;
use socks5_proxy::creds::Credential;
use socks5_proxy::session::{Event, IoAction, Session};

fn cred(user: &str, pass: &str) -> Credential {
    Credential { username: user.as_bytes().to_vec(), password: pass.as_bytes().to_vec() }
}

fn read_len(io: &IoAction) -> u16 {
    match io {
        IoAction::ReadExact { n } => *n,
        other => panic!("expected a read, got {:?}", other),
    }
}

#[test]
fn no_auth_ipv4_connect() {
    let mut s = Session::new(None);
    assert_eq!(read_len(&Session::initial_io()), 2);

    let out = s.step(Event::Bytes(vec![0x05, 0x01]));
    assert!(out.write.is_empty());
    assert_eq!(read_len(&out.io), 1);

    let out = s.step(Event::Bytes(vec![0x00]));
    assert_eq!(out.write, vec![0x05, 0x00]);
    assert_eq!(read_len(&out.io), 4);

    let out = s.step(Event::Bytes(vec![0x05, 0x01, 0x00, 0x01]));
    assert!(out.write.is_empty());
    assert_eq!(read_len(&out.io), 6);

    let out = s.step(Event::Bytes(vec![0x7F, 0x00, 0x00, 0x01, 0x00, 0x50]));
    assert!(out.write.is_empty());
    assert_eq!(
        out.io,
        IoAction::Dial { dest: Address::Ipv4 { octets: vec![0x7F, 0x00, 0x00, 0x01], port: 80 } }
    );

    let out = s.step(Event::DialSucceeded);
    assert_eq!(out.write, vec![0x05, 0x00, 0x00, 0x01, 0, 0, 0, 0, 0, 0]);
    assert_eq!(out.io, IoAction::Relay);

    let out = s.step(Event::RelayFinished);
    assert!(out.write.is_empty());
    assert_eq!(out.io, IoAction::Close);
}

#[test]
fn user_pass_success() {
    let mut s = Session::new(Some(vec![cred("alice", "pw")]));

    let out = s.step(Event::Bytes(vec![0x05, 0x01]));
    assert_eq!(read_len(&out.io), 1);

    let out = s.step(Event::Bytes(vec![0x02]));
    assert_eq!(out.write, vec![0x05, 0x02]);
    assert_eq!(read_len(&out.io), 2);

    let out = s.step(Event::Bytes(vec![0x01, 0x05]));
    assert!(out.write.is_empty());
    assert_eq!(read_len(&out.io), 5);

    let out = s.step(Event::Bytes(b"alice".to_vec()));
    assert!(out.write.is_empty());
    assert_eq!(read_len(&out.io), 1);

    let out = s.step(Event::Bytes(vec![0x02]));
    assert!(out.write.is_empty());
    assert_eq!(read_len(&out.io), 2);

    let out = s.step(Event::Bytes(b"pw".to_vec()));
    assert_eq!(out.write, vec![0x01, 0x00]);
    assert_eq!(read_len(&out.io), 4);

    let out = s.step(Event::Bytes(vec![0x05, 0x01, 0x00, 0x01]));
    assert_eq!(read_len(&out.io), 6);
    let out = s.step(Event::Bytes(vec![0x7F, 0x00, 0x00, 0x01, 0x00, 0x50]));
    assert!(matches!(out.io, IoAction::Dial { .. }));
    let out = s.step(Event::DialSucceeded);
    assert_eq!(out.write, vec![0x05, 0x00, 0x00, 0x01, 0, 0, 0, 0, 0, 0]);
    assert_eq!(out.io, IoAction::Relay);
}

#[test]
fn user_pass_failure() {
    let mut s = Session::new(Some(vec![cred("alice", "pw")]));

    let out = s.step(Event::Bytes(vec![0x05, 0x01]));
    assert_eq!(read_len(&out.io), 1);
    let out = s.step(Event::Bytes(vec![0x02]));
    assert_eq!(out.write, vec![0x05, 0x02]);
    let out = s.step(Event::Bytes(vec![0x01, 0x05]));
    assert_eq!(read_len(&out.io), 5);
    let out = s.step(Event::Bytes(b"alice".to_vec()));
    assert_eq!(read_len(&out.io), 1);
    let out = s.step(Event::Bytes(vec![0x05]));
    assert_eq!(read_len(&out.io), 5);

    let out = s.step(Event::Bytes(b"wrong".to_vec()));
    assert_eq!(out.write, vec![0x01, 0x01]);
    assert_eq!(out.io, IoAction::Close);
}

#[test]
fn unsupported_method() {
    let mut s = Session::new(None);

    let out = s.step(Event::Bytes(vec![0x05, 0x01]));
    assert_eq!(read_len(&out.io), 1);

    let out = s.step(Event::Bytes(vec![0x02]));
    assert_eq!(out.write, vec![0x05, 0xFF]);
    assert_eq!(out.io, IoAction::Close);
}

#[test]
fn unsupported_command() {
    let mut s = Session::new(None);

    let out = s.step(Event::Bytes(vec![0x05, 0x01]));
    assert_eq!(read_len(&out.io), 1);
    let out = s.step(Event::Bytes(vec![0x00]));
    assert_eq!(out.write, vec![0x05, 0x00]);
    assert_eq!(read_len(&out.io), 4);

    let out = s.step(Event::Bytes(vec![0x05, 0x02, 0x00, 0x01]));
    assert_eq!(out.write, vec![0x05, 0x07, 0x00, 0x01, 0, 0, 0, 0, 0, 0]);
    assert_eq!(out.io, IoAction::Close);
}

#[test]
fn domain_dial_to_nonexistent_host() {
    let mut s = Session::new(None);

    let out = s.step(Event::Bytes(vec![0x05, 0x01]));
    assert_eq!(read_len(&out.io), 1);
    let out = s.step(Event::Bytes(vec![0x00]));
    assert_eq!(out.write, vec![0x05, 0x00]);

    let out = s.step(Event::Bytes(vec![0x05, 0x01, 0x00, 0x03]));
    assert!(out.write.is_empty());
    assert_eq!(read_len(&out.io), 1);

    let out = s.step(Event::Bytes(vec![0x0A]));
    assert!(out.write.is_empty());
    assert_eq!(read_len(&out.io), 12);

    let mut body = b"nosuch.xyz".to_vec();
    body.push(0x00);
    body.push(0x50);
    let out = s.step(Event::Bytes(body));
    assert!(out.write.is_empty());
    assert_eq!(
        out.io,
        IoAction::Dial { dest: Address::Domain { name: b"nosuch.xyz".to_vec(), port: 80 } }
    );

    let out = s.step(Event::DialFailed);
    assert_eq!(out.write, vec![0x05, 0x04, 0x00, 0x01, 0, 0, 0, 0, 0, 0]);
    assert_eq!(out.io, IoAction::Close);
}

#[test]
fn bad_greeting_version_closes_silently() {
    let mut s = Session::new(None);
    let out = s.step(Event::Bytes(vec![0x04, 0x01]));
    assert!(out.write.is_empty());
    assert_eq!(out.io, IoAction::Close);
}

#[test]
fn bad_auth_version_closes_silently() {
    let mut s = Session::new(Some(vec![cred("alice", "pw")]));
    let out = s.step(Event::Bytes(vec![0x05, 0x01]));
    assert_eq!(read_len(&out.io), 1);
    let out = s.step(Event::Bytes(vec![0x02]));
    assert_eq!(out.write, vec![0x05, 0x02]);

    let out = s.step(Event::Bytes(vec![0x02, 0x05]));
    assert!(out.write.is_empty());
    assert_eq!(out.io, IoAction::Close);
}

#[test]
fn bad_request_version_closes_silently() {
    let mut s = Session::new(None);
    let out = s.step(Event::Bytes(vec![0x05, 0x01]));
    assert_eq!(read_len(&out.io), 1);
    let out = s.step(Event::Bytes(vec![0x00]));
    assert_eq!(out.write, vec![0x05, 0x00]);

    let out = s.step(Event::Bytes(vec![0x04, 0x01, 0x00, 0x01]));
    assert!(out.write.is_empty());
    assert_eq!(out.io, IoAction::Close);
}

#[test]
fn unsupported_address_type() {
    let mut s = Session::new(None);
    let out = s.step(Event::Bytes(vec![0x05, 0x01]));
    assert_eq!(read_len(&out.io), 1);
    let out = s.step(Event::Bytes(vec![0x00]));
    assert_eq!(out.write, vec![0x05, 0x00]);

    let out = s.step(Event::Bytes(vec![0x05, 0x01, 0x00, 0x05]));
    assert_eq!(out.write, vec![0x05, 0x08, 0x00, 0x01, 0, 0, 0, 0, 0, 0]);
    assert_eq!(out.io, IoAction::Close);
}

#[test]
fn ipv6_connect() {
    let mut s = Session::new(None);
    let out = s.step(Event::Bytes(vec![0x05, 0x01]));
    assert_eq!(read_len(&out.io), 1);
    let out = s.step(Event::Bytes(vec![0x00]));
    assert_eq!(out.write, vec![0x05, 0x00]);

    let out = s.step(Event::Bytes(vec![0x05, 0x01, 0x00, 0x04]));
    assert_eq!(read_len(&out.io), 18);

    let mut body = vec![0u8; 16];
    body[15] = 0x01;
    body.push(0x1F);
    body.push(0x90);
    let out = s.step(Event::Bytes(body));
    let mut octets = vec![0u8; 16];
    octets[15] = 0x01;
    assert_eq!(out.io, IoAction::Dial { dest: Address::Ipv6 { octets, port: 8080 } });
}

#[test]
fn invalid_utf8_domain_yields_server_failure() {
    let mut s = Session::new(None);
    let out = s.step(Event::Bytes(vec![0x05, 0x01]));
    assert_eq!(read_len(&out.io), 1);
    let out = s.step(Event::Bytes(vec![0x00]));
    assert_eq!(out.write, vec![0x05, 0x00]);

    let out = s.step(Event::Bytes(vec![0x05, 0x01, 0x00, 0x03]));
    assert_eq!(read_len(&out.io), 1);
    let out = s.step(Event::Bytes(vec![0x02]));
    assert_eq!(read_len(&out.io), 4);

    let out = s.step(Event::Bytes(vec![0xFF, 0xFE, 0x00, 0x50]));
    assert_eq!(out.write, vec![0x05, 0x01, 0x00, 0x01, 0, 0, 0, 0, 0, 0]);
    assert_eq!(out.io, IoAction::Close);
}

#[test]
fn invalid_utf8_username_closes_silently() {
    let mut s = Session::new(Some(vec![cred("alice", "pw")]));
    let out = s.step(Event::Bytes(vec![0x05, 0x01]));
    assert_eq!(read_len(&out.io), 1);
    let out = s.step(Event::Bytes(vec![0x02]));
    assert_eq!(out.write, vec![0x05, 0x02]);
    let out = s.step(Event::Bytes(vec![0x01, 0x02]));
    assert_eq!(read_len(&out.io), 2);

    let out = s.step(Event::Bytes(vec![0xC0, 0x80]));
    assert!(out.write.is_empty());
    assert_eq!(out.io, IoAction::Close);
}

#[test]
fn empty_method_list_is_unacceptable() {
    let mut s = Session::new(None);
    let out = s.step(Event::Bytes(vec![0x05, 0x00]));
    assert_eq!(read_len(&out.io), 0);
    let out = s.step(Event::Bytes(vec![]));
    assert_eq!(out.write, vec![0x05, 0xFF]);
    assert_eq!(out.io, IoAction::Close);
}

#[test]
fn empty_username_and_password_match_an_empty_pair() {
    let mut s = Session::new(Some(vec![cred("", "")]));
    let out = s.step(Event::Bytes(vec![0x05, 0x01]));
    assert_eq!(read_len(&out.io), 1);
    let out = s.step(Event::Bytes(vec![0x02]));
    assert_eq!(out.write, vec![0x05, 0x02]);
    let out = s.step(Event::Bytes(vec![0x01, 0x00]));
    assert_eq!(read_len(&out.io), 0);
    let out = s.step(Event::Bytes(vec![]));
    assert_eq!(read_len(&out.io), 1);
    let out = s.step(Event::Bytes(vec![0x00]));
    assert_eq!(read_len(&out.io), 0);
    let out = s.step(Event::Bytes(vec![]));
    assert_eq!(out.write, vec![0x01, 0x00]);
    assert_eq!(read_len(&out.io), 4);
}

//! Wire-codec behaviour: round trips, exact byte layouts, and the decode
//! failures for malformed payloads.

use su_broker::request::SuRequest;
use su_broker::wire::{read_bool, read_gids, read_i32, read_str, read_u32, write_i32, write_u32};

fn sample_request() -> SuRequest {
    SuRequest {
        target_uid: 10100,
        target_pid: 4242,
        login: true,
        keep_env: false,
        shell: String::from("/system/bin/sh"),
        command: String::from("id"),
        context: String::from("u:r:su:s0"),
        gids: vec![1015, 3003],
    }
}

#[test]
fn u32_round_trip_via_bytes() {
    let mut out: Vec<u8> = Vec::new();
    write_u32(&mut out, 0xdead_beef);
    assert_eq!(out, vec![0xef, 0xbe, 0xad, 0xde]);
    let (x, p) = read_u32(&out, 0).unwrap();
    assert_eq!(x, 0xdead_beef);
    assert_eq!(p, 4);
}

#[test]
fn i32_negative_round_trip() {
    let mut out: Vec<u8> = Vec::new();
    write_i32(&mut out, -2);
    assert_eq!(out, vec![0xfe, 0xff, 0xff, 0xff]);
    let (x, p) = read_i32(&out, 0).unwrap();
    assert_eq!(x, -2);
    assert_eq!(p, 4);
}

#[test]
fn read_u32_truncated_fails() {
    assert!(read_u32(&[1, 2, 3], 0).is_none());
    assert!(read_u32(&[1, 2, 3, 4, 5], 2).is_none());
}

#[test]
fn read_bool_rejects_other_bytes() {
    assert_eq!(read_bool(&[0], 0).unwrap().0, false);
    assert_eq!(read_bool(&[1], 0).unwrap().0, true);
    assert!(read_bool(&[2], 0).is_none());
    assert!(read_bool(&[], 0).is_none());
}

#[test]
fn read_str_multibyte_utf8() {
    // "naïve" spans a two-byte UTF-8 sequence; the length prefix counts
    // bytes, not characters.
    let mut out: Vec<u8> = Vec::new();
    let bytes = "na\u{ef}ve".as_bytes();
    write_u32(&mut out, bytes.len() as u32);
    out.extend_from_slice(bytes);
    let (s, p) = read_str(&out, 0).unwrap();
    assert_eq!(s, "na\u{ef}ve");
    assert_eq!(p, out.len());
}

#[test]
fn read_str_invalid_utf8_fails() {
    let mut out: Vec<u8> = Vec::new();
    write_u32(&mut out, 2);
    out.extend_from_slice(&[0xff, 0xfe]);
    assert!(read_str(&out, 0).is_none());
}

#[test]
fn read_str_truncated_body_fails() {
    let mut out: Vec<u8> = Vec::new();
    write_u32(&mut out, 10);
    out.extend_from_slice(b"abc");
    assert!(read_str(&out, 0).is_none());
}

#[test]
fn read_gids_oversized_count_fails() {
    let mut out: Vec<u8> = Vec::new();
    write_u32(&mut out, 65537);
    for _ in 0..4 {
        out.push(0);
    }
    assert!(read_gids(&out, 0).is_none());
}

#[test]
fn read_gids_empty_list() {
    let mut out: Vec<u8> = Vec::new();
    write_u32(&mut out, 0);
    let (g, p) = read_gids(&out, 0).unwrap();
    assert!(g.is_empty());
    assert_eq!(p, 4);
}

#[test]
fn request_round_trip() {
    let r = sample_request();
    let bytes = r.encode_to_bytes();
    let back = SuRequest::decode_from_bytes(&bytes).unwrap();
    assert_eq!(back, r);
}

#[test]
fn request_round_trip_empty_fields() {
    let r = SuRequest {
        target_uid: 0,
        target_pid: 0,
        login: false,
        keep_env: true,
        shell: String::new(),
        command: String::new(),
        context: String::new(),
        gids: vec![],
    };
    let bytes = r.encode_to_bytes();
    let back = SuRequest::decode_from_bytes(&bytes).unwrap();
    assert_eq!(back, r);
}

#[test]
fn request_exact_wire_bytes() {
    let r = SuRequest {
        target_uid: 2000,
        target_pid: 7,
        login: false,
        keep_env: true,
        shell: String::from("sh"),
        command: String::new(),
        context: String::new(),
        gids: vec![9],
    };
    let bytes = r.encode_to_bytes();
    let expected: Vec<u8> = vec![
        0xd0, 0x07, 0, 0, // target_uid = 2000
        7, 0, 0, 0, // target_pid = 7
        0, // login = false
        1, // keep_env = true
        2, 0, 0, 0, b's', b'h', // shell = "sh"
        0, 0, 0, 0, // command = ""
        0, 0, 0, 0, // context = ""
        1, 0, 0, 0, 9, 0, 0, 0, // gids = [9]
    ];
    assert_eq!(bytes, expected);
}

#[test]
fn request_decode_exact_bytes() {
    let bytes: Vec<u8> = vec![
        0x94, 0x27, 0, 0, // target_uid = 10132
        1, 0, 0, 0, // target_pid = 1
        1, // login = true
        0, // keep_env = false
        0, 0, 0, 0, // shell = ""
        2, 0, 0, 0, b'l', b's', // command = "ls"
        0, 0, 0, 0, // context = ""
        0, 0, 0, 0, // gids = []
    ];
    let r = SuRequest::decode_from_bytes(&bytes).unwrap();
    assert_eq!(r.target_uid, 10132);
    assert_eq!(r.target_pid, 1);
    assert!(r.login);
    assert!(!r.keep_env);
    assert_eq!(r.shell, "");
    assert_eq!(r.command, "ls");
    assert_eq!(r.context, "");
    assert!(r.gids.is_empty());
    // The format is canonical: re-encoding gives the same bytes back.
    assert_eq!(r.encode_to_bytes(), bytes);
}

#[test]
fn request_decode_truncated_fails() {
    let r = sample_request();
    let mut bytes = r.encode_to_bytes();
    bytes.pop();
    assert!(SuRequest::decode_from_bytes(&bytes).is_none());
}

#[test]
fn request_decode_trailing_garbage_fails() {
    let r = sample_request();
    let mut bytes = r.encode_to_bytes();
    bytes.push(0);
    assert!(SuRequest::decode_from_bytes(&bytes).is_none());
}

#[test]
fn request_decode_bad_bool_fails() {
    let r = sample_request();
    let mut bytes = r.encode_to_bytes();
    // The login flag sits right after the two 4-byte ids.
    bytes[8] = 7;
    assert!(SuRequest::decode_from_bytes(&bytes).is_none());
}

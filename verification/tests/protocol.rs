use bytes::Bytes;
use iggy_embedded::client::{handle_header_read, handle_payload_read, ClientError};
use iggy_embedded::codec::{build_request, parse_response_header};
use iggy_embedded::command::{Command, GetMe, IdentityInfo, LoginUser, Ping};

#[test]
fn ping_request_wire_encoding() {
    let frame = Ping.into_request().unwrap();
    assert_eq!(&frame[..], &[0x04, 0x00, 0x00, 0x00, 0x01, 0x00, 0x00, 0x00]);
}

#[test]
fn get_me_request_wire_encoding() {
    let frame = GetMe.into_request().unwrap();
    assert_eq!(&frame[..], &[0x04, 0x00, 0x00, 0x00, 0x14, 0x00, 0x00, 0x00]);
}

#[test]
fn build_request_prefixes_length_and_code() {
    let payload = Bytes::from(vec![0xAA, 0xBB]);
    let frame = build_request(7, &payload);
    assert_eq!(
        &frame[..],
        &[0x06, 0x00, 0x00, 0x00, 0x07, 0x00, 0x00, 0x00, 0xAA, 0xBB]
    );
}

#[test]
fn build_request_keeps_payload_unchanged() {
    let payload = Bytes::from(vec![9, 8, 7, 6, 5]);
    let frame = build_request(0x01020304, &payload);
    assert_eq!(frame.len(), 8 + 5);
    assert_eq!(&frame[0..4], &[0x09, 0x00, 0x00, 0x00]);
    assert_eq!(&frame[4..8], &[0x04, 0x03, 0x02, 0x01]);
    assert_eq!(&frame[8..], &[9, 8, 7, 6, 5]);
}

#[test]
fn parse_response_header_reads_status_then_length() {
    let header = [0x07, 0x00, 0x00, 0x00, 0x05, 0x00, 0x00, 0x00];
    let (status, len) = parse_response_header(&header);
    assert_eq!(status, 7);
    assert_eq!(len, 5);
}

#[test]
fn parse_response_header_large_values() {
    let header = [0xFF, 0xFF, 0xFF, 0xFF, 0x78, 0x56, 0x34, 0x12];
    let (status, len) = parse_response_header(&header);
    assert_eq!(status, u32::MAX);
    assert_eq!(len, 0x12345678);
}

#[test]
fn short_header_read_is_truncated() {
    let buf = [0u8; 8];
    let r = handle_header_read(&buf, 5);
    assert_eq!(r, Err(ClientError::Truncated));
}

#[test]
fn empty_header_read_is_truncated() {
    let buf = [0u8; 8];
    let r = handle_header_read(&buf, 0);
    assert_eq!(r, Err(ClientError::Truncated));
}

#[test]
fn nonzero_status_is_server_error() {
    let buf = [0x07, 0x00, 0x00, 0x00, 0x00, 0x00, 0x00, 0x00];
    let r = handle_header_read(&buf, 8);
    assert_eq!(r, Err(ClientError::ServerError(7)));
}

#[test]
fn zero_status_yields_declared_length() {
    let buf = [0x00, 0x00, 0x00, 0x00, 0x03, 0x00, 0x00, 0x00];
    let r = handle_header_read(&buf, 8);
    assert_eq!(r, Ok(3));
}

#[test]
fn short_payload_read_is_truncated() {
    let buf = vec![1, 2, 3];
    let r = handle_payload_read(buf, 2);
    assert_eq!(r, Err(ClientError::Truncated));
}

#[test]
fn full_payload_read_hands_bytes_back() {
    let buf = vec![1, 2, 3];
    let r = handle_payload_read(buf, 3).unwrap();
    assert_eq!(&r[..], &[1, 2, 3]);
}

#[test]
fn empty_payload_read_succeeds() {
    let r = handle_payload_read(Vec::new(), 0).unwrap();
    assert!(r.is_empty());
}

#[test]
fn ping_response_accepts_empty_bytes() {
    assert_eq!(Ping::from_response(Bytes::new()), Ok(()));
}

#[test]
fn ping_response_accepts_any_bytes() {
    assert_eq!(Ping::from_response(Bytes::from(vec![1, 2, 3])), Ok(()));
}

#[test]
fn get_me_response_is_undecodable() {
    assert!(GetMe::from_response(Bytes::new()).is_err());
    assert!(GetMe::from_response(Bytes::from(vec![42, 0, 0, 0])).is_err());
}

#[test]
fn login_response_decodes_user_id() {
    let r = LoginUser::from_response(Bytes::from(vec![0x2A, 0x00, 0x00, 0x00])).unwrap();
    assert_eq!(
        r,
        IdentityInfo {
            user_id: 42,
            access_token: None,
        }
    );
}

#[test]
fn login_response_ignores_trailing_bytes() {
    let r = LoginUser::from_response(Bytes::from(vec![0x01, 0x00, 0x00, 0x00, 0xFF])).unwrap();
    assert_eq!(r.user_id, 1);
}

#[test]
fn login_response_rejects_short_payload() {
    assert!(LoginUser::from_response(Bytes::from(vec![0x2A, 0x00, 0x00])).is_err());
    assert!(LoginUser::from_response(Bytes::new()).is_err());
}

#[test]
fn login_payload_without_optional_strings() {
    let cmd = LoginUser::new("ab", "c", None, None);
    let payload = cmd.serialize().unwrap();
    assert_eq!(
        &payload[..],
        &[
            2, b'a', b'b', 1, b'c', 0x00, 0x00, 0x00, 0x00, 0x00, 0x00, 0x00, 0x00
        ]
    );
}

#[test]
fn login_payload_with_optional_strings() {
    let cmd = LoginUser::new("u", "pw", Some("v1"), Some("ctx"));
    let payload = cmd.serialize().unwrap();
    assert_eq!(
        &payload[..],
        &[
            1, b'u', 2, b'p', b'w', 0x02, 0x00, 0x00, 0x00, b'v', b'1', 0x03, 0x00, 0x00, 0x00,
            b'c', b't', b'x'
        ]
    );
}

#[test]
fn login_request_frame() {
    let cmd = LoginUser::new("ab", "c", None, None);
    let frame = cmd.into_request().unwrap();
    // payload is 13 bytes, so the length field is 4 + 13 = 17 and code is 38
    assert_eq!(&frame[0..4], &[17, 0, 0, 0]);
    assert_eq!(&frame[4..8], &[38, 0, 0, 0]);
    assert_eq!(
        &frame[8..],
        &[
            2, b'a', b'b', 1, b'c', 0x00, 0x00, 0x00, 0x00, 0x00, 0x00, 0x00, 0x00
        ]
    );
}

#[test]
fn login_rejects_long_username() {
    let long: &'static str = String::from_utf8(vec![b'a'; 256]).unwrap().leak();
    let cmd = LoginUser::new(long, "pw", None, None);
    assert!(cmd.serialize().is_err());
    let cmd = LoginUser::new(long, "pw", None, None);
    assert!(cmd.into_request().is_err());
}

#[test]
fn login_rejects_long_password() {
    let long: &'static str = String::from_utf8(vec![b'p'; 300]).unwrap().leak();
    let cmd = LoginUser::new("user", long, None, None);
    assert!(cmd.serialize().is_err());
}

#[test]
fn login_accepts_255_byte_names() {
    let name: &'static str = String::from_utf8(vec![b'n'; 255]).unwrap().leak();
    let cmd = LoginUser::new(name, name, None, None);
    let payload = cmd.serialize().unwrap();
    assert_eq!(payload.len(), 1 + 255 + 1 + 255 + 4 + 4);
    assert_eq!(payload[0], 255);
    assert_eq!(payload[256], 255);
}

#[test]
fn command_codes_are_protocol_constants() {
    assert_eq!(Ping.code(), 1);
    assert_eq!(GetMe.code(), 20);
    assert_eq!(LoginUser::new("a", "b", None, None).code(), 38);
}

#[test]
fn multibyte_username_counts_utf8_bytes() {
    // two characters, three UTF-8 bytes
    let cmd = LoginUser::new("a\u{e9}", "x", None, None);
    let payload = cmd.serialize().unwrap();
    assert_eq!(payload[0], 3);
    assert_eq!(&payload[1..4], "a\u{e9}".as_bytes());
}

#[test]
fn config_carries_startup_fields() {
    let cfg = iggy_embedded::config::Config {
        wifi_ssid: "net",
        wifi_psk: "key",
        tcp_server: "10.0.0.1:8090",
        username: "u",
        password: "p",
    };
    assert_eq!(cfg.tcp_server, "10.0.0.1:8090");
    assert_eq!(cfg.username, "u");
}

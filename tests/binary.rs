use mcp_server::binary::{
    encode_frame, BinaryAction, BinarySession, MSG_TYPE_ERROR, MSG_TYPE_HANDSHAKE, MSG_TYPE_QUERY,
};
use mcp_server::query::{guard_read_query, is_write_query, query_error_code, starts_with_write_keyword, DbError};

fn frame(tag: u8, payload: &[u8]) -> Vec<u8> {
    encode_frame(tag, payload).to_vec()
}

#[test]
fn frame_layout_is_tag_length_payload() {
    assert_eq!(frame(MSG_TYPE_ERROR, b"hi"), vec![3, 0, 0, 0, 2, b'h', b'i']);
    let big = vec![7u8; 300];
    let f = frame(2, &big);
    assert_eq!(&f[..5], &[2, 0, 0, 1, 44]);
    assert_eq!(f.len(), 305);
}

#[test]
fn split_message_decodes_once_whole() {
    let payload = br#"{"query":"select 1","params":[]}"#;
    let whole = frame(MSG_TYPE_QUERY, payload);
    let mut s = BinarySession::new();
    s.receive(&whole[..9]);
    assert!(s.next_frame().is_none());
    s.receive(&whole[9..]);
    let f = s.next_frame().expect("one whole message");
    assert_eq!(f.tag, MSG_TYPE_QUERY);
    assert_eq!(f.payload, payload.to_vec());
    assert!(s.next_frame().is_none());
}

#[test]
fn short_header_waits() {
    let mut s = BinarySession::new();
    s.receive(&[4, 0, 0]);
    assert!(s.process_message().is_none());
    s.receive(&[0, 0]);
    match s.process_message() {
        Some(BinaryAction::Handshake(p)) => assert!(p.is_empty()),
        _ => panic!("expected an empty handshake"),
    }
}

#[test]
fn query_before_handshake_needs_authentication() {
    let mut s = BinarySession::new();
    s.receive(&frame(MSG_TYPE_QUERY, b"{}"));
    match s.process_message() {
        Some(BinaryAction::SendError { message, code }) => {
            assert_eq!(message, "Not authenticated");
            assert_eq!(code, "AUTH_REQUIRED");
        }
        _ => panic!("a query before the handshake must not run"),
    }
    assert!(!s.is_authenticated());
}

#[test]
fn handshake_then_query_runs() {
    let mut s = BinarySession::new();
    s.receive(&frame(MSG_TYPE_HANDSHAKE, b"{}"));
    assert!(matches!(s.process_message(), Some(BinaryAction::Handshake(_))));
    let bad = s.complete_handshake("guess", "development_token");
    assert!(!bad.success);
    assert_eq!(bad.message, "Authentication failed");
    assert!(!s.is_authenticated());
    let ok = s.complete_handshake("development_token", "development_token");
    assert!(ok.success);
    assert_eq!(ok.server_name, "Rust MCP PostgreSQL Server");
    assert_eq!(ok.message, "Authentication successful");
    s.receive(&frame(MSG_TYPE_QUERY, b"{\"q\":1}"));
    match s.process_message() {
        Some(BinaryAction::Query(p)) => assert_eq!(p, b"{\"q\":1}".to_vec()),
        _ => panic!("an authenticated query runs"),
    }
}

#[test]
fn unknown_message_type_is_reported() {
    let mut s = BinarySession::new();
    s.receive(&frame(9, b""));
    match s.process_message() {
        Some(BinaryAction::SendError { code, .. }) => assert_eq!(code, "INVALID_MESSAGE"),
        _ => panic!("expected an error"),
    }
}

#[test]
fn two_messages_in_one_read_come_out_in_order() {
    let mut s = BinarySession::new();
    let mut both = frame(MSG_TYPE_HANDSHAKE, b"a");
    both.extend(frame(MSG_TYPE_QUERY, b"b"));
    s.receive(&both);
    assert!(matches!(s.process_message(), Some(BinaryAction::Handshake(_))));
    assert!(matches!(s.process_message(), Some(BinaryAction::SendError { .. })));
    assert!(s.process_message().is_none());
}

#[test]
fn write_queries_are_refused() {
    assert!(is_write_query("  INSERT INTO t VALUES (1)"));
    assert!(is_write_query("\n\tDrop table users"));
    assert!(is_write_query("alter table t add c int"));
    assert!(!is_write_query("SELECT * FROM users LIMIT 10"));
    assert!(!is_write_query("  with x as (select 1) select * from x"));
    assert!(matches!(guard_read_query("Update t set a = 1"), Err(DbError::WriteAttempted)));
    assert!(guard_read_query("select 1").is_ok());
    assert!(starts_with_write_keyword("create table"));
    assert!(!starts_with_write_keyword("CREATE table"));
}

#[test]
fn query_error_codes_and_messages() {
    assert_eq!(query_error_code(&DbError::WriteAttempted), "WRITE_ATTEMPT");
    assert_eq!(query_error_code(&DbError::Database("x".to_string())), "DB_ERROR");
    assert_eq!(query_error_code(&DbError::Serialization("x".to_string())), "QUERY_ERROR");
    assert_eq!(DbError::WriteAttempted.message(), "Write operation attempted");
    assert_eq!(DbError::Protocol("bad".to_string()).message(), "Protocol error: bad");
}

#[test]
fn unknown_message_type_message() {
    let mut s = BinarySession::new();
    s.receive(&frame(7, b"x"));
    match s.process_message() {
        Some(BinaryAction::SendError { message, code }) => {
            assert_eq!(message, "Unknown message type");
            assert_eq!(code, "INVALID_MESSAGE");
        }
        _ => panic!("expected an error"),
    }
}

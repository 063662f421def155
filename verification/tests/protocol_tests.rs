use pawn_hearts::board::{BoardMove, BoardPos};
use pawn_hearts::codec::{Message, ProtocolError};
use pawn_hearts::protocol::{Client, ClientConnection, Host, HostConnection};

#[test]
fn client_handshake_happy_path() {
    let mut client = Client::new();
    assert!(matches!(client.state, ClientConnection::Begin));
    assert!(!client.is_connected());

    let hello = client.hello_bytes();
    assert_eq!(hello, vec![0xDE, 0xAD, 0xBE, 0xEF, 0x02]);
    client.on_hello_sent();
    assert!(matches!(client.state, ClientConnection::SessionIdRead));

    let reply = [0xDE, 0xAD, 0xBE, 0xEF, 10, 20, 30, 40];
    client.on_session_reply(&reply).unwrap();
    assert!(client.is_connected());
    assert_eq!(client.session_id, vec![10, 20, 30, 40]);
}

#[test]
fn client_rejects_bad_reply_length() {
    let mut client = Client::new();
    client.on_hello_sent();
    let r = client.on_session_reply(&[0xDE, 0xAD, 0xBE, 0xEF, 1, 2, 3]);
    assert_eq!(r, Err(ProtocolError::HandshakeLength));
    assert!(!client.is_connected());
}

#[test]
fn client_rejects_bad_reply_header() {
    let mut client = Client::new();
    client.on_hello_sent();
    let r = client.on_session_reply(&[0xDE, 0xAD, 0xBE, 0xEE, 1, 2, 3, 4]);
    assert_eq!(r, Err(ProtocolError::HandshakeHeader));
    assert!(!client.is_connected());
}

#[test]
fn host_handshake_happy_path() {
    let mut host = Host::new();
    assert!(matches!(host.state, HostConnection::Begin));
    host.on_accept();
    assert!(matches!(host.state, HostConnection::HandshakeRead));

    host.on_handshake(&[0xDE, 0xAD, 0xBE, 0xEF, 0x02]).unwrap();
    assert!(matches!(host.state, HostConnection::HandshakeRespond));

    let reply = host.reply_bytes();
    assert_eq!(reply.len(), 8);
    assert_eq!(&reply[..4], &[0xDE, 0xAD, 0xBE, 0xEF]);
    assert_eq!(&reply[4..], host.session_id.as_slice());

    host.on_reply_sent();
    assert!(host.is_connected());
}

#[test]
fn host_rejects_bad_hello() {
    let mut host = Host::new();
    host.on_accept();
    assert_eq!(
        host.on_handshake(&[0xDE, 0xAD, 0xBE, 0xEF]),
        Err(ProtocolError::HandshakeLength)
    );
    assert_eq!(
        host.on_handshake(&[0xDE, 0xAD, 0xBE, 0x00, 0x02]),
        Err(ProtocolError::HandshakeHeader)
    );
    assert_eq!(
        host.on_handshake(&[0xDE, 0xAD, 0xBE, 0xEF, 0x03]),
        Err(ProtocolError::HandshakeVersion)
    );
    assert!(matches!(host.state, HostConnection::HandshakeRead));
}

#[test]
fn handshake_reply_understood_by_client() {
    let mut host = Host::new();
    host.on_accept();
    host.on_handshake(&[0xDE, 0xAD, 0xBE, 0xEF, 0x02]).unwrap();
    let reply = host.reply_bytes();
    host.on_reply_sent();

    let mut client = Client::new();
    client.on_hello_sent();
    client.on_session_reply(&reply).unwrap();
    assert_eq!(client.session_id, host.session_id);
}

#[test]
fn steady_state_message_exchange() {
    let mut host = Host::new();
    host.on_accept();
    host.on_handshake(&[0xDE, 0xAD, 0xBE, 0xEF, 0x02]).unwrap();
    let reply = host.reply_bytes();
    host.on_reply_sent();
    let mut client = Client::new();
    client.on_hello_sent();
    client.on_session_reply(&reply).unwrap();

    // client -> host
    let m = BoardMove::new(BoardPos { row: 1, col: 4 }, BoardPos { row: 3, col: 4 });
    client.send(Message::Moved(m));
    let frame = client.next_outgoing_frame().unwrap();
    assert!(client.next_outgoing_frame().is_none());
    host.on_frames(&frame).unwrap();
    assert_eq!(host.recv(), Some(Message::Moved(m)));
    assert_eq!(host.recv(), None);

    // host -> client, two messages in one read
    host.send(Message::Accepted());
    host.send(Message::GameDone());
    let mut buf = host.next_outgoing_frame().unwrap();
    buf.extend_from_slice(&host.next_outgoing_frame().unwrap());
    client.on_frames(&buf).unwrap();
    assert_eq!(client.recv(), Some(Message::Accepted()));
    assert_eq!(client.recv(), Some(Message::GameDone()));
    assert_eq!(client.recv(), None);
}

#[test]
fn frames_of_other_sessions_are_dropped() {
    let mut host = Host::new();
    host.on_accept();
    host.on_handshake(&[0xDE, 0xAD, 0xBE, 0xEF, 0x02]).unwrap();
    host.on_reply_sent();

    let mut other = host.session_id.clone();
    other[0] = other[0].wrapping_add(1);
    let mut buf = other;
    buf.push(0x03);
    host.on_frames(&buf).unwrap();
    assert_eq!(host.recv(), None);
}

#[test]
fn host_shutdown_flag() {
    let mut host = Host::new();
    assert!(!host.is_shutdown());
    host.mark_shutdown();
    assert!(host.is_shutdown());
}

use pawn_hearts::board::{BoardMove, BoardPos};
use pawn_hearts::codec::{decode_frames, decode_message, encode_message, Message, ProtocolError};

fn pos(row: usize, col: usize) -> BoardPos {
    BoardPos { row, col }
}

fn sid(a: u8, b: u8, c: u8, d: u8) -> Vec<u8> {
    vec![a, b, c, d]
}

#[test]
fn encode_moved_exact_bytes() {
    let m = BoardMove::new(pos(6, 4), pos(4, 4));
    let bytes = encode_message(&Message::Moved(m));
    // tag, from row/col, to row/col, then the deltas as single bytes
    assert_eq!(bytes, vec![0x01, 6, 4, 4, 4, (-2i8) as u8, 0]);
}

#[test]
fn encode_bare_messages() {
    assert_eq!(encode_message(&Message::Rejected()), vec![0x02]);
    assert_eq!(encode_message(&Message::Accepted()), vec![0x03]);
    assert_eq!(encode_message(&Message::GameDone()), vec![0x04]);
}

#[test]
fn moved_round_trip() {
    for (f, t) in [((6, 4), (4, 4)), ((0, 0), (7, 7)), ((3, 5), (2, 4)), ((7, 1), (5, 2))] {
        let m = BoardMove::new(pos(f.0, f.1), pos(t.0, t.1));
        let bytes = encode_message(&Message::Moved(m));
        let (decoded, used) = decode_message(&bytes).unwrap();
        assert_eq!(used, 7);
        assert_eq!(decoded, Message::Moved(m));
    }
}

#[test]
fn decode_bare_messages() {
    assert_eq!(decode_message(&[0x02]).unwrap(), (Message::Rejected(), 1));
    assert_eq!(decode_message(&[0x03]).unwrap(), (Message::Accepted(), 1));
    assert_eq!(decode_message(&[0x04, 0xFF]).unwrap(), (Message::GameDone(), 1));
}

#[test]
fn decode_unknown_tag_fails() {
    assert_eq!(decode_message(&[0x05]), Err(ProtocolError::UnknownMessage));
    assert_eq!(decode_message(&[]), Err(ProtocolError::UnknownMessage));
    // a Moved tag without its full payload is refused the same way
    assert_eq!(decode_message(&[0x01, 1, 2]), Err(ProtocolError::UnknownMessage));
}

#[test]
fn frames_single_message() {
    let id = sid(9, 8, 7, 6);
    let mut frame = id.clone();
    frame.extend_from_slice(&encode_message(&Message::Accepted()));
    let msgs = decode_frames(&frame, &id).unwrap();
    assert_eq!(msgs, vec![Message::Accepted()]);
}

#[test]
fn frames_back_to_back() {
    let id = sid(1, 2, 3, 4);
    let m = BoardMove::new(pos(1, 0), pos(3, 0));
    let mut buf = Vec::new();
    buf.extend_from_slice(&id);
    buf.extend_from_slice(&encode_message(&Message::Moved(m)));
    buf.extend_from_slice(&id);
    buf.extend_from_slice(&encode_message(&Message::GameDone()));
    let msgs = decode_frames(&buf, &id).unwrap();
    assert_eq!(msgs, vec![Message::Moved(m), Message::GameDone()]);
}

#[test]
fn frames_mismatched_session_dropped() {
    let id = sid(1, 2, 3, 4);
    let other = sid(1, 2, 3, 5);
    let mut buf = other.clone();
    buf.extend_from_slice(&encode_message(&Message::Accepted()));
    let msgs = decode_frames(&buf, &id).unwrap();
    assert!(msgs.is_empty());
}

#[test]
fn frames_short_remainder_dropped() {
    let id = sid(1, 2, 3, 4);
    let mut buf = id.clone();
    buf.extend_from_slice(&encode_message(&Message::Accepted()));
    buf.extend_from_slice(&[1, 2, 3]); // trailing garbage shorter than a frame
    let msgs = decode_frames(&buf, &id).unwrap();
    assert!(msgs.is_empty());
}

#[test]
fn frames_unknown_tag_fatal() {
    let id = sid(1, 2, 3, 4);
    let mut buf = id.clone();
    buf.push(0x09);
    assert_eq!(decode_frames(&buf, &id), Err(ProtocolError::UnknownMessage));
}

#[test]
fn frames_empty_read_is_no_messages() {
    let id = sid(1, 2, 3, 4);
    let msgs = decode_frames(&[], &id).unwrap();
    assert!(msgs.is_empty());
}

#[test]
fn move_to_bytes_matches_wire_payload() {
    let m = BoardMove::new(pos(3, 5), pos(2, 4));
    assert_eq!(m.to_bytes(), vec![3, 5, 2, 4, (-1i8) as u8, (-1i8) as u8]);
}

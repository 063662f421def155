//! Message codec: the small fixed application-message set, encoded as a
//! 1-byte tag followed by a tag-specific fixed payload, and the steady-state
//! frame parser that strips the 4-byte session-id prefix of each frame.

use vstd::prelude::*;

use vstd::slice::{slice_index_get, slice_subrange};

use crate::board::{BoardMove, BoardPos};

verus! {

/// A per-connection identifier: 4 bytes drawn at random by the host and
/// prefixed to every steady-state frame. A desync guard, not a credential.
pub type SessId = Vec<u8>;

/// An application message. `Moved` proposes or reports a move; the bare
/// verdicts answer a proposed move; `GameDone` announces the end of the game.
#[derive(Clone, Copy, Debug, PartialEq, Eq, Structural)]
pub enum Message {
    Moved(BoardMove),
    Rejected(),
    Accepted(),
    GameDone(),
}

/// A protocol violation or the failure of the transport under it. The
/// handshake errors and `UnknownMessage` are fatal protocol errors; `Io`
/// stands for a fatal transport error reported by the caller's socket.
#[derive(Clone, Copy, Debug, PartialEq, Eq, Structural)]
pub enum ProtocolError {
    HandshakeLength,
    HandshakeHeader,
    HandshakeVersion,
    UnknownMessage,
    Io,
}

/// The six payload bytes of a `Moved` message: origin row and column,
/// destination row and column, then the two deltas truncated to one byte
/// each.
pub open spec fn move_bytes_spec(m: BoardMove) -> Seq<u8> {
    seq![
        m.from.row as u8,
        m.from.col as u8,
        m.to.row as u8,
        m.to.col as u8,
        m.rows as u8,
        m.columns as u8,
    ]
}

/// The encoding of a message: its tag byte followed by its payload.
pub open spec fn encode_msg_spec(m: Message) -> Seq<u8> {
    match m {
        Message::Moved(bm) => seq![1u8] + move_bytes_spec(bm),
        Message::Rejected() => seq![2u8],
        Message::Accepted() => seq![3u8],
        Message::GameDone() => seq![4u8],
    }
}

/// The move read back from an encoded `Moved` payload: endpoints from the
/// four position bytes, deltas re-derived from the endpoints.
pub open spec fn decoded_move(s: Seq<u8>) -> BoardMove {
    BoardMove {
        from: BoardPos { row: s[1] as usize, col: s[2] as usize },
        to: BoardPos { row: s[3] as usize, col: s[4] as usize },
        rows: (s[3] - s[1]) as isize,
        columns: (s[4] - s[2]) as isize,
    }
}

/// The first message of `s` with the count of bytes it occupies, or `None`
/// when `s` is empty, starts with an unrecognized tag, or holds a `Moved`
/// tag without its full payload.
pub open spec fn decode_msg_spec(s: Seq<u8>) -> Option<(Message, usize)> {
    if s.len() == 0 {
        None
    } else if s[0] == 1 {
        if s.len() >= 7 {
            Some((Message::Moved(decoded_move(s)), 7usize))
        } else {
            None
        }
    } else if s[0] == 2 {
        Some((Message::Rejected(), 1usize))
    } else if s[0] == 3 {
        Some((Message::Accepted(), 1usize))
    } else if s[0] == 4 {
        Some((Message::GameDone(), 1usize))
    } else {
        None
    }
}

impl BoardMove {
    /// The six payload bytes of this move as sent on the wire.
    pub fn to_bytes(&self) -> (r: Vec<u8>)
        ensures
            r@ == move_bytes_spec(*self),
    {
        let mut bytes: Vec<u8> = Vec::new();
        bytes.push(#[verifier::truncate] (self.from.row as u8));
        bytes.push(#[verifier::truncate] (self.from.col as u8));
        bytes.push(#[verifier::truncate] (self.to.row as u8));
        bytes.push(#[verifier::truncate] (self.to.col as u8));
        bytes.push(#[verifier::truncate] (self.rows as u8));
        bytes.push(#[verifier::truncate] (self.columns as u8));
        proof {
            assert(bytes@ =~= move_bytes_spec(*self));
        }
        bytes
    }
}

/// Encodes a message as its tag byte followed by its payload.
pub fn encode_message(msg: &Message) -> (r: Vec<u8>)
    ensures
        r@ == encode_msg_spec(*msg),
{
    let mut bytes: Vec<u8> = Vec::new();
    match *msg {
        Message::Moved(m) => {
            bytes.push(0x01);
            let mut payload = m.to_bytes();
            bytes.append(&mut payload);
            proof {
                assert(bytes@ =~= encode_msg_spec(*msg));
            }
        },
        Message::Rejected() => {
            bytes.push(0x02);
            proof {
                assert(bytes@ =~= encode_msg_spec(*msg));
            }
        },
        Message::Accepted() => {
            bytes.push(0x03);
            proof {
                assert(bytes@ =~= encode_msg_spec(*msg));
            }
        },
        Message::GameDone() => {
            bytes.push(0x04);
            proof {
                assert(bytes@ =~= encode_msg_spec(*msg));
            }
        },
    }
    bytes
}

/// Decodes the first message of `bytes` and reports how many bytes it
/// consumed; the error is returned exactly when no recognized message
/// starts the buffer.
pub fn decode_message(bytes: &[u8]) -> (r: Result<(Message, usize), ProtocolError>)
    ensures
        (match decode_msg_spec(bytes@) {
            Some(p) => r == Ok::<(Message, usize), ProtocolError>(p),
            None => r == Err::<(Message, usize), ProtocolError>(ProtocolError::UnknownMessage),
        }),
{
    if bytes.len() == 0 {
        return Err(ProtocolError::UnknownMessage);
    }
    let tag = *slice_index_get(bytes, 0);
    if tag == 0x01 {
        if bytes.len() >= 7 {
            let from = BoardPos {
                row: *slice_index_get(bytes, 1) as usize,
                col: *slice_index_get(bytes, 2) as usize,
            };
            let to = BoardPos {
                row: *slice_index_get(bytes, 3) as usize,
                col: *slice_index_get(bytes, 4) as usize,
            };
            let mess = Message::Moved(BoardMove::new(from, to));
            Ok((mess, 7))
        } else {
            Err(ProtocolError::UnknownMessage)
        }
    } else if tag == 0x02 {
        Ok((Message::Rejected(), 1))
    } else if tag == 0x03 {
        Ok((Message::Accepted(), 1))
    } else if tag == 0x04 {
        Ok((Message::GameDone(), 1))
    } else {
        Err(ProtocolError::UnknownMessage)
    }
}

/// Round trip of the codec: encoding a `Moved` message whose coordinates
/// are on the board and whose deltas agree with its endpoints, then
/// decoding the bytes, reproduces the original message (and consumes
/// exactly its seven bytes).
pub proof fn lemma_moved_round_trip(m: BoardMove)
    requires
        m.from.row < 8,
        m.from.col < 8,
        m.to.row < 8,
        m.to.col < 8,
        m.deltas_consistent(),
    ensures
        decode_msg_spec(encode_msg_spec(Message::Moved(m))) == Some((Message::Moved(m), 7usize)),
{
    let s = encode_msg_spec(Message::Moved(m));
    assert(s.len() == 7);
    assert(s[0] == 1u8);
    assert(s[1] == m.from.row as u8 && s[2] == m.from.col as u8 && s[3] == m.to.row as u8 && s[4]
        == m.to.col as u8);
    assert(decoded_move(s).from == m.from);
    assert(decoded_move(s).to == m.to);
    assert(decoded_move(s).rows == m.rows);
    assert(decoded_move(s).columns == m.columns);
}

/// Whether walking the frames of `s` runs into an unrecognized message —
/// the fatal protocol error of the steady state. A short remainder or a
/// session-id mismatch ends the walk without being fatal.
pub open spec fn frames_fatal(s: Seq<u8>, sid: Seq<u8>) -> bool
    decreases s.len(),
{
    if s.len() < 5 {
        false
    } else if s.subrange(0, 4) != sid {
        false
    } else {
        match decode_msg_spec(s.skip(4)) {
            None => true,
            Some(p) => if p.1 < 1 {
                false
            } else {
                frames_fatal(s.skip(4 + p.1 as int), sid)
            },
        }
    }
}

/// Whether the walk ends by dropping the read: a non-empty remainder too
/// short for a frame, or a frame whose session-id prefix mismatches. A
/// dropped read delivers no message at all.
pub open spec fn frames_dropped(s: Seq<u8>, sid: Seq<u8>) -> bool
    decreases s.len(),
{
    if s.len() == 0 {
        false
    } else if s.len() < 5 {
        true
    } else if s.subrange(0, 4) != sid {
        true
    } else {
        match decode_msg_spec(s.skip(4)) {
            None => false,
            Some(p) => if p.1 < 1 {
                false
            } else {
                frames_dropped(s.skip(4 + p.1 as int), sid)
            },
        }
    }
}

/// The messages of the frames of `s`, in order, when the walk is neither
/// fatal nor dropped.
pub open spec fn frames_msgs(s: Seq<u8>, sid: Seq<u8>) -> Seq<Message>
    decreases s.len(),
{
    if s.len() < 5 {
        Seq::<Message>::empty()
    } else if s.subrange(0, 4) != sid {
        Seq::<Message>::empty()
    } else {
        match decode_msg_spec(s.skip(4)) {
            None => Seq::<Message>::empty(),
            Some(p) => if p.1 < 1 {
                Seq::<Message>::empty()
            } else {
                seq![p.0] + frames_msgs(s.skip(4 + p.1 as int), sid)
            },
        }
    }
}

/// Parses one read's worth of steady-state frames, each a 4-byte session id
/// followed by one message. An unrecognized message is fatal; a read with a
/// short remainder or a mismatching session id is silently dropped whole;
/// otherwise every message is delivered in order.
pub fn decode_frames(bytes: &[u8], sid: &SessId) -> (r: Result<Vec<Message>, ProtocolError>)
    requires
        sid@.len() == 4,
    ensures
        frames_fatal(bytes@, sid@) <==> r == Err::<Vec<Message>, ProtocolError>(
            ProtocolError::UnknownMessage,
        ),
        !frames_fatal(bytes@, sid@) && frames_dropped(bytes@, sid@) ==> (r matches Ok(v) && v@
            =~= Seq::<Message>::empty()),
        !frames_fatal(bytes@, sid@) && !frames_dropped(bytes@, sid@) ==> (r matches Ok(v) && v@
            == frames_msgs(bytes@, sid@)),
{
    let n = bytes.len();
    let mut out: Vec<Message> = Vec::new();
    let mut cursor: usize = 0;
    proof {
        assert(bytes@.skip(0) =~= bytes@);
    }
    while cursor < n
        invariant
            sid@.len() == 4,
            n == bytes@.len(),
            cursor <= n,
            frames_fatal(bytes@, sid@) == frames_fatal(bytes@.skip(cursor as int), sid@),
            frames_dropped(bytes@, sid@) == frames_dropped(bytes@.skip(cursor as int), sid@),
            !frames_dropped(bytes@, sid@) ==> frames_msgs(bytes@, sid@) == out@ + frames_msgs(
                bytes@.skip(cursor as int),
                sid@,
            ),
        decreases n - cursor,
    {
        let ghost suffix = bytes@.skip(cursor as int);
        if n - cursor < 5 {
            // too short for a session id and a tag: the read is dropped
            return Ok(Vec::new());
        }
        let mut sid_ok = true;
        let mut j: usize = 0;
        while j < 4
            invariant
                j <= 4,
                cursor + 4 <= n,
                n == bytes@.len(),
                sid@.len() == 4,
                sid_ok <==> (forall|k: int| 0 <= k < j ==> bytes@[cursor + k] == sid@[k]),
            decreases 4 - j,
        {
            if *slice_index_get(bytes, cursor + j) != sid[j] {
                sid_ok = false;
            }
            j += 1;
        }
        proof {
            if sid_ok {
                assert(suffix.subrange(0, 4) =~= sid@);
            } else {
                let k = choose|k: int| 0 <= k < 4 && bytes@[cursor + k] != sid@[k];
                assert(suffix.subrange(0, 4)[k] == bytes@[cursor + k]);
                assert(suffix.subrange(0, 4) != sid@);
            }
        }
        if !sid_ok {
            // a frame of another session: the read is dropped
            return Ok(Vec::new());
        }
        let rest = slice_subrange(bytes, cursor + 4, n);
        proof {
            assert(rest@ =~= suffix.skip(4));
        }
        match decode_message(rest) {
            Err(_) => {
                return Err(ProtocolError::UnknownMessage);
            },
            Ok((msg, consumed)) => {
                out.push(msg);
                cursor = cursor + 4 + consumed;
                proof {
                    assert(bytes@.skip(cursor as int) =~= suffix.skip(4 + consumed as int));
                    if !frames_dropped(bytes@, sid@) {
                        assert(out@.drop_last() + (seq![msg] + frames_msgs(
                            bytes@.skip(cursor as int),
                            sid@,
                        )) =~= out@ + frames_msgs(bytes@.skip(cursor as int), sid@));
                    }
                }
            },
        }
    }
    proof {
        assert(bytes@.skip(n as int) =~= Seq::<u8>::empty());
        assert(out@ + Seq::<Message>::empty() =~= out@);
    }
    Ok(out)
}

} // verus!

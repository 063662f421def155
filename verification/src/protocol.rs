//! Connection state machines: sequential handshake phases over a byte
//! stream, ending in a steady `Connected` state that exchanges length-framed
//! application messages. The machines here make every protocol decision;
//! the caller owns the socket, feeds bytes in and carries bytes out.

use vstd::prelude::*;

use std::collections::VecDeque;

use crate::codec::{
    decode_frames, encode_message, frames_dropped, frames_fatal, frames_msgs, Message,
    ProtocolError, SessId,
};

verus! {

/// Queue of application messages awaiting transmission or delivery.
pub type MessageQueue = VecDeque<Message>;

/// Relies on rand::random: draws a value of any type that rand's `Standard`
/// distribution covers. Nothing is promised of the value; the session id
/// drawn from it is a desync guard, not a secret.
pub assume_specification<T>[ rand::random::<T> ]() -> (r: T)
    where
        rand::distributions::Standard: rand::distributions::Distribution<T>,
;

/// The fixed 4-byte magic value opening both handshake payloads.
pub open spec fn magic_spec() -> Seq<u8> {
    seq![0xDEu8, 0xADu8, 0xBEu8, 0xEFu8]
}

/// The 5-byte client hello: the magic value followed by protocol version 2.
pub open spec fn hello_spec() -> Seq<u8> {
    magic_spec() + seq![0x02u8]
}

/// Whether the first four bytes of `data` are the magic value.
fn prefix_is_magic(data: &[u8]) -> (r: bool)
    requires
        data@.len() >= 4,
    ensures
        r == (data@.subrange(0, 4) == magic_spec()),
{
    let m = vstd::slice::slice_index_get(data, 0);
    let a = vstd::slice::slice_index_get(data, 1);
    let b = vstd::slice::slice_index_get(data, 2);
    let c = vstd::slice::slice_index_get(data, 3);
    let ok = *m == 0xDE && *a == 0xAD && *b == 0xBE && *c == 0xEF;
    proof {
        if ok {
            assert(data@.subrange(0, 4) =~= magic_spec());
        } else {
            assert(data@.subrange(0, 4) != magic_spec());
        }
    }
    ok
}

/// The frame carrying `msg` in the session `sid`: the id followed by the
/// encoded message.
pub open spec fn frame_spec(sid: Seq<u8>, msg: Message) -> Seq<u8> {
    sid + crate::codec::encode_msg_spec(msg)
}

fn build_frame(sid: &SessId, msg: &Message) -> (r: Vec<u8>)
    ensures
        r@ == frame_spec(sid@, *msg),
{
    let mut out: Vec<u8> = Vec::new();
    let mut i: usize = 0;
    while i < sid.len()
        invariant
            i <= sid@.len(),
            out@ == sid@.take(i as int),
        decreases sid@.len() - i,
    {
        out.push(sid[i]);
        i += 1;
    }
    proof {
        assert(sid@.take(sid@.len() as int) =~= sid@);
    }
    let mut enc = encode_message(msg);
    out.append(&mut enc);
    out
}

/// Round trip of the steady state: a single frame built for a session, fed
/// back to the frame parser of the same session, is neither fatal nor
/// dropped and delivers exactly its one message. For a `Moved` message this
/// asks, as the codec does, that the coordinates be on the board and the
/// deltas agree with the endpoints.
pub proof fn lemma_frame_round_trip(sid: Seq<u8>, msg: Message)
    requires
        sid.len() == 4,
        msg matches Message::Moved(m) ==> m.from.row < 8 && m.from.col < 8 && m.to.row < 8
            && m.to.col < 8 && m.deltas_consistent(),
    ensures
        !frames_fatal(frame_spec(sid, msg), sid),
        !frames_dropped(frame_spec(sid, msg), sid),
        frames_msgs(frame_spec(sid, msg), sid) == seq![msg],
{
    let s = frame_spec(sid, msg);
    let enc = crate::codec::encode_msg_spec(msg);
    assert(s.subrange(0, 4) =~= sid);
    assert(s.skip(4) =~= enc);
    let used: usize = match msg {
        Message::Moved(m) => {
            crate::codec::lemma_moved_round_trip(m);
            7
        },
        _ => 1,
    };
    assert(crate::codec::decode_msg_spec(s.skip(4)) == Some((msg, used)));
    assert(s.len() >= 5);
    assert(s.skip(4 + used as int) =~= Seq::<u8>::empty());
    assert(!frames_fatal(Seq::<u8>::empty(), sid));
    assert(!frames_dropped(Seq::<u8>::empty(), sid));
    assert(frames_msgs(Seq::<u8>::empty(), sid) == Seq::<Message>::empty());
    assert(frames_msgs(s, sid) =~= seq![msg] + Seq::<Message>::empty());
    assert(seq![msg] + Seq::<Message>::empty() =~= seq![msg]);
}

/// Client-side connection phase: writing the hello, awaiting the session-id
/// reply, or connected.
#[derive(Clone, Copy, Debug, PartialEq, Eq, Structural)]
pub enum ClientConnection {
    Begin,
    SessionIdRead,
    Connected,
}

/// The client half of the handshake and steady state. The caller performs
/// the socket reads and writes; every byte written comes from
/// `hello_bytes` or `next_outgoing_frame`, every byte read goes through
/// `on_session_reply` or `on_frames`.
pub struct Client {
    pub state: ClientConnection,
    pub send: MessageQueue,
    pub recv: MessageQueue,
    pub session_id: SessId,
}

impl Client {
    /// The session id always holds exactly four bytes.
    pub open spec fn wf(&self) -> bool {
        self.session_id@.len() == 4
    }

    pub fn new() -> (r: Client)
        ensures
            r.wf(),
            r.state is Begin,
            r.send@ == Seq::<Message>::empty(),
            r.recv@ == Seq::<Message>::empty(),
            r.session_id@ == seq![0u8, 0u8, 0u8, 0u8],
    {
        let mut sid: Vec<u8> = Vec::new();
        sid.push(0);
        sid.push(0);
        sid.push(0);
        sid.push(0);
        proof {
            assert(sid@ =~= seq![0u8, 0u8, 0u8, 0u8]);
        }
        Client { state: ClientConnection::Begin, send: VecDeque::new(), recv: VecDeque::new(), session_id: sid }
    }

    /// The 5-byte hello this client writes first.
    pub fn hello_bytes(&self) -> (r: Vec<u8>)
        ensures
            r@ == hello_spec(),
    {
        let mut v: Vec<u8> = Vec::new();
        v.push(0xDE);
        v.push(0xAD);
        v.push(0xBE);
        v.push(0xEF);
        v.push(0x02);
        proof {
            assert(v@ =~= hello_spec());
        }
        v
    }

    /// The hello was written in full: await the reply.
    pub fn on_hello_sent(&mut self)
        requires
            old(self).state is Begin,
        ensures
            *final(self) == (Client { state: ClientConnection::SessionIdRead, ..*old(self) }),
    {
        self.state = ClientConnection::SessionIdRead;
    }

    /// Judges one read received while awaiting the reply. Exactly 8 bytes
    /// opening with the magic value connect the client and record the
    /// session id from the last four bytes; a wrong length or header is the
    /// corresponding fatal handshake error, leaving the machine unchanged.
    pub fn on_session_reply(&mut self, data: &[u8]) -> (r: Result<(), ProtocolError>)
        requires
            old(self).wf(),
            old(self).state is SessionIdRead,
        ensures
            final(self).wf(),
            data@.len() != 8 ==> r == Err::<(), ProtocolError>(ProtocolError::HandshakeLength)
                && *final(self) == *old(self),
            data@.len() == 8 && data@.subrange(0, 4) != magic_spec() ==> r == Err::<(), ProtocolError>(ProtocolError::HandshakeHeader) && *final(self) == *old(self),
            data@.len() == 8 && data@.subrange(0, 4) == magic_spec() ==> r is Ok && *final(self)
                == (Client {
                state: ClientConnection::Connected,
                session_id: final(self).session_id,
                ..*old(self)
            }) && final(self).session_id@ == data@.subrange(4, 8),
    {
        if data.len() != 8 {
            return Err(ProtocolError::HandshakeLength);
        }
        if !prefix_is_magic(data) {
            return Err(ProtocolError::HandshakeHeader);
        }
        let mut sid: Vec<u8> = Vec::new();
        sid.push(*vstd::slice::slice_index_get(data, 4));
        sid.push(*vstd::slice::slice_index_get(data, 5));
        sid.push(*vstd::slice::slice_index_get(data, 6));
        sid.push(*vstd::slice::slice_index_get(data, 7));
        proof {
            assert(sid@ =~= data@.subrange(4, 8));
        }
        self.session_id = sid;
        self.state = ClientConnection::Connected;
        Ok(())
    }

    /// Parses one connected-state read into the receive queue; see
    /// `decode_frames` for the frame discipline.
    pub fn on_frames(&mut self, data: &[u8]) -> (r: Result<(), ProtocolError>)
        requires
            old(self).wf(),
            old(self).state is Connected,
        ensures
            final(self).wf(),
            final(self).state == old(self).state,
            final(self).send == old(self).send,
            final(self).session_id == old(self).session_id,
            frames_fatal(data@, old(self).session_id@) <==> r == Err::<(), ProtocolError>(
                ProtocolError::UnknownMessage,
            ),
            r is Err ==> final(self).recv == old(self).recv,
            r is Ok && frames_dropped(data@, old(self).session_id@) ==> final(self).recv@
                == old(self).recv@,
            r is Ok && !frames_dropped(data@, old(self).session_id@) ==> final(self).recv@
                == old(self).recv@ + frames_msgs(data@, old(self).session_id@),
    {
        push_frames(&mut self.recv, data, &self.session_id)
    }

    /// Queues a message for transmission.
    pub fn send(&mut self, msg: Message)
        ensures
            *final(self) == (Client { send: final(self).send, ..*old(self) }),
            final(self).send@ == old(self).send@.push(msg),
    {
        self.send.push_back(msg);
    }

    /// Hands out the next received message, oldest first.
    pub fn recv(&mut self) -> (r: Option<Message>)
        ensures
            *final(self) == (Client { recv: final(self).recv, ..*old(self) }),
            old(self).recv@.len() == 0 ==> r is None && final(self).recv@ == old(self).recv@,
            old(self).recv@.len() > 0 ==> r == Some(old(self).recv@[0]) && final(self).recv@
                == old(self).recv@.drop_first(),
    {
        self.recv.pop_front()
    }

    /// The next frame to write, oldest queued message first; `None` when
    /// nothing is queued.
    pub fn next_outgoing_frame(&mut self) -> (r: Option<Vec<u8>>)
        requires
            old(self).wf(),
        ensures
            final(self).wf(),
            *final(self) == (Client { send: final(self).send, ..*old(self) }),
            old(self).send@.len() == 0 ==> r is None && final(self).send@ == old(self).send@,
            old(self).send@.len() > 0 ==> (r matches Some(v) && v@ == frame_spec(
                old(self).session_id@,
                old(self).send@[0],
            ) && final(self).send@ == old(self).send@.drop_first()),
    {
        match self.send.pop_front() {
            None => None,
            Some(msg) => Some(build_frame(&self.session_id, &msg)),
        }
    }

    pub fn is_connected(&self) -> (r: bool)
        ensures
            r == (self.state is Connected),
    {
        matches!(self.state, ClientConnection::Connected)
    }
}

/// Host-side connection phase: listening for the connection attempt,
/// awaiting the client hello, owing the reply, or connected.
#[derive(Clone, Copy, Debug, PartialEq, Eq, Structural)]
pub enum HostConnection {
    Begin,
    HandshakeRead,
    HandshakeRespond,
    Connected,
}

/// The host half of the handshake and steady state, holding the session id
/// it drew for this connection.
pub struct Host {
    pub state: HostConnection,
    pub send: MessageQueue,
    pub recv: MessageQueue,
    pub session_id: SessId,
    pub shutdown: bool,
}

impl Host {
    /// The session id always holds exactly four bytes.
    pub open spec fn wf(&self) -> bool {
        self.session_id@.len() == 4
    }

    /// A fresh host machine with a randomly drawn session id.
    pub fn new() -> (r: Host)
        ensures
            r.wf(),
            r.state is Begin,
            r.send@ == Seq::<Message>::empty(),
            r.recv@ == Seq::<Message>::empty(),
            !r.shutdown,
    {
        let mut sid: Vec<u8> = Vec::new();
        sid.push(rand::random::<u8>());
        sid.push(rand::random::<u8>());
        sid.push(rand::random::<u8>());
        sid.push(rand::random::<u8>());
        Host {
            state: HostConnection::Begin,
            send: VecDeque::new(),
            recv: VecDeque::new(),
            session_id: sid,
            shutdown: false,
        }
    }

    /// A connection attempt was accepted: await the hello.
    pub fn on_accept(&mut self)
        requires
            old(self).state is Begin,
        ensures
            *final(self) == (Host { state: HostConnection::HandshakeRead, ..*old(self) }),
    {
        self.state = HostConnection::HandshakeRead;
    }

    /// Judges one read received while awaiting the hello. Exactly 5 bytes —
    /// the magic value then version 2 — advance to the reply phase; any
    /// other length, header or version is the corresponding fatal handshake
    /// error, leaving the machine unchanged.
    pub fn on_handshake(&mut self, data: &[u8]) -> (r: Result<(), ProtocolError>)
        requires
            old(self).wf(),
            old(self).state is HandshakeRead,
        ensures
            final(self).wf(),
            data@.len() != 5 ==> r == Err::<(), ProtocolError>(ProtocolError::HandshakeLength)
                && *final(self) == *old(self),
            data@.len() == 5 && data@.subrange(0, 4) != magic_spec() ==> r == Err::<(), ProtocolError>(ProtocolError::HandshakeHeader) && *final(self) == *old(self),
            data@.len() == 5 && data@.subrange(0, 4) == magic_spec() && data@[4] != 0x02 ==> r
                == Err::<(), ProtocolError>(ProtocolError::HandshakeVersion) && *final(self)
                == *old(self),
            data@.len() == 5 && data@.subrange(0, 4) == magic_spec() && data@[4] == 0x02 ==> r
                is Ok && *final(self) == (Host {
                state: HostConnection::HandshakeRespond,
                ..*old(self)
            }),
    {
        if data.len() != 5 {
            return Err(ProtocolError::HandshakeLength);
        }
        if !prefix_is_magic(data) {
            return Err(ProtocolError::HandshakeHeader);
        }
        if *vstd::slice::slice_index_get(data, 4) != 0x02 {
            return Err(ProtocolError::HandshakeVersion);
        }
        self.state = HostConnection::HandshakeRespond;
        Ok(())
    }

    /// The 8-byte reply this host owes: the magic value then its session id.
    pub fn reply_bytes(&self) -> (r: Vec<u8>)
        requires
            self.wf(),
        ensures
            r@ == magic_spec() + self.session_id@,
    {
        let mut v: Vec<u8> = Vec::new();
        v.push(0xDE);
        v.push(0xAD);
        v.push(0xBE);
        v.push(0xEF);
        v.push(self.session_id[0]);
        v.push(self.session_id[1]);
        v.push(self.session_id[2]);
        v.push(self.session_id[3]);
        proof {
            assert(v@ =~= magic_spec() + self.session_id@);
        }
        v
    }

    /// The reply was written in full: the connection is up.
    pub fn on_reply_sent(&mut self)
        requires
            old(self).state is HandshakeRespond,
        ensures
            *final(self) == (Host { state: HostConnection::Connected, ..*old(self) }),
    {
        self.state = HostConnection::Connected;
    }

    /// Parses one connected-state read into the receive queue; see
    /// `decode_frames` for the frame discipline.
    pub fn on_frames(&mut self, data: &[u8]) -> (r: Result<(), ProtocolError>)
        requires
            old(self).wf(),
            old(self).state is Connected,
        ensures
            final(self).wf(),
            final(self).state == old(self).state,
            final(self).send == old(self).send,
            final(self).session_id == old(self).session_id,
            final(self).shutdown == old(self).shutdown,
            frames_fatal(data@, old(self).session_id@) <==> r == Err::<(), ProtocolError>(
                ProtocolError::UnknownMessage,
            ),
            r is Err ==> final(self).recv == old(self).recv,
            r is Ok && frames_dropped(data@, old(self).session_id@) ==> final(self).recv@
                == old(self).recv@,
            r is Ok && !frames_dropped(data@, old(self).session_id@) ==> final(self).recv@
                == old(self).recv@ + frames_msgs(data@, old(self).session_id@),
    {
        push_frames(&mut self.recv, data, &self.session_id)
    }

    /// Queues a message for transmission.
    pub fn send(&mut self, msg: Message)
        ensures
            *final(self) == (Host { send: final(self).send, ..*old(self) }),
            final(self).send@ == old(self).send@.push(msg),
    {
        self.send.push_back(msg);
    }

    /// Hands out the next received message, oldest first.
    pub fn recv(&mut self) -> (r: Option<Message>)
        ensures
            *final(self) == (Host { recv: final(self).recv, ..*old(self) }),
            old(self).recv@.len() == 0 ==> r is None && final(self).recv@ == old(self).recv@,
            old(self).recv@.len() > 0 ==> r == Some(old(self).recv@[0]) && final(self).recv@
                == old(self).recv@.drop_first(),
    {
        self.recv.pop_front()
    }

    /// The next frame to write, oldest queued message first; `None` when
    /// nothing is queued.
    pub fn next_outgoing_frame(&mut self) -> (r: Option<Vec<u8>>)
        requires
            old(self).wf(),
        ensures
            final(self).wf(),
            *final(self) == (Host { send: final(self).send, ..*old(self) }),
            old(self).send@.len() == 0 ==> r is None && final(self).send@ == old(self).send@,
            old(self).send@.len() > 0 ==> (r matches Some(v) && v@ == frame_spec(
                old(self).session_id@,
                old(self).send@[0],
            ) && final(self).send@ == old(self).send@.drop_first()),
    {
        match self.send.pop_front() {
            None => None,
            Some(msg) => Some(build_frame(&self.session_id, &msg)),
        }
    }

    pub fn is_connected(&self) -> (r: bool)
        ensures
            r == (self.state is Connected),
    {
        matches!(self.state, HostConnection::Connected)
    }

    /// Records that the caller tore the transport down.
    pub fn mark_shutdown(&mut self)
        ensures
            *final(self) == (Host { shutdown: true, ..*old(self) }),
    {
        self.shutdown = true;
    }

    pub fn is_shutdown(&self) -> (r: bool)
        ensures
            r == self.shutdown,
    {
        self.shutdown
    }
}

/// Parses one read's worth of frames into `queue`.
fn push_frames(queue: &mut MessageQueue, data: &[u8], sid: &SessId) -> (r: Result<
    (),
    ProtocolError,
>)
    requires
        sid@.len() == 4,
    ensures
        frames_fatal(data@, sid@) <==> r == Err::<(), ProtocolError>(ProtocolError::UnknownMessage),
        r is Err ==> *final(queue) == *old(queue),
        r is Ok && frames_dropped(data@, sid@) ==> final(queue)@ == old(queue)@,
        r is Ok && !frames_dropped(data@, sid@) ==> final(queue)@ == old(queue)@ + frames_msgs(
            data@,
            sid@,
        ),
{
    let msgs = match decode_frames(data, sid) {
        Ok(v) => v,
        Err(e) => {
            return Err(e);
        },
    };
    let ghost decoded = msgs@;
    let mut i: usize = 0;
    while i < msgs.len()
        invariant
            msgs@ == decoded,
            i <= decoded.len(),
            queue@ == old(queue)@ + decoded.take(i as int),
        decreases decoded.len() - i,
    {
        proof {
            assert(old(queue)@ + decoded.take(i as int + 1) =~= (old(queue)@ + decoded.take(
                i as int,
            )).push(decoded[i as int]));
        }
        queue.push_back(msgs[i]);
        i += 1;
    }
    proof {
        assert(decoded.take(decoded.len() as int) =~= decoded);
        if frames_dropped(data@, sid@) {
            assert(old(queue)@ + Seq::<Message>::empty() =~= old(queue)@);
        }
    }
    Ok(())
}

/// A pollable connection: the interface the game loop drives. The library's
/// machines decide; an implementation owns a socket, advancing one phase per
/// poll and treating a would-block condition as "try again next tick".
pub trait Connection {
    fn poll(&mut self) -> Result<(), ProtocolError>;

    fn send(&mut self, msg: Message);

    fn recv(&mut self) -> Option<Message>;

    fn is_connected(&self) -> bool;
}

} // verus!

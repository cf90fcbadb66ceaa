//! Per-connection session logic: role introduction against the shared role
//! slots, and the decisions taken while a session is active.
use vstd::prelude::*;

verus! {

use crate::State;
use crate::role_claimed;
use crate::spec_try_claim;
use crate::spec_release;
use crate::Command;
use crate::message::Message;
use crate::request::Request;
use crate::request::request_of;
use crate::request::req_encoding;
use crate::request::decode_err_msg;
use crate::request::lemma_request_of_encoding;
use crate::response::Response;
use crate::response::resp_encoding;
use crate::response::er_encoding;

/// The role a connection negotiates at introduction. UNDEFINED is the
/// pre-introduction state of every connection; a connection must move to USER
/// or TANK exactly once, on its first message, or be rejected. Wire ordinals:
/// USER=0, TANK=1, UNDEFINED=2.
#[derive(Clone, Copy, Debug, PartialEq, Eq, Structural)]
pub enum ClientType {
    USER,
    TANK,
    UNDEFINED,
}

/// Wire ordinal of a role, part of the wire contract: USER=0, TANK=1,
/// UNDEFINED=2.
pub open spec fn client_type_ord(t: ClientType) -> u8 {
    match t {
        ClientType::USER => 0,
        ClientType::TANK => 1,
        ClientType::UNDEFINED => 2,
    }
}

/// What one blocking read of the session's socket produced: end of stream,
/// some bytes, or a transport failure. The I/O layer maps its read result to
/// this and hands it in.
#[derive(Clone, Debug, PartialEq, Eq)]
pub enum ReadEvent {
    Closed,
    Data(Vec<u8>),
    Failed,
}

/// The decision an active session takes on a socket event: tear the session
/// down, or publish a bus message and stay active.
#[derive(Clone, Copy, Debug, PartialEq, Eq, Structural)]
pub enum SocketOutcome {
    Terminate,
    Publish(Message),
}

/// Why a bus receive failed: the channel is gone, or this subscriber fell
/// behind the bus's bounded retention and missed the given number of
/// messages. Either way the session treats it as fatal.
#[derive(Clone, Copy, Debug, PartialEq, Eq, Structural)]
pub enum BusError {
    Closed,
    Lagged(u64),
}

/// Per-connection session state: the role this connection holds, starting at
/// UNDEFINED until a successful introduction. The socket, the bus handles and
/// the shared lock live with the I/O layer, which drives these methods.
#[derive(Clone, Copy, Debug, PartialEq, Eq, Structural)]
pub struct Client {
    pub t: ClientType,
}

/// The decision an active session takes on a socket event: publish the
/// command of a well-formed `Action` request, terminate on end of stream,
/// transport failure, malformed bytes, or any other envelope (a second
/// `Introduce` included).
pub open spec fn socket_read_decision(event: ReadEvent) -> SocketOutcome {
    match event {
        ReadEvent::Data(b) => (match request_of(b@) {
            Some(Request::Action(c)) => SocketOutcome::Publish(Message::Command(c)),
            _ => SocketOutcome::Terminate,
        }),
        _ => SocketOutcome::Terminate,
    }
}

/// The decision a session takes on a bus receive: echo a received command to
/// its own peer as an `Action` response, terminate on a receive failure.
pub open spec fn message_decision(res: Result<Message, BusError>) -> Option<Response> {
    match res {
        Ok(Message::Command(c)) => Some(Response::Action(c)),
        Err(_) => None,
    }
}

/// The error text a failed introduction is rejected with.
pub open spec fn claim_err_msg(t: ClientType) -> Seq<char> {
    match t {
        ClientType::USER => "Client Already Connected!!"@,
        ClientType::TANK => "Tank Already Connected!!"@,
        ClientType::UNDEFINED => "Wrong Client Type received"@,
    }
}

/// The error text of a failed introduction, by the event that failed it.
pub open spec fn introduce_err_msg(s: State, event: ReadEvent) -> Seq<char> {
    match event {
        ReadEvent::Closed => "client disconnected"@,
        ReadEvent::Failed => "reader error"@,
        ReadEvent::Data(b) => (match request_of(b@) {
            None => decode_err_msg(),
            Some(Request::Action(_)) => "Wrong Request Type"@,
            Some(Request::Introduce(t)) => claim_err_msg(t),
        }),
    }
}

impl Client {
    /// A fresh session: no role held yet.
    pub fn new() -> (c: Client)
        ensures
            c.t == ClientType::UNDEFINED,
    {
        Client { t: ClientType::UNDEFINED }
    }

    /// The introduction step, on the first read of the connection. Succeeds
    /// exactly when the read produced the wire bytes of `Introduce(role)` for
    /// a proper role whose slot is free; the session then holds that role and
    /// the slot is claimed. On any failure nothing changes and the error text
    /// says why; the I/O layer sends it as an `Er` response and closes.
    pub fn introduce(&mut self, state: &mut State, event: ReadEvent) -> (r: Result<(), String>)
        ensures
            r is Ok <==> (match event {
                ReadEvent::Data(b) => (match request_of(b@) {
                    Some(Request::Introduce(t)) => t != ClientType::UNDEFINED && !role_claimed(
                        *old(state),
                        t,
                    ),
                    _ => false,
                }),
                _ => false,
            }),
            r is Ok ==> (match event {
                ReadEvent::Data(b) => (match request_of(b@) {
                    Some(Request::Introduce(t)) => final(self).t == t && *final(state)
                        == spec_try_claim(*old(state), t).0,
                    _ => false,
                }),
                _ => false,
            }),
            r is Err ==> *final(self) == *old(self) && *final(state) == *old(state),
            r matches Err(m) ==> m@ == introduce_err_msg(*old(state), event),
    {
        match event {
            ReadEvent::Closed => Err(String::from_str("client disconnected")),
            ReadEvent::Failed => Err(String::from_str("reader error")),
            ReadEvent::Data(b) => {
                proof {
                    assert(b@.subrange(0, b@.len() as int) =~= b@);
                }
                match Request::from_slice(b.as_slice(), b.len()) {
                    Err(m) => Err(m),
                    Ok(Request::Action(_)) => Err(String::from_str("Wrong Request Type")),
                    Ok(Request::Introduce(t)) => self.set_client_type(state, t),
                }
            }
        }
    }

    /// Claim `t` for this session against the shared role slots. Succeeds
    /// exactly when `t` is a proper role whose slot is free; then the session
    /// stores the role and the slot is set. UNDEFINED and an already-held
    /// slot are rejected with the matching error text, changing nothing.
    pub fn set_client_type(&mut self, state: &mut State, t: ClientType) -> (r: Result<(), String>)
        ensures
            r is Ok <==> (t != ClientType::UNDEFINED && !role_claimed(*old(state), t)),
            r is Ok ==> final(self).t == t && *final(state) == spec_try_claim(*old(state), t).0,
            r is Err ==> *final(self) == *old(self) && *final(state) == *old(state),
            r matches Err(m) ==> m@ == claim_err_msg(t),
    {
        match t {
            ClientType::UNDEFINED => Err(String::from_str("Wrong Client Type received")),
            _ => {
                if state.try_claim(t) {
                    self.t = t;
                    Ok(())
                } else {
                    match t {
                        ClientType::USER => Err(String::from_str("Client Already Connected!!")),
                        _ => Err(String::from_str("Tank Already Connected!!")),
                    }
                }
            }
        }
    }

    /// React to a socket read while ACTIVE. The role cannot change here: a
    /// second `Introduce` (like anything that is not a well-formed `Action`)
    /// only terminates this session.
    pub fn on_socket_read(&self, event: ReadEvent) -> (r: SocketOutcome)
        ensures
            r == socket_read_decision(event),
    {
        match event {
            ReadEvent::Data(b) => {
                proof {
                    assert(b@.subrange(0, b@.len() as int) =~= b@);
                }
                match Request::from_slice(b.as_slice(), b.len()) {
                    Ok(Request::Action(c)) => SocketOutcome::Publish(Message::Command(c)),
                    _ => SocketOutcome::Terminate,
                }
            }
            _ => SocketOutcome::Terminate,
        }
    }

    /// React to a bus receive while ACTIVE: a received command is echoed to
    /// this session's own peer as an `Action` response carrying the same
    /// command; a receive failure ends the session (`None`).
    pub fn on_message_received(&self, res: Result<Message, BusError>) -> (r: Option<Response>)
        ensures
            r == message_decision(res),
    {
        match res {
            Ok(Message::Command(c)) => Some(Response::Action(c)),
            Err(_) => None,
        }
    }

    /// Teardown: release this session's role slot, whatever the exit path.
    /// An UNDEFINED session holds no slot and changes nothing; the peer
    /// role's slot is never touched.
    pub fn on_disconnect(&self, state: &mut State)
        ensures
            *final(state) == spec_release(*old(state), self.t),
    {
        state.release(self.t);
    }

    /// The wire bytes of an `Er` response carrying `error`, for the I/O layer
    /// to write before closing a rejected connection.
    pub fn send_error(&self, error: &str) -> (r: Vec<u8>)
        ensures
            r@ == er_encoding(error@),
    {
        let resp = Response::Er(String::from_str(error));
        resp.encode()
    }
}

/// Fan-out. A well-formed `Action(c)` read from any active session's socket
/// is published as `Command(c)`, and every session that receives `Command(c)`
/// from the bus (the sender itself included) answers its own peer with
/// `Response::Action(c)`, whose wire bytes — and so whose ordinal — are
/// exactly those the command arrived with.
pub proof fn lemma_action_fanout(event: ReadEvent, c: Command)
    requires
        event matches ReadEvent::Data(b) && b@ == req_encoding(Request::Action(c)),
    ensures
        socket_read_decision(event) == SocketOutcome::Publish(Message::Command(c)),
        message_decision(Ok(Message::Command(c))) == Some(Response::Action(c)),
        resp_encoding(Response::Action(c)) == req_encoding(Request::Action(c)),
{
    lemma_request_of_encoding(Request::Action(c));
}

/// A second `Introduce` from an already-introduced session is a protocol
/// violation, not a role change: while ACTIVE it only terminates the session,
/// and the session's role field is untouched (`on_socket_read` never writes
/// it).
pub proof fn lemma_second_introduce_rejected(event: ReadEvent, t: ClientType)
    requires
        event matches ReadEvent::Data(b) && b@ == req_encoding(Request::Introduce(t)),
    ensures
        socket_read_decision(event) == SocketOutcome::Terminate,
{
    lemma_request_of_encoding(Request::Introduce(t));
}

} // verus!

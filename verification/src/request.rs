//! Client-to-server envelope and its wire grammar.
//!
//! A request is a tagged variant encoded as a compact JSON object whose single
//! key is the variant name and whose value is the payload's wire ordinal:
//! `{"Introduce":0}` .. `{"Introduce":2}` and `{"Action":0}` .. `{"Action":4}`.
//! Messages are bounded by the fixed read buffer, so every well-formed request
//! is one of these fixed-length byte strings; anything else is a decode error.
use vstd::prelude::*;

verus! {

use crate::Command;
use crate::command_ord;
use crate::client::ClientType;
use crate::client::client_type_ord;

/// Envelope sent client-to-server: either the mandatory first message claiming
/// a role, or a command to relay.
#[derive(Clone, Copy, Debug, PartialEq, Eq, Structural)]
pub enum Request {
    Introduce(ClientType),
    Action(Command),
}

/// The wire bytes of a request: `{"Introduce":d}` with d the role ordinal, or
/// `{"Action":d}` with d the command ordinal, ASCII, no whitespace.
pub open spec fn req_encoding(r: Request) -> Seq<u8> {
    match r {
        Request::Introduce(t) => seq![
            123u8, 34, 73, 110, 116, 114, 111, 100, 117, 99, 101, 34, 58,
            (48 + client_type_ord(t)) as u8, 125,
        ],
        Request::Action(c) => seq![
            123u8, 34, 65, 99, 116, 105, 111, 110, 34, 58,
            (48 + command_ord(c)) as u8, 125,
        ],
    }
}

/// The request a byte string stands for, if any: `Some(r)` exactly when the
/// bytes are `req_encoding(r)`, which is unambiguous because the encoding is
/// injective.
pub open spec fn request_of(bytes: Seq<u8>) -> Option<Request> {
    if exists|r: Request| bytes == req_encoding(r) {
        Some(choose|r: Request| bytes == req_encoding(r))
    } else {
        None
    }
}

/// Distinct requests have distinct wire bytes: the two variants differ in
/// length, and within a variant the payload ordinal pins the digit byte.
pub proof fn lemma_req_encoding_injective(a: Request, b: Request)
    requires
        req_encoding(a) == req_encoding(b),
    ensures
        a == b,
{
    assert(req_encoding(a)[req_encoding(a).len() - 2] == req_encoding(b)[req_encoding(b).len()
        - 2]);
}

/// Round trip at the level of the grammar: the wire bytes of any request
/// decode back to exactly that request.
pub proof fn lemma_request_of_encoding(r: Request)
    ensures
        request_of(req_encoding(r)) == Some(r),
{
    assert(exists|q: Request| req_encoding(r) == req_encoding(q));
    let q = choose|q: Request| req_encoding(r) == req_encoding(q);
    lemma_req_encoding_injective(r, q);
}

/// The message at the end of every failed decode.
pub open spec fn decode_err_msg() -> Seq<char> {
    "deserialize error: invalid request encoding"@
}

impl Request {
    /// Decode the first `size` bytes of `buffer` as a request. Returns `Ok(r)`
    /// exactly when those bytes are `req_encoding(r)` for some request `r`,
    /// and the decode error otherwise.
    pub fn from_slice(buffer: &[u8], size: usize) -> (r: Result<Request, String>)
        requires
            size <= buffer@.len(),
        ensures
            r matches Ok(q) ==> buffer@.subrange(0, size as int) == req_encoding(q),
            r matches Ok(q) ==> request_of(buffer@.subrange(0, size as int)) == Some(q),
            r is Err ==> forall|q: Request|
                buffer@.subrange(0, size as int) != req_encoding(q),
            r is Err ==> request_of(buffer@.subrange(0, size as int)) is None,
            r matches Err(m) ==> m@ == decode_err_msg(),
    {
        let data: &[u8] = &buffer[0..size];
        let ghost bytes = buffer@.subrange(0, size as int);
        if size == 15 {
            if data[0] == 123 && data[1] == 34 && data[2] == 73 && data[3] == 110 && data[4]
                == 116 && data[5] == 114 && data[6] == 111 && data[7] == 100 && data[8] == 117
                && data[9] == 99 && data[10] == 101 && data[11] == 34 && data[12] == 58 && data[14]
                == 125 {
                let d = data[13];
                if d == 48 {
                    proof {
                        assert(bytes =~= req_encoding(Request::Introduce(ClientType::USER)));
                        lemma_request_of_encoding(Request::Introduce(ClientType::USER));
                    }
                    Ok(Request::Introduce(ClientType::USER))
                } else if d == 49 {
                    proof {
                        assert(bytes =~= req_encoding(Request::Introduce(ClientType::TANK)));
                        lemma_request_of_encoding(Request::Introduce(ClientType::TANK));
                    }
                    Ok(Request::Introduce(ClientType::TANK))
                } else if d == 50 {
                    proof {
                        assert(bytes =~= req_encoding(Request::Introduce(ClientType::UNDEFINED)));
                        lemma_request_of_encoding(Request::Introduce(ClientType::UNDEFINED));
                    }
                    Ok(Request::Introduce(ClientType::UNDEFINED))
                } else {
                    proof {
                        assert forall|q: Request| bytes != req_encoding(q) by {
                            if bytes == req_encoding(q) {
                                match q {
                                    Request::Introduce(t) => {
                                        assert(bytes[13] == req_encoding(q)[13]);
                                    }
                                    Request::Action(_) => {
                                        assert(req_encoding(q).len() == 12);
                                    }
                                }
                            }
                        }
                    }
                    Err(decode_err())
                }
            } else {
                proof {
                    assert forall|q: Request| bytes != req_encoding(q) by {
                        if bytes == req_encoding(q) {
                            match q {
                                Request::Introduce(t) => {
                                    assert(bytes[0] == req_encoding(q)[0]);
                                    assert(bytes[1] == req_encoding(q)[1]);
                                    assert(bytes[2] == req_encoding(q)[2]);
                                    assert(bytes[3] == req_encoding(q)[3]);
                                    assert(bytes[4] == req_encoding(q)[4]);
                                    assert(bytes[5] == req_encoding(q)[5]);
                                    assert(bytes[6] == req_encoding(q)[6]);
                                    assert(bytes[7] == req_encoding(q)[7]);
                                    assert(bytes[8] == req_encoding(q)[8]);
                                    assert(bytes[9] == req_encoding(q)[9]);
                                    assert(bytes[10] == req_encoding(q)[10]);
                                    assert(bytes[11] == req_encoding(q)[11]);
                                    assert(bytes[12] == req_encoding(q)[12]);
                                    assert(bytes[14] == req_encoding(q)[14]);
                                }
                                Request::Action(_) => {
                                    assert(req_encoding(q).len() == 12);
                                }
                            }
                        }
                    }
                }
                Err(decode_err())
            }
        } else if size == 12 {
            if data[0] == 123 && data[1] == 34 && data[2] == 65 && data[3] == 99 && data[4] == 116
                && data[5] == 105 && data[6] == 111 && data[7] == 110 && data[8] == 34 && data[9]
                == 58 && data[11] == 125 {
                let d = data[10];
                if d == 48 {
                    proof {
                        assert(bytes =~= req_encoding(Request::Action(Command::FORWARD)));
                        lemma_request_of_encoding(Request::Action(Command::FORWARD));
                    }
                    Ok(Request::Action(Command::FORWARD))
                } else if d == 49 {
                    proof {
                        assert(bytes =~= req_encoding(Request::Action(Command::BACKWARD)));
                        lemma_request_of_encoding(Request::Action(Command::BACKWARD));
                    }
                    Ok(Request::Action(Command::BACKWARD))
                } else if d == 50 {
                    proof {
                        assert(bytes =~= req_encoding(Request::Action(Command::LEFT)));
                        lemma_request_of_encoding(Request::Action(Command::LEFT));
                    }
                    Ok(Request::Action(Command::LEFT))
                } else if d == 51 {
                    proof {
                        assert(bytes =~= req_encoding(Request::Action(Command::RIGHT)));
                        lemma_request_of_encoding(Request::Action(Command::RIGHT));
                    }
                    Ok(Request::Action(Command::RIGHT))
                } else if d == 52 {
                    proof {
                        assert(bytes =~= req_encoding(Request::Action(Command::STOP)));
                        lemma_request_of_encoding(Request::Action(Command::STOP));
                    }
                    Ok(Request::Action(Command::STOP))
                } else {
                    proof {
                        assert forall|q: Request| bytes != req_encoding(q) by {
                            if bytes == req_encoding(q) {
                                match q {
                                    Request::Introduce(_) => {
                                        assert(req_encoding(q).len() == 15);
                                    }
                                    Request::Action(c) => {
                                        assert(bytes[10] == req_encoding(q)[10]);
                                    }
                                }
                            }
                        }
                    }
                    Err(decode_err())
                }
            } else {
                proof {
                    assert forall|q: Request| bytes != req_encoding(q) by {
                        if bytes == req_encoding(q) {
                            match q {
                                Request::Introduce(_) => {
                                    assert(req_encoding(q).len() == 15);
                                }
                                Request::Action(c) => {
                                    assert(bytes[0] == req_encoding(q)[0]);
                                    assert(bytes[1] == req_encoding(q)[1]);
                                    assert(bytes[2] == req_encoding(q)[2]);
                                    assert(bytes[3] == req_encoding(q)[3]);
                                    assert(bytes[4] == req_encoding(q)[4]);
                                    assert(bytes[5] == req_encoding(q)[5]);
                                    assert(bytes[6] == req_encoding(q)[6]);
                                    assert(bytes[7] == req_encoding(q)[7]);
                                    assert(bytes[8] == req_encoding(q)[8]);
                                    assert(bytes[9] == req_encoding(q)[9]);
                                    assert(bytes[11] == req_encoding(q)[11]);
                                }
                            }
                        }
                    }
                }
                Err(decode_err())
            }
        } else {
            proof {
                assert forall|q: Request| bytes != req_encoding(q) by {
                    if bytes == req_encoding(q) {
                        match q {
                            Request::Introduce(_) => {
                                assert(req_encoding(q).len() == 15);
                            }
                            Request::Action(_) => {
                                assert(req_encoding(q).len() == 12);
                            }
                        }
                    }
                }
            }
            Err(decode_err())
        }
    }
}

/// The `String` form of the decode error.
fn decode_err() -> (m: String)
    ensures
        m@ == decode_err_msg(),
{
    String::from_str("deserialize error: invalid request encoding")
}

} // verus!

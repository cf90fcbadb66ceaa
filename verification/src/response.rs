//! Server-to-client envelope and its wire grammar.
//!
//! A response is the same tagged-variant shape as a request: `{"Action":d}`
//! with d the command ordinal, or `{"Er":"..."}` carrying a human-readable
//! error text as a JSON string (quote, backslash and control characters
//! escaped). Encoding is total: every response value has wire bytes.
use vstd::prelude::*;

verus! {

use vstd::utf8::encode_utf8;
use crate::Command;
use crate::command_ord;
use crate::request::Request;
use crate::request::req_encoding;

/// Envelope sent server-to-client: a relayed command, or an error text sent
/// during the introduction phase before the connection is closed.
#[derive(Clone, Debug, PartialEq, Eq)]
pub enum Response {
    Action(Command),
    Er(String),
}

/// ASCII code of the hexadecimal digit for `v` (lower case letters).
pub open spec fn hex_digit_of(v: int) -> u8
    recommends
        0 <= v < 16,
{
    if v < 10 {
        (48 + v) as u8
    } else {
        (87 + v) as u8
    }
}

/// JSON string escaping of one byte: quote and backslash get a backslash,
/// control bytes become `\u00xx`, everything else stands for itself. Bytes of
/// a multi-byte UTF-8 sequence are at least 0x80 and pass through unchanged,
/// so escaping byte by byte preserves well-formed UTF-8 text.
pub open spec fn escape_byte(b: u8) -> Seq<u8> {
    if b == 34 || b == 92 {
        seq![92u8, b]
    } else if b < 32 {
        seq![92u8, 117, 48, 48, hex_digit_of(b as int / 16), hex_digit_of(b as int % 16)]
    } else {
        seq![b]
    }
}

/// JSON string escaping of a byte string, byte by byte.
pub open spec fn escape_bytes(s: Seq<u8>) -> Seq<u8>
    decreases s.len(),
{
    if s.len() == 0 {
        Seq::empty()
    } else {
        escape_bytes(s.drop_last()) + escape_byte(s.last())
    }
}

/// The wire bytes of an error response: `{"Er":"` + the escaped UTF-8 bytes of
/// the message + `"}`.
pub open spec fn er_encoding(msg: Seq<char>) -> Seq<u8> {
    seq![123u8, 34, 69, 114, 34, 58, 34] + escape_bytes(encode_utf8(msg)) + seq![34u8, 125]
}

/// The wire bytes of a response. An `Action` is encoded exactly as the
/// client-side `Action` request with the same command, which is what lets a
/// relayed command echo back with the ordinal it was sent with.
pub open spec fn resp_encoding(r: Response) -> Seq<u8> {
    match r {
        Response::Action(c) => seq![
            123u8, 34, 65, 99, 116, 105, 111, 110, 34, 58,
            (48 + command_ord(c)) as u8, 125,
        ],
        Response::Er(m) => er_encoding(m@),
    }
}

/// The two `Action` grammars coincide: a relayed command goes back out with
/// the very bytes, and so the very ordinal, that carry it on the way in.
pub proof fn lemma_action_wire_compat(c: Command)
    ensures
        resp_encoding(Response::Action(c)) == req_encoding(Request::Action(c)),
{
}

impl Response {
    /// Encode this response to its wire bytes. Total: succeeds on every value.
    pub fn encode(&self) -> (r: Vec<u8>)
        ensures
            r@ == resp_encoding(*self),
    {
        match self {
            Response::Action(c) => {
                let mut out: Vec<u8> = Vec::new();
                out.push(123);
                out.push(34);
                out.push(65);
                out.push(99);
                out.push(116);
                out.push(105);
                out.push(111);
                out.push(110);
                out.push(34);
                out.push(58);
                out.push(command_digit(*c));
                out.push(125);
                proof {
                    assert(out@ =~= resp_encoding(*self));
                }
                out
            }
            Response::Er(m) => {
                let mut out: Vec<u8> = Vec::new();
                out.push(123);
                out.push(34);
                out.push(69);
                out.push(114);
                out.push(34);
                out.push(58);
                out.push(34);
                escape_into(&mut out, m.as_str().as_bytes());
                out.push(34);
                out.push(125);
                proof {
                    assert(out@ =~= resp_encoding(*self));
                }
                out
            }
        }
    }
}

/// ASCII digit byte of a command's wire ordinal.
fn command_digit(c: Command) -> (d: u8)
    ensures
        d == (48 + command_ord(c)) as u8,
{
    match c {
        Command::FORWARD => 48,
        Command::BACKWARD => 49,
        Command::LEFT => 50,
        Command::RIGHT => 51,
        Command::STOP => 52,
    }
}

/// ASCII code of the hexadecimal digit for `v` (lower case letters).
fn hex_digit(v: u8) -> (d: u8)
    requires
        v < 16,
    ensures
        d == hex_digit_of(v as int),
{
    if v < 10 {
        48 + v
    } else {
        87 + v
    }
}

/// Append the JSON string escaping of `data` to `out`.
fn escape_into(out: &mut Vec<u8>, data: &[u8])
    ensures
        final(out)@ == old(out)@ + escape_bytes(data@),
{
    let ghost out0 = out@;
    let mut i: usize = 0;
    while i < data.len()
        invariant
            i <= data@.len(),
            out@ == out0 + escape_bytes(data@.take(i as int)),
        decreases data@.len() - i,
    {
        let b = data[i];
        if b == 34 || b == 92 {
            out.push(92);
            out.push(b);
        } else if b < 32 {
            out.push(92);
            out.push(117);
            out.push(48);
            out.push(48);
            out.push(hex_digit(b / 16));
            out.push(hex_digit(b % 16));
        } else {
            out.push(b);
        }
        proof {
            assert(data@.take(i + 1).drop_last() =~= data@.take(i as int));
            assert(data@.take(i + 1).last() == data@[i as int]);
            assert(out@ =~= out0 + escape_bytes(data@.take(i + 1)));
        }
        i = i + 1;
    }
    proof {
        assert(data@.take(data@.len() as int) =~= data@);
    }
}

} // verus!

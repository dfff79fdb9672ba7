//! The request a session sends to the privileged service over its socket, and
//! the service's reply.
//!
//! A request is the requester's process id in decimal, one character naming the
//! kind of session (`'s'` for a desktop server, anything else for a client), and a
//! newline. The service answers `Done` once the interface has been handed over.

use vstd::prelude::*;
use crate::decimal::{all_digits, digits_value, lemma_nat_decimal_reads_back, int_decimal, lemma_parse_i32_of_decimal, nat_decimal, push_char, spec_parse_i32, u32_decimal};

verus! {

/// The line a session with process id `pid` writes to request an interface.
pub open spec fn spec_request_line(pid: nat, req_type: char) -> Seq<char> {
    nat_decimal(pid) + seq![req_type, '\n']
}

/// What the service takes from a received line: everything before the last two
/// characters is the process id, the second-to-last character is the kind of
/// session; a line shorter than two characters is no request.
pub open spec fn spec_parse_request(line: Seq<char>) -> Option<(Seq<char>, char)> {
    if line.len() < 2 {
        None
    } else {
        Some((line.subrange(0, line.len() - 2), line[line.len() - 2]))
    }
}

/// The kind of session that asks for an interface.
#[derive(Clone, Copy, Debug, PartialEq, Eq, Structural)]
pub enum RequestKind {
    /// A desktop server (request character `'s'`).
    Server,
    /// A desktop client (any other request character).
    Client,
}

/// The kind of session that the request character `req_type` names.
pub open spec fn spec_request_kind(req_type: char) -> RequestKind {
    if req_type == 's' {
        RequestKind::Server
    } else {
        RequestKind::Client
    }
}

/// A request as the service reads it.
pub struct Request {
    /// The requester's process id, as it was written.
    pub pid: String,
    /// The character that names the kind of session.
    pub req_type: char,
}

impl Request {
    /// The kind of session that asked.
    pub fn kind(&self) -> (k: RequestKind)
        ensures
            k == spec_request_kind(self.req_type),
    {
        if self.req_type == 's' {
            RequestKind::Server
        } else {
            RequestKind::Client
        }
    }
}

/// The line that a session with process id `pid` writes to ask for an interface.
pub fn request_line(pid: u32, req_type: char) -> (line: String)
    ensures
        line@ == spec_request_line(pid as nat, req_type),
        line@.len() >= 3,
        line@.last() == '\n',
        line@[line@.len() - 2] == req_type,
{
    let mut line = u32_decimal(pid);
    push_char(&mut line, req_type);
    push_char(&mut line, '\n');
    assert(line@ =~= spec_request_line(pid as nat, req_type));
    line
}

/// Reads a received request line. `None` where the service refuses it as invalid.
pub fn parse_request(line: &str) -> (r: Option<Request>)
    ensures
        r is None <==> spec_parse_request(line@) is None,
        r matches Some(q) ==> spec_parse_request(line@) == Some((q.pid@, q.req_type)),
{
    let len = line.unicode_len();
    if len < 2 {
        return None;
    }
    let req_type = line.get_char(len - 2);
    let pid = String::from_str(line.substring_char(0, len - 2));
    Some(Request { pid, req_type })
}

/// The reply of the service once the interface is in the requester's namespace.
pub fn done_reply() -> (r: &'static str)
    ensures
        r@ == "Done"@,
{
    "Done"
}

/// Whether a reply received by a session reports that its request was completed.
pub fn is_done_reply(reply: &str) -> (ok: bool)
    ensures
        ok == (reply@ == "Done"@),
{
    let expected = "Done";
    proof {
        reveal_strlit("Done");
    }
    let n = reply.unicode_len();
    if n != 4 {
        return false;
    }
    let mut i: usize = 0;
    while i < 4
        invariant
            i <= 4,
            reply@.len() == 4,
            expected@ == "Done"@,
            expected@.len() == 4,
            forall|j: int| 0 <= j < i ==> reply@[j] == expected@[j],
        decreases 4 - i,
    {
        if reply.get_char(i) != expected.get_char(i) {
            return false;
        }
        i = i + 1;
    }
    assert(reply@ =~= expected@);
    true
}

/// The service reads back, from the line a session writes, the session's process id
/// in decimal and the kind of session it named.
pub proof fn lemma_request_round_trip(pid: u32, req_type: char)
    ensures
        spec_parse_request(spec_request_line(pid as nat, req_type))
            == Some((nat_decimal(pid as nat), req_type)),
{
    let line = spec_request_line(pid as nat, req_type);
    let digits = nat_decimal(pid as nat);
    assert(line.subrange(0, line.len() - 2) =~= digits);
    assert(line[line.len() - 2] == req_type);
}


/// The process id that the service reads from a request reads back, as a signed
/// 32-bit number, as the requester's id, for every id up to `i32::MAX`.
pub proof fn lemma_request_pid_reads_back(pid: u32, req_type: char)
    requires
        pid <= i32::MAX,
    ensures
        spec_parse_request(spec_request_line(pid as nat, req_type)) matches Some((text, _))
            && spec_parse_i32(text) == Some(pid as i32),
{
    lemma_request_round_trip(pid, req_type);
    lemma_parse_i32_of_decimal(pid as i32);
    assert(int_decimal(pid as int) == nat_decimal(pid as nat));
}


/// Every request line ends in a newline, the only one before the kind character,
/// which ends the service's read of it; the
/// character before it is the kind, and everything before that is a digit string
/// that reads back as the requester's process id.
pub proof fn lemma_request_line_shape(pid: u32, req_type: char)
    ensures
        ({
            let line = spec_request_line(pid as nat, req_type);
            &&& line.len() >= 3
            &&& line.last() == '\n'
            &&& line[line.len() - 2] == req_type
            &&& all_digits(line.subrange(0, line.len() - 2))
            &&& digits_value(line.subrange(0, line.len() - 2)) == pid
            &&& forall|i: int| 0 <= i < line.len() - 2 ==> line[i] != '\n'
        }),
{
    lemma_nat_decimal_reads_back(pid as nat);
    let line = spec_request_line(pid as nat, req_type);
    let digits = nat_decimal(pid as nat);
    assert(line.subrange(0, line.len() - 2) =~= digits);
    assert forall|i: int| 0 <= i < line.len() - 2 implies line[i] != '\n' by {
        if i < digits.len() {
            assert(line[i] == digits[i]);
            assert(crate::decimal::is_digit(digits[i]));
        }
    }
}

} // verus!

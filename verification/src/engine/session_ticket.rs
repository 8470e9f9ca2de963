//! Recognising a TLS session resumption in a ClientHello.
use vstd::prelude::*;

use crate::wire::{be16, read_be16};

verus! {

/// Whether, among the extensions that start at `pos` and end at `end`, the
/// first session_ticket extension carries a ticket.
pub open spec fn ticket_in_extensions(body: Seq<u8>, pos: int, end: int) -> bool
    decreases
            if pos <= body.len() {
                body.len() - pos
            } else {
                0
            },
{
    if 0 <= pos && pos + 4 <= end && pos + 4 <= body.len() {
        let ext_len = be16(body[pos + 2], body[pos + 3]) as int;
        if be16(body[pos], body[pos + 1]) == 0x0023 {
            ext_len > 0
        } else {
            ticket_in_extensions(body, pos + 4 + ext_len, end)
        }
    } else {
        false
    }
}

/// Where the cipher suites of a ClientHello body start.
pub open spec fn cipher_suites_at(body: Seq<u8>) -> int {
    35 + body[34] as int
}

/// Where the compression methods of a ClientHello body start.
pub open spec fn compression_at(body: Seq<u8>) -> int {
    let pos = cipher_suites_at(body);
    pos + 2 + be16(body[pos], body[pos + 1])
}

/// Where the extensions of a ClientHello body start.
pub open spec fn extensions_at(body: Seq<u8>) -> int {
    compression_at(body) + 1 + body[compression_at(body)] as int
}

/// Whether a ClientHello body carries a ticket of an earlier session.
pub open spec fn body_resumes(body: Seq<u8>) -> bool {
    &&& body.len() >= 35
    &&& cipher_suites_at(body) + 2 <= body.len()
    &&& compression_at(body) < body.len()
    &&& extensions_at(body) + 2 <= body.len()
    &&& ({
        let pos = extensions_at(body);
        ticket_in_extensions(body, pos + 2, pos + 2 + be16(body[pos], body[pos + 1]))
    })
}

/// Whether a TLS record is a ClientHello that carries a ticket of an earlier
/// session. An empty session_ticket extension only announces support.
pub open spec fn resumes_session(payload: Seq<u8>) -> bool {
    &&& payload.len() >= 9
    &&& payload[0] == 0x16
    &&& 5 + be16(payload[3], payload[4]) <= payload.len()
    &&& payload[5] == 0x01
    &&& body_resumes(payload.subrange(9, payload.len() as int))
}

/// Whether a TLS record is a ClientHello with a non-empty session_ticket
/// extension.
pub fn has_non_empty_session_ticket(payload: &[u8]) -> (r: bool)
    ensures
        r == resumes_session(payload@),
{
    if payload.len() < 5 || payload[0] != 0x16 {
        return false;
    }
    let record_len: usize = read_be16(payload, 3) as usize;
    if 5 + record_len > payload.len() {
        return false;
    }
    if payload.len() < 9 || payload[5] != 0x01 {
        return false;
    }
    let body: Vec<u8> = crate::wire::copy_range(payload, 9, payload.len());
    if body.len() < 35 {
        return false;
    }
    let mut pos: usize = 35 + body[34] as usize;
    if pos + 2 > body.len() {
        return false;
    }
    pos = pos + 2 + read_be16(body.as_slice(), pos) as usize;
    if pos >= body.len() {
        return false;
    }
    let comp_len: usize = body[pos] as usize;
    let body_len: usize = body.len();
    if comp_len >= body_len - pos {
        return false;
    }
    pos = pos + 1 + comp_len;
    if 2 > body_len - pos {
        return false;
    }
    let ext_total: usize = read_be16(body.as_slice(), pos) as usize;
    pos = pos + 2;
    // How much is left of the extensions, and of the body.
    let mut left: usize = ext_total;
    while left >= 4 && body_len - pos >= 4
        invariant
            body_len == body@.len(),
            pos <= body_len,
            ticket_in_extensions(body@, pos as int, pos + left) == body_resumes(body@),
            body@ == payload@.subrange(9, payload@.len() as int),
            resumes_session(payload@) == body_resumes(body@),
        decreases body_len - pos,
    {
        let ext_type: u16 = read_be16(body.as_slice(), pos);
        let ext_len: usize = read_be16(body.as_slice(), pos + 2) as usize;
        if ext_type == 0x0023 {
            return ext_len > 0;
        }
        if left - 4 < ext_len || body_len - pos - 4 < ext_len {
            assert(!ticket_in_extensions(body@, pos + 4 + ext_len, pos + left));
            return false;
        }
        pos = pos + 4 + ext_len;
        left = left - 4 - ext_len;
    }
    false
}

/// A record that is no handshake, or whose length reaches past the payload,
/// or whose handshake is no ClientHello, is no resumption.
pub proof fn only_client_hello_resumes(payload: Seq<u8>)
    requires
        payload.len() < 5 || payload[0] != 0x16 || 5 + be16(payload[3], payload[4]) > payload.len()
            || payload[5] != 0x01,
    ensures
        !resumes_session(payload),
{
}

/// Only a session_ticket extension with something in it makes a resumption:
/// somewhere among the extensions stands its number, 35, and a length above
/// zero.
pub proof fn resumption_needs_a_ticket(body: Seq<u8>, pos: int, end: int)
    requires
        ticket_in_extensions(body, pos, end),
    ensures
        exists|i: int|
            pos <= i && i + 4 <= end && i + 4 <= body.len() && #[trigger] body[i] == 0 && body[i + 1]
                == 35 && (body[i + 2] != 0 || body[i + 3] != 0),
    decreases
            if pos <= body.len() {
                body.len() - pos
            } else {
                0
            },
{
    let ext_len = body[pos + 2] * 256 + body[pos + 3];
    if body[pos] == 0 && body[pos + 1] == 35 {
        assert(body[pos] == 0);
    } else {
        resumption_needs_a_ticket(body, pos + 4 + ext_len, end);
    }
}

/// The first session_ticket extension decides, by whether anything is in it;
/// any other extension is passed over by its length.
pub proof fn extensions_are_passed_over(body: Seq<u8>, pos: int, end: int)
    requires
        0 <= pos,
        pos + 4 <= end,
        pos + 4 <= body.len(),
    ensures
        body[pos] == 0 && body[pos + 1] == 35 ==> (ticket_in_extensions(body, pos, end) <==> body[pos
            + 2] != 0 || body[pos + 3] != 0),
        body[pos] != 0 || body[pos + 1] != 35 ==> ticket_in_extensions(body, pos, end)
            == ticket_in_extensions(body, pos + 4 + body[pos + 2] * 256 + body[pos + 3], end),
{
}

/// Where the extensions of a ClientHello stand: behind a version, thirty-two
/// random bytes, the session id, the cipher suites and the compression methods,
/// each behind its length. A whole ClientHello whose first extension is a ticket
/// is a resumption.
pub proof fn a_ticket_is_found_in_its_place(payload: Seq<u8>, sid: int, suites: int, methods: int)
    requires
        payload.len() >= 9 + 35 + sid + 2 + suites + 1 + methods + 2 + 4,
        payload[0] == 0x16,
        5 + payload[3] * 256 + payload[4] <= payload.len(),
        payload[5] == 1,
        payload[43] == sid,
        0 <= suites,
        ({
            let at_suites = 44 + sid;
            let at_methods = at_suites + 2 + suites;
            let at_ext = at_methods + 1 + methods;
            &&& payload[at_suites] * 256 + payload[at_suites + 1] == suites
            &&& payload[at_methods] == methods
            &&& payload[at_ext] * 256 + payload[at_ext + 1] >= 4
            &&& payload[at_ext + 2] == 0 && payload[at_ext + 3] == 35
        }),
    ensures
        ({
            let at_ext = 44 + sid + 2 + suites + 1 + methods;
            resumes_session(payload) <==> payload[at_ext + 4] != 0 || payload[at_ext + 5] != 0
        }),
{
    let body = payload.subrange(9, payload.len() as int);
    let at = 35 + sid + 2 + suites + 1 + methods;
    assert(body[34] == payload[43]);
    assert(body[35 + sid] == payload[44 + sid] && body[36 + sid] == payload[45 + sid]);
    assert(body[35 + sid + 2 + suites] == payload[44 + sid + 2 + suites]);
    assert(body[at] == payload[at + 9] && body[at + 1] == payload[at + 10]);
    assert(body[at + 2] == payload[at + 11] && body[at + 3] == payload[at + 12]);
    assert(body[at + 4] == payload[at + 13] && body[at + 5] == payload[at + 14]);
    assert(cipher_suites_at(body) == 35 + sid);
    assert(compression_at(body) == 35 + sid + 2 + suites);
    assert(extensions_at(body) == at);
    extensions_are_passed_over(body, at + 2, at + 2 + be16(body[at], body[at + 1]));
}

} // verus!

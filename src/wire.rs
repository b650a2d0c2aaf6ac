//! The bytes of an HTTP/1.1 response: status line, header lines, a blank line, the body.
use vstd::prelude::*;
use crate::message::{Response, ResponseView};
use crate::syntax::is_status;

verus! {

/// The reason phrase that `http` registers for a status code, as bytes, if it has one.
pub uninterp spec fn canonical_reason_of(code: u16) -> Option<Seq<u8>>;

/// Relies on `http::StatusCode::canonical_reason`: the reason phrase registered for a valid
/// status code, if there is one.
#[verifier::external_body]
fn canonical_reason(code: u16) -> (r: Option<Vec<u8>>)
    requires
        is_status(code),
    ensures
        match r {
            Some(v) => canonical_reason_of(code) == Some(v@),
            None => canonical_reason_of(code) == None::<Seq<u8>>,
        },
{
    match http::StatusCode::from_u16(code) {
        Ok(s) => s.canonical_reason().map(|t| t.as_bytes().to_vec()),
        Err(_) => None,
    }
}

/// The reason phrase written for a status code: the registered one, or none.
pub open spec fn reason(code: u16) -> Seq<u8> {
    match canonical_reason_of(code) {
        Some(t) => t,
        None => seq![],
    }
}

pub open spec fn crlf() -> Seq<u8> {
    seq![13u8, 10]
}

pub open spec fn digit(d: int) -> u8 {
    (48 + d) as u8
}

/// "HTTP/1.1 ", the three digits of the code, a space, the reason phrase, CRLF.
pub open spec fn status_line(code: u16) -> Seq<u8> {
    seq![72u8, 84, 84, 80, 47, 49, 46, 49, 32] + seq![
        digit(code as int / 100),
        digit((code as int / 10) % 10),
        digit(code as int % 10),
        32u8,
    ] + reason(code) + crlf()
}

/// The name, a colon and a space, the value, CRLF.
pub open spec fn header_line(h: (Seq<u8>, Seq<u8>)) -> Seq<u8> {
    h.0 + seq![58u8, 32] + h.1 + crlf()
}

pub open spec fn header_lines(hs: Seq<(Seq<u8>, Seq<u8>)>) -> Seq<u8>
    decreases hs.len(),
{
    if hs.len() == 0 {
        seq![]
    } else {
        header_lines(hs.drop_last()) + header_line(hs.last())
    }
}

/// The bytes that carry a response on an HTTP/1.1 connection.
pub open spec fn wire_form(r: ResponseView) -> Seq<u8> {
    status_line(r.status) + header_lines(r.headers) + crlf() + r.body
}

fn push_all(out: &mut Vec<u8>, s: &[u8])
    ensures
        final(out)@ == old(out)@ + s@,
{
    let n = s.len();
    let mut i: usize = 0;
    while i < n
        invariant
            n == s@.len(),
            0 <= i <= n,
            out@ == old(out)@ + s@.take(i as int),
        decreases n - i,
    {
        out.push(s[i]);
        assert(s@.take(i as int + 1) =~= s@.take(i as int).push(s@[i as int]));
        i = i + 1;
    }
    assert(s@.take(n as int) =~= s@);
}

impl Response {
    /// The bytes of this response on an HTTP/1.1 connection, status line, header lines
    /// and body in that order.
    pub fn to_wire(&self) -> (r: Vec<u8>)
        ensures
            r@ == wire_form(self@),
    {
        proof {
            use_type_invariant(self);
        }
        let code = self.status();
        let hdrs = self.headers();
        let mut out: Vec<u8> = vec![72u8, 84, 84, 80, 47, 49, 46, 49, 32];
        out.push(48 + (code / 100) as u8);
        out.push(48 + ((code / 10) % 10) as u8);
        out.push(48 + (code % 10) as u8);
        out.push(32);
        match canonical_reason(code) {
            Some(t) => push_all(&mut out, t.as_slice()),
            None => {},
        }
        out.push(13);
        out.push(10);
        assert(out@ =~= status_line(code));
        let ghost hs = self@.headers;
        let n = hdrs.len();
        let mut i: usize = 0;
        while i < n
            invariant
                n == hdrs.len(),
                hdrs.deep_view() == hs,
                hs == self@.headers,
                0 <= i <= n,
                out@ == status_line(code) + header_lines(hs.take(i as int)),
            decreases n - i,
        {
            let name = &hdrs[i].0;
            let value = &hdrs[i].1;
            assert(name.deep_view() =~= name@);
            assert(value.deep_view() =~= value@);
            assert(hs[i as int] == (name@, value@));
            let ghost before = out@;
            push_all(&mut out, name.as_slice());
            out.push(58);
            out.push(32);
            push_all(&mut out, value.as_slice());
            out.push(13);
            out.push(10);
            assert(hs.take(i as int + 1).drop_last() =~= hs.take(i as int));
            assert(out@ =~= before + header_line(hs[i as int]));
            i = i + 1;
        }
        assert(hs.take(n as int) =~= hs);
        out.push(13);
        out.push(10);
        push_all(&mut out, self.body().as_slice());
        assert(out@ =~= wire_form(self@));
        out
    }
}

} // verus!

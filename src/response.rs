//! Outbound HTTP responses and their one encoding: a JSON control envelope
//! with status and headers, and the body as a raw attached payload.
use vstd::prelude::*;
use crate::json::{append_decimal, decimal, json_quoted, json_string_literal};

verus! {

/// The MIME type under which a response body is attached.
pub const PAYLOAD_MIME: &'static str = "application/octet-stream";

/// One response header.
#[derive(Debug, Clone)]
pub struct Header {
    pub name: String,
    pub value: String,
}

impl Header {
    pub fn new(name: &str, value: &str) -> (r: Header)
        ensures
            r.name@ == name@,
            r.value@ == value@,
    {
        Header { name: name.to_string(), value: value.to_string() }
    }
}

pub open spec fn header_pair(h: Header) -> (Seq<char>, Seq<char>) {
    (h.name@, h.value@)
}

/// The headers as (name, value) pairs, in order.
pub open spec fn headers_view(hs: Seq<Header>) -> Seq<(Seq<char>, Seq<char>)> {
    hs.map_values(|h: Header| header_pair(h))
}

/// A response: status, headers and body.
#[derive(Debug, Clone)]
pub struct OutboundResponse {
    pub status: u16,
    pub headers: Vec<Header>,
    pub body: Vec<u8>,
}

/// What goes to the transport: the control envelope as JSON text, and the
/// body attached under a MIME type.
#[derive(Debug, Clone)]
pub struct ResponseEnvelope {
    pub control: String,
    pub mime: String,
    pub payload: Vec<u8>,
}

pub open spec fn member_json(h: (Seq<char>, Seq<char>)) -> Seq<char> {
    json_string_literal(h.0) + ":"@ + json_string_literal(h.1)
}

/// The members of a JSON object, one per header, separated by commas.
pub open spec fn members_json(hs: Seq<(Seq<char>, Seq<char>)>) -> Seq<char>
    decreases hs.len(),
{
    if hs.len() == 0 {
        Seq::empty()
    } else if hs.len() == 1 {
        member_json(hs[0])
    } else {
        members_json(hs.drop_last()) + ","@ + member_json(hs.last())
    }
}

/// The control envelope `{"status":<status>,"headers":{<members>}}`.
pub open spec fn control_json(status: u16, hs: Seq<(Seq<char>, Seq<char>)>) -> Seq<char> {
    "{\"status\":"@ + decimal(status as nat) + ",\"headers\":{"@ + members_json(hs) + "}}"@
}

impl OutboundResponse {
    /// Encodes the response: the same shape whatever its content.
    pub fn encode(self) -> (r: ResponseEnvelope)
        ensures
            r.control@ == control_json(self.status, headers_view(self.headers@)),
            r.mime@ == PAYLOAD_MIME@,
            r.payload@ == self.body@,
    {
        let ghost hv = headers_view(self.headers@);
        let mut out = "{\"status\":".to_string();
        append_decimal(&mut out, self.status);
        out.append(",\"headers\":{");
        let ghost prefix = out@;
        let n = self.headers.len();
        let mut i: usize = 0;
        while i < n
            invariant
                n == self.headers@.len(),
                hv == headers_view(self.headers@),
                i <= n,
                out@ == prefix + members_json(hv.take(i as int)),
            decreases n - i,
        {
            let ghost before = out@;
            if i > 0 {
                out.append(",");
            }
            let h = &self.headers[i];
            let k = json_quoted(h.name.as_str());
            let v = json_quoted(h.value.as_str());
            out.append(k.as_str());
            out.append(":");
            out.append(v.as_str());
            proof {
                let t = hv.take(i as int + 1);
                assert(t.drop_last() =~= hv.take(i as int));
                assert(t.last() == header_pair(self.headers@[i as int]));
                if i == 0 {
                    assert(members_json(hv.take(0)) =~= Seq::<char>::empty());
                }
                assert(out@ =~= prefix + members_json(t));
            }
            i = i + 1;
        }
        out.append("}}");
        proof {
            assert(hv.take(n as int) =~= hv);
            assert(out@ =~= control_json(self.status, hv));
        }
        ResponseEnvelope { control: out, mime: PAYLOAD_MIME.to_string(), payload: self.body }
    }
}

} // verus!

//! The request carrier: the parsed form of one incoming request, and
//! the client-side rendering of a request onto the wire.
use vstd::prelude::*;

use crate::method::{spec_method_token, HttpMethod};

verus! {

/// A parsed request: every field is populated when the carrier is
/// built, and the carrier is immutable afterwards.
#[derive(Debug, Clone)]
pub struct Request {
    pub method: HttpMethod,
    pub url: String,
    pub headers: Vec<String>,
    pub body: String,
}

/// A header block: each header line followed by one line ending.
pub open spec fn spec_headers_block(hs: Seq<Seq<char>>) -> Seq<char>
    decreases hs.len(),
{
    if hs.len() == 0 {
        Seq::empty()
    } else {
        hs[0] + "\r\n"@ + spec_headers_block(hs.drop_first())
    }
}

/// Appending one more header extends the block by that header and a
/// line ending.
pub proof fn lemma_headers_block_push(hs: Seq<Seq<char>>, x: Seq<char>)
    ensures
        spec_headers_block(hs.push(x)) == spec_headers_block(hs) + x + "\r\n"@,
    decreases hs.len(),
{
    if hs.len() == 0 {
        assert(hs.push(x).drop_first() =~= Seq::<Seq<char>>::empty());
        assert(hs.push(x)[0] == x);
        assert(spec_headers_block(Seq::<Seq<char>>::empty()) == Seq::<char>::empty());
        assert(spec_headers_block(hs.push(x)) == x + "\r\n"@ + Seq::<char>::empty());
        assert(x + "\r\n"@ + Seq::<char>::empty() =~= Seq::<char>::empty() + x + "\r\n"@);
    } else {
        lemma_headers_block_push(hs.drop_first(), x);
        assert(hs.push(x).drop_first() =~= hs.drop_first().push(x));
        assert(hs.push(x)[0] == hs[0]);
        assert(hs[0] + "\r\n"@ + (spec_headers_block(hs.drop_first()) + x + "\r\n"@) =~= (hs[0]
            + "\r\n"@ + spec_headers_block(hs.drop_first())) + x + "\r\n"@);
    }
}

/// A request on the wire: the request line, the header block, a blank
/// line, then the body.
pub open spec fn spec_request_wire(
    m: HttpMethod,
    url: Seq<char>,
    hs: Seq<Seq<char>>,
    body: Seq<char>,
) -> Seq<char> {
    spec_method_token(m) + " "@ + url + " HTTP/1.1\r\n"@ + spec_headers_block(hs) + "\r\n"@ + body
}

impl Request {
    /// Builds a request from all four fields.
    pub fn new(method: HttpMethod, url: &str, headers: Vec<String>, body: String) -> (r: Request)
        ensures
            r.method == method,
            r.url@ == url@,
            r.headers == headers,
            r.body == body,
    {
        Request { method, url: String::from_str(url), headers, body }
    }

    /// Builds a request with no headers.
    pub fn new_1_1(method: HttpMethod, url: &str, body: String) -> (r: Request)
        ensures
            r.method == method,
            r.url@ == url@,
            r.headers@.len() == 0,
            r.body == body,
    {
        Request { method, url: String::from_str(url), headers: Vec::new(), body }
    }

    /// Builds a bodiless GET request with no headers.
    pub fn new_1_1_get(url: &str) -> (r: Request)
        ensures
            r.method == HttpMethod::GET,
            r.url@ == url@,
            r.headers@.len() == 0,
            r.body@.len() == 0,
    {
        Request {
            method: HttpMethod::GET,
            url: String::from_str(url),
            headers: Vec::new(),
            body: String::new(),
        }
    }

    /// Renders the request onto the wire.
    pub fn render(&self) -> (r: String)
        ensures
            r@ == spec_request_wire(self.method, self.url@, self.headers.deep_view(), self.body@),
    {
        let mut s = String::new();
        s.append(self.method.as_str());
        s.append(" ");
        s.append(self.url.as_str());
        s.append(" HTTP/1.1\r\n");
        let ghost hs = self.headers.deep_view();
        let mut i: usize = 0;
        let ghost sofar = s@;
        proof {
            assert(hs.subrange(0, 0) =~= Seq::<Seq<char>>::empty());
            assert(s@ + spec_headers_block(hs.subrange(0, 0)) =~= s@);
        }
        while i < self.headers.len()
            invariant
                i <= self.headers@.len(),
                hs == self.headers.deep_view(),
                hs.len() == self.headers@.len(),
                s@ == sofar + spec_headers_block(hs.subrange(0, i as int)),
            decreases self.headers@.len() - i,
        {
            s.append(self.headers[i].as_str());
            s.append("\r\n");
            proof {
                let prefix = hs.subrange(0, i as int);
                lemma_headers_block_push(prefix, hs[i as int]);
                assert(prefix.push(hs[i as int]) =~= hs.subrange(0, i as int + 1));
                assert(hs[i as int] == self.headers.deep_view()[i as int]);
                assert(sofar + (spec_headers_block(prefix) + hs[i as int] + "\r\n"@) =~= (sofar
                    + spec_headers_block(prefix)) + hs[i as int] + "\r\n"@);
            }
            i = i + 1;
        }
        proof {
            assert(hs.subrange(0, hs.len() as int) =~= hs);
        }
        s.append("\r\n");
        s.append(self.body.as_str());
        proof {
            assert(s@ =~= spec_request_wire(
                self.method,
                self.url@,
                self.headers.deep_view(),
                self.body@,
            ));
        }
        s
    }
}

} // verus!

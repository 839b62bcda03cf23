use vstd::prelude::*;
use crate::response::HtmxResponse;
use crate::text::{names_match, same_name};

verus! {

/// A header list as pairs of texts.
pub open spec fn pairs_view(hs: Seq<(String, String)>) -> Seq<(Seq<char>, Seq<char>)> {
    hs.map_values(|p: (String, String)| (p.0@, p.1@))
}

/// The value of the first header from position `i` on whose name matches
/// `name` (ignoring ASCII case).
pub open spec fn header_from(hs: Seq<(Seq<char>, Seq<char>)>, name: Seq<char>, i: int) -> Option<
    Seq<char>,
>
    decreases hs.len() - i,
{
    if i < 0 || i >= hs.len() {
        None
    } else if names_match(hs[i].0, name) {
        Some(hs[i].1)
    } else {
        header_from(hs, name, i + 1)
    }
}

/// The value of the first header named `name`.
pub open spec fn header_value(hs: Seq<(Seq<char>, Seq<char>)>, name: Seq<char>) -> Option<Seq<char>> {
    header_from(hs, name, 0)
}

/// The view of an optional text.
pub open spec fn opt_view(o: Option<String>) -> Option<Seq<char>> {
    match o {
        Some(s) => Some(s@),
        None => None,
    }
}

fn find_header(headers: &Vec<(String, String)>, name: &str) -> (r: Option<String>)
    ensures
        opt_view(r) == header_value(pairs_view(headers@), name@),
{
    let ghost hs = pairs_view(headers@);
    let mut i: usize = 0;
    while i < headers.len()
        invariant
            i <= headers@.len(),
            hs == pairs_view(headers@),
            header_from(hs, name@, 0) == header_from(hs, name@, i as int),
        decreases headers@.len() - i,
    {
        if same_name(headers[i].0.as_str(), name) {
            return Some(headers[i].1.clone());
        }
        i += 1;
    }
    None
}

fn push_header(headers: &mut Vec<(String, String)>, name: &str, value: &str)
    ensures
        pairs_view(final(headers)@) == pairs_view(old(headers)@).push((name@, value@)),
{
    let ghost before = headers@;
    headers.push((name.to_owned(), value.to_owned()));
    assert(pairs_view(headers@) =~= pairs_view(before).push((name@, value@)));
}

/// The request side of one exchange: its headers and its raw body.
pub struct HtmxReq {
    pub headers: Vec<(String, String)>,
    pub body: Vec<u8>,
}

impl HtmxReq {
    pub open spec fn headers_view(&self) -> Seq<(Seq<char>, Seq<char>)> {
        pairs_view(self.headers@)
    }

    pub open spec fn body_view(&self) -> Seq<u8> {
        self.body@
    }

    pub fn new(headers: Vec<(String, String)>, body: Vec<u8>) -> (r: HtmxReq)
        ensures
            r.headers_view() == pairs_view(headers@),
            r.body_view() == body@,
    {
        HtmxReq { headers, body }
    }

    /// The value of the first header named `name`, ignoring ASCII case.
    pub fn get_header(&self, name: &str) -> (r: Option<String>)
        ensures
            opt_view(r) == header_value(self.headers_view(), name@),
    {
        find_header(&self.headers, name)
    }

    /// Adds a header after those already there.
    pub fn set_header(&mut self, name: &str, value: &str)
        ensures
            final(self).headers_view() == old(self).headers_view().push((name@, value@)),
            final(self).body_view() == old(self).body_view(),
    {
        push_header(&mut self.headers, name, value);
    }

    pub fn body_bytes(&self) -> (r: &Vec<u8>)
        ensures
            r@ == self.body_view(),
    {
        &self.body
    }
}

/// The response side of one exchange: headers in the order they were set,
/// and a status code.
pub struct HtmxRes {
    pub headers: Vec<(String, String)>,
    pub status_code: u16,
}

impl HtmxRes {
    pub open spec fn headers_view(&self) -> Seq<(Seq<char>, Seq<char>)> {
        pairs_view(self.headers@)
    }

    pub open spec fn status_view(&self) -> u16 {
        self.status_code
    }

    /// No headers, status 200.
    pub fn new() -> (r: HtmxRes)
        ensures
            r.headers_view() == Seq::<(Seq<char>, Seq<char>)>::empty(),
            r.status_view() == 200,
    {
        let r = HtmxRes { headers: Vec::new(), status_code: 200 };
        assert(r.headers_view() =~= Seq::<(Seq<char>, Seq<char>)>::empty());
        r
    }

    /// The value of the first header named `name`, ignoring ASCII case.
    pub fn get_header(&self, name: &str) -> (r: Option<String>)
        ensures
            opt_view(r) == header_value(self.headers_view(), name@),
    {
        find_header(&self.headers, name)
    }

    /// Adds a header after those already set; a name may occur many times.
    pub fn set_header(&mut self, name: &str, value: &str)
        ensures
            final(self).headers_view() == old(self).headers_view().push((name@, value@)),
            final(self).status_view() == old(self).status_view(),
    {
        push_header(&mut self.headers, name, value);
    }

    pub fn set_status_code(&mut self, status_code: u16)
        ensures
            final(self).headers_view() == old(self).headers_view(),
            final(self).status_view() == status_code,
    {
        self.status_code = status_code;
    }

    pub fn status_code(&self) -> (r: u16)
        ensures
            r == self.status_view(),
    {
        self.status_code
    }

    /// The headers set so far, in order.
    pub fn headers(&self) -> (r: &Vec<(String, String)>)
        ensures
            pairs_view(r@) == self.headers_view(),
    {
        &self.headers
    }

    /// A standard redirect: a `Location` header and status 302.
    pub fn redirect(&mut self, url: &str) -> (r: HtmxResponse)
        ensures
            final(self).headers_view() == old(self).headers_view().push(("Location"@, url@)),
            final(self).status_view() == 302,
            r == HtmxResponse::Empty,
    {
        self.set_header("Location", url);
        self.set_status_code(302);
        HtmxResponse::Empty
    }
}

/// What one handler invocation works on.
pub struct Htmx {
    pub req: HtmxReq,
    pub res: HtmxRes,
}

impl Htmx {
    /// A fresh context for a request: no response headers, status 200.
    pub fn new(req: HtmxReq) -> (r: Htmx)
        ensures
            r.req == req,
            r.res.headers_view() == Seq::<(Seq<char>, Seq<char>)>::empty(),
            r.res.status_view() == 200,
    {
        Htmx { req, res: HtmxRes::new() }
    }

    /// Asks the client to navigate to `url` (the `HX-Redirect` header).
    pub fn navigate(&mut self, url: &str) -> (r: HtmxResponse)
        ensures
            final(self).req == old(self).req,
            final(self).res.headers_view() == old(self).res.headers_view().push(
                ("HX-Redirect"@, url@),
            ),
            final(self).res.status_view() == old(self).res.status_view(),
            r == HtmxResponse::Empty,
    {
        self.res.set_header("HX-Redirect", url);
        HtmxResponse::Empty
    }
}

} // verus!

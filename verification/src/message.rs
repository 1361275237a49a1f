//! Requests and responses as plain values: methods, headers, bodies.
//!
//! Header names are held in lower case, as the HTTP layer hands them over;
//! header values and bodies are bytes.

use vstd::prelude::*;
use vstd::string::*;
use crate::text::{copy_bytes, utf8};

verus! {

/// The method of an upstream request.
#[derive(Clone, Copy, Debug, PartialEq, Eq)]
pub enum Method {
    Get,
    Post,
    Put,
    Delete,
    Head,
    Options,
    Patch,
    Connect,
    Trace,
}

/// One header line.
#[derive(Clone, Debug, PartialEq, Eq)]
pub struct Header {
    pub name: String,
    pub value: Vec<u8>,
}

impl View for Header {
    type V = (Seq<char>, Seq<u8>);

    open spec fn view(&self) -> (Seq<char>, Seq<u8>) {
        (self.name@, self.value@)
    }
}

impl Header {
    /// The header `name: value`, the value in UTF-8.
    pub fn new(name: &str, value: &str) -> (header: Header)
        ensures
            header@ == (name@, utf8(value@)),
    {
        Header { name: String::from_str(name), value: value.as_bytes_vec() }
    }
}

/// A list of headers as names and values.
pub open spec fn headers_view(headers: Seq<Header>) -> Seq<(Seq<char>, Seq<u8>)> {
    headers.map_values(|h: Header| h@)
}

/// The value of the first header named `name`, if there is one.
pub open spec fn header_value(headers: Seq<(Seq<char>, Seq<u8>)>, name: Seq<char>) -> Option<
    Seq<u8>,
>
    decreases headers.len(),
{
    if headers.len() == 0 {
        None
    } else if headers[0].0 == name {
        Some(headers[0].1)
    } else {
        header_value(headers.drop_first(), name)
    }
}

/// The headers that open a response to any origin, header and method.
pub open spec fn cors() -> Seq<(Seq<char>, Seq<u8>)> {
    seq![
        ("access-control-allow-origin"@, utf8("*"@)),
        ("access-control-allow-headers"@, utf8("*"@)),
        ("access-control-allow-methods"@, utf8("*"@)),
    ]
}

/// A response: what the upstream sent, or what the caller is sent.
#[derive(Clone, Debug, PartialEq, Eq)]
pub struct Response {
    pub status: u16,
    pub headers: Vec<Header>,
    pub body: Vec<u8>,
}

/// A response as mathematical values.
pub ghost struct ResponseView {
    pub status: u16,
    pub headers: Seq<(Seq<char>, Seq<u8>)>,
    pub body: Seq<u8>,
}

impl View for Response {
    type V = ResponseView;

    open spec fn view(&self) -> ResponseView {
        ResponseView { status: self.status, headers: headers_view(self.headers@), body: self.body@ }
    }
}

/// The response that reports a failure: the status, a short text as its
/// body, and the CORS headers.
pub open spec fn failure_view(status: u16, text: Seq<char>) -> ResponseView {
    ResponseView { status, headers: cors(), body: utf8(text) }
}

/// The response that serves cached bytes: status 200, a JSON content type,
/// the CORS headers, and the bytes as its body.
pub open spec fn hit_view(bytes: Seq<u8>) -> ResponseView {
    ResponseView {
        status: 200,
        headers: seq![("content-type"@, utf8("application/json"@))] + cors(),
        body: bytes,
    }
}

/// The response that relays an upstream reply: its status, headers and body,
/// with the CORS headers after its own.
pub open spec fn relayed_view(reply: ResponseView) -> ResponseView {
    ResponseView { status: reply.status, headers: reply.headers + cors(), body: reply.body }
}

/// The request staged for the upstream before its body is attached.
#[derive(Clone, Debug, PartialEq, Eq)]
pub struct StagedRequest {
    pub method: Method,
    pub url: String,
    pub headers: Vec<Header>,
}

/// A staged request as mathematical values.
pub ghost struct StagedView {
    pub method: Method,
    pub url: Seq<char>,
    pub headers: Seq<(Seq<char>, Seq<u8>)>,
}

impl View for StagedRequest {
    type V = StagedView;

    open spec fn view(&self) -> StagedView {
        StagedView { method: self.method, url: self.url@, headers: headers_view(self.headers@) }
    }
}

/// Finds the value of the first header named `name`.
pub fn find_header<'a>(headers: &'a Vec<Header>, name: &String) -> (value: Option<&'a Vec<u8>>)
    ensures
        match value {
            Some(v) => header_value(headers_view(headers@), name@) == Some(v@),
            None => header_value(headers_view(headers@), name@) is None,
        },
{
    let ghost all = headers_view(headers@);
    let mut i: usize = 0;
    assert(all.subrange(0, all.len() as int) =~= all);
    while i < headers.len()
        invariant
            0 <= i <= headers@.len(),
            all == headers_view(headers@),
            header_value(all, name@) == header_value(all.subrange(i as int, all.len() as int), name@),
        decreases headers@.len() - i,
    {
        let ghost rest = all.subrange(i as int, all.len() as int);
        assert(rest[0] == headers@[i as int]@);
        if headers[i].name == *name {
            return Some(&headers[i].value);
        }
        assert(rest.drop_first() =~= all.subrange(i + 1, all.len() as int));
        i += 1;
    }
    None
}

/// A fresh copy of a list of headers.
pub fn copy_headers(headers: &Vec<Header>) -> (copy: Vec<Header>)
    ensures
        headers_view(copy@) == headers_view(headers@),
{
    let mut copy: Vec<Header> = Vec::new();
    let mut i: usize = 0;
    while i < headers.len()
        invariant
            0 <= i <= headers@.len(),
            copy@.len() == i,
            forall|j: int| 0 <= j < i ==> (#[trigger] copy@[j])@ == headers@[j]@,
        decreases headers@.len() - i,
    {
        copy.push(Header { name: headers[i].name.clone(), value: copy_bytes(&headers[i].value) });
        i += 1;
    }
    assert(headers_view(copy@) =~= headers_view(headers@));
    copy
}

/// Appends the CORS headers to a list of headers.
pub fn with_cors(headers: Vec<Header>) -> (all: Vec<Header>)
    ensures
        headers_view(all@) == headers_view(headers@) + cors(),
{
    let mut all = headers;
    all.push(Header::new("access-control-allow-origin", "*"));
    all.push(Header::new("access-control-allow-headers", "*"));
    all.push(Header::new("access-control-allow-methods", "*"));
    assert(headers_view(all@) =~= headers_view(headers@) + cors());
    all
}

impl Response {
    /// The response that reports a failure to the caller.
    pub fn failure(status: u16, text: &str) -> (response: Response)
        ensures
            response@ == failure_view(status, text@),
    {
        let headers = with_cors(Vec::new());
        assert(headers_view(headers@) =~= cors());
        Response { status, headers, body: text.as_bytes_vec() }
    }

    /// The response that serves cached bytes.
    pub fn hit(bytes: Vec<u8>) -> (response: Response)
        ensures
            response@ == hit_view(bytes@),
    {
        let mut headers: Vec<Header> = Vec::new();
        headers.push(Header::new("content-type", "application/json"));
        assert(headers_view(headers@) =~= seq![("content-type"@, utf8("application/json"@))]);
        let headers = with_cors(headers);
        Response { status: 200, headers, body: bytes }
    }

    /// The response that relays an upstream reply to the caller.
    pub fn relayed(reply: Response) -> (response: Response)
        ensures
            response@ == relayed_view(reply@),
    {
        let headers = with_cors(reply.headers);
        Response { status: reply.status, headers, body: reply.body }
    }
}

} // verus!

//! One exchange, step by step.
//!
//! The bridge itself never touches the network. Between its steps the
//! embedding program does what only it can do, and reports what came of it:
//!
//! ```text
//! ProxyRequest --prepare--> OutboundRequest        (or InvalidMethod: stop, nothing sent)
//!     the program sends it
//! head or failure --receive--> ResponseHead        (or TransportError: stop)
//!     the program reads the body to its end
//! bytes or failure --complete--> ProxyResponse     (or TransportError)
//! ```
//!
//! Each step takes everything it needs as arguments and keeps nothing, so
//! exchanges that run side by side cannot disturb one another.

use crate::message::{
    lines_of, outcome, text_of, ErrorView, Lines, ProxyError, ProxyRequest, ProxyResponse,
    RequestView, ResponseView,
};
use crate::method::{parse_method, recognized, HttpMethod};
use crate::text::{body_text, decode_body, header_value_text, value_text};
use vstd::prelude::*;

verus! {

/// Header lines as they arrive: names as text, values as bytes.
pub type RawLines = Seq<(Seq<char>, Seq<u8>)>;

/// The raw header lines that `headers` holds.
pub open spec fn raw_lines_of(headers: Seq<(String, Vec<u8>)>) -> RawLines {
    headers.map_values(|line: (String, Vec<u8>)| (line.0@, line.1@))
}

/// A request that passed the method check, laid out for the client.
#[derive(Clone, Debug, PartialEq, Eq)]
pub struct OutboundRequest {
    pub method: HttpMethod,
    pub url: String,
    /// One entry per header line to append, in this order. The client must
    /// append each one, never replace an earlier line of the same name.
    pub headers: Vec<(String, String)>,
    /// The payload to attach, or `None` to attach none.
    pub body: Option<String>,
}

/// An [`OutboundRequest`] as mathematics.
pub struct OutboundView {
    pub method: HttpMethod,
    pub url: Seq<char>,
    pub headers: Lines,
    pub body: Option<Seq<char>>,
}

impl View for OutboundRequest {
    type V = OutboundView;

    open spec fn view(&self) -> OutboundView {
        OutboundView {
            method: self.method,
            url: self.url@,
            headers: lines_of(self.headers@),
            body: text_of(self.body),
        }
    }
}

/// The head of a response as the client reports it, before any conversion.
#[derive(Clone, Debug, PartialEq, Eq)]
pub struct RawHead {
    pub status: u16,
    /// One entry per header line, in the order of arrival.
    pub headers: Vec<(String, Vec<u8>)>,
}

/// A [`RawHead`] as mathematics.
pub struct RawHeadView {
    pub status: u16,
    pub headers: RawLines,
}

impl View for RawHead {
    type V = RawHeadView;

    open spec fn view(&self) -> RawHeadView {
        RawHeadView { status: self.status, headers: raw_lines_of(self.headers@) }
    }
}

/// The head of a response as the caller will see it. Not yet a response:
/// the body has still to be read.
#[derive(Clone, Debug, PartialEq, Eq)]
pub struct ResponseHead {
    pub status: u16,
    pub headers: Vec<(String, String)>,
}

/// A [`ResponseHead`] as mathematics.
pub struct HeadView {
    pub status: u16,
    pub headers: Lines,
}

impl View for ResponseHead {
    type V = HeadView;

    open spec fn view(&self) -> HeadView {
        HeadView { status: self.status, headers: lines_of(self.headers@) }
    }
}

/// What came of sending, as mathematics.
pub open spec fn sent_view(sent: Result<RawHead, String>) -> Result<RawHeadView, Seq<char>> {
    match sent {
        Ok(head) => Ok(head@),
        Err(complaint) => Err(complaint@),
    }
}

/// What came of reading the body, as mathematics.
pub open spec fn drained_view(drained: Result<Vec<u8>, String>) -> Result<Seq<u8>, Seq<char>> {
    match drained {
        Ok(bytes) => Ok(bytes@),
        Err(complaint) => Err(complaint@),
    }
}

/// What [`prepare`] makes of a request.
pub open spec fn prepared(request: RequestView) -> Result<OutboundView, ErrorView> {
    match recognized(request.method) {
        Some(method) => Ok(
            OutboundView { method, url: request.url, headers: request.headers, body: request.body },
        ),
        None => Err(ErrorView::InvalidMethod),
    }
}

/// Header lines with each value turned into text.
pub open spec fn header_texts(raw: RawLines) -> Lines {
    raw.map_values(|line: (Seq<char>, Seq<u8>)| (line.0, value_text(line.1)))
}

/// What [`receive`] makes of the client's report.
pub open spec fn received(sent: Result<RawHeadView, Seq<char>>) -> Result<HeadView, ErrorView> {
    match sent {
        Ok(raw) => Ok(HeadView { status: raw.status, headers: header_texts(raw.headers) }),
        Err(complaint) => Err(ErrorView::TransportError(complaint)),
    }
}

/// What [`complete`] makes of a head and the client's report on the body.
pub open spec fn completed(head: HeadView, drained: Result<Seq<u8>, Seq<char>>) -> Result<
    ResponseView,
    ErrorView,
> {
    match drained {
        Ok(bytes) => Ok(
            ResponseView { status: head.status, headers: head.headers, body: body_text(bytes) },
        ),
        Err(complaint) => Err(ErrorView::TransportError(complaint)),
    }
}

/// The result of a whole exchange: of `request`, where the client would
/// report `sent` for the request and `drained` for the body.
///
/// A report is looked at only if the exchange gets that far.
pub open spec fn forwarded(
    request: RequestView,
    sent: Result<RawHeadView, Seq<char>>,
    drained: Result<Seq<u8>, Seq<char>>,
) -> Result<ResponseView, ErrorView> {
    match prepared(request) {
        Err(error) => Err(error),
        Ok(_) => match received(sent) {
            Err(error) => Err(error),
            Ok(head) => completed(head, drained),
        },
    }
}

/// First step: checks the method and lays out the request for the client.
///
/// Fails with `InvalidMethod` exactly when the method token names no
/// method; then there is nothing to send. Otherwise the URL, the header
/// lines and the payload go out as they came in: every line, in order,
/// lines of one name as often as they were given.
pub fn prepare(request: ProxyRequest) -> (r: Result<OutboundRequest, ProxyError>)
    ensures
        outcome(r) == prepared(request@),
        r is Ok <==> recognized(request.method@) is Some,
        r is Err ==> r == Err::<OutboundRequest, ProxyError>(ProxyError::InvalidMethod),
        r matches Ok(out) ==> {
            &&& Some(out.method) == recognized(request.method@)
            &&& out.url == request.url
            &&& out.headers == request.headers
            &&& out.body == request.body
        },
{
    match parse_method(request.method.as_str()) {
        Ok(method) => Ok(
            OutboundRequest {
                method,
                url: request.url,
                headers: request.headers,
                body: request.body,
            },
        ),
        Err(error) => Err(error),
    }
}

/// Turns the value of every header line into text. Names, order and number
/// of lines stay.
pub fn text_headers(raw: &Vec<(String, Vec<u8>)>) -> (r: Vec<(String, String)>)
    ensures
        lines_of(r@) == header_texts(raw_lines_of(raw@)),
        r@.len() == raw@.len(),
        forall|i: int|
            0 <= i < raw@.len() ==> (#[trigger] r@[i]).0@ == raw@[i].0@ && r@[i].1@ == value_text(
                raw@[i].1@,
            ),
{
    let mut lines: Vec<(String, String)> = Vec::new();
    let mut i: usize = 0;
    while i < raw.len()
        invariant
            i <= raw@.len(),
            lines@.len() == i,
            forall|k: int|
                0 <= k < i ==> (#[trigger] lines@[k]).0@ == raw@[k].0@ && lines@[k].1@
                    == value_text(raw@[k].1@),
        decreases raw@.len() - i,
    {
        let name = raw[i].0.clone();
        let value = header_value_text(raw[i].1.as_slice());
        lines.push((name, value));
        i += 1;
    }
    proof {
        assert(lines_of(lines@) =~= header_texts(raw_lines_of(raw@)));
    }
    lines
}

/// Second step: takes what came of sending.
///
/// A failure to send ends the exchange with `TransportError` and the
/// client's words. A response head goes on, whatever its status: the status
/// is kept, and every header line is kept with its value as text.
pub fn receive(sent: Result<RawHead, String>) -> (r: Result<ResponseHead, ProxyError>)
    ensures
        outcome(r) == received(sent_view(sent)),
        r is Ok <==> sent is Ok,
        sent matches Err(complaint) ==> r == Err::<ResponseHead, ProxyError>(
            ProxyError::TransportError(complaint),
        ),
{
    match sent {
        Ok(raw) => {
            let headers = text_headers(&raw.headers);
            Ok(ResponseHead { status: raw.status, headers })
        },
        Err(complaint) => Err(ProxyError::TransportError(complaint)),
    }
}

impl ResponseHead {
    /// The response that this head makes with `body`.
    pub fn with_body(self, body: Option<String>) -> (r: ProxyResponse)
        ensures
            r == (ProxyResponse { status: self.status, headers: self.headers, body }),
    {
        ProxyResponse::new(self.status, self.headers, body)
    }
}

/// Third step: takes what came of reading the body, and ends the exchange.
///
/// A failure to read ends it with `TransportError` and the client's words;
/// the head is dropped, so no half response gets out. Otherwise the head
/// becomes the response, with the payload as text, or without one if no
/// byte arrived.
pub fn complete(head: ResponseHead, drained: Result<Vec<u8>, String>) -> (r: Result<
    ProxyResponse,
    ProxyError,
>)
    ensures
        outcome(r) == completed(head@, drained_view(drained)),
        r is Ok <==> drained is Ok,
        drained matches Err(complaint) ==> r == Err::<ProxyResponse, ProxyError>(
            ProxyError::TransportError(complaint),
        ),
        r matches Ok(response) ==> {
            &&& response.status == head.status
            &&& response.headers == head.headers
            &&& (response.body is None <==> drained.unwrap()@.len() == 0)
        },
{
    match drained {
        Ok(bytes) => {
            let body = decode_body(bytes.as_slice());
            Ok(head.with_body(body))
        },
        Err(complaint) => Err(ProxyError::TransportError(complaint)),
    }
}

} // verus!

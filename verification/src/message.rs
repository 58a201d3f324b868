//! The data that crosses the bridge, and what each piece stands for.

use vstd::prelude::*;

verus! {

/// Header lines as text: one `(name, value)` pair per line, in order.
pub type Lines = Seq<(Seq<char>, Seq<char>)>;

/// The header lines that `headers` holds.
pub open spec fn lines_of(headers: Seq<(String, String)>) -> Lines {
    headers.map_values(|line: (String, String)| (line.0@, line.1@))
}

/// The text that `body` holds, if it holds any.
pub open spec fn text_of(body: Option<String>) -> Option<Seq<char>> {
    match body {
        Some(text) => Some(text@),
        None => None,
    }
}

/// What the caller asks the bridge to send.
#[derive(Clone, Debug, PartialEq, Eq)]
pub struct ProxyRequest {
    /// The method token, not yet checked.
    pub method: String,
    /// Where to send. Handed to the client as it is.
    pub url: String,
    /// Header lines in the order to apply them. A name may occur more than once.
    pub headers: Vec<(String, String)>,
    /// The payload. `None` sends no body at all, which is not an empty body.
    pub body: Option<String>,
}

/// A [`ProxyRequest`] as mathematics.
pub struct RequestView {
    pub method: Seq<char>,
    pub url: Seq<char>,
    pub headers: Lines,
    pub body: Option<Seq<char>>,
}

impl View for ProxyRequest {
    type V = RequestView;

    open spec fn view(&self) -> RequestView {
        RequestView {
            method: self.method@,
            url: self.url@,
            headers: lines_of(self.headers@),
            body: text_of(self.body),
        }
    }
}

/// What the bridge hands back for a request that was answered.
#[derive(Clone, Debug, PartialEq, Eq)]
pub struct ProxyResponse {
    /// The status code of the answer, whatever it is: 404 is an answer too.
    pub status: u16,
    /// Header lines as they arrived, one per occurrence.
    pub headers: Vec<(String, String)>,
    /// The payload as text, or `None` if no byte arrived.
    pub body: Option<String>,
}

/// A [`ProxyResponse`] as mathematics.
pub struct ResponseView {
    pub status: u16,
    pub headers: Lines,
    pub body: Option<Seq<char>>,
}

impl View for ProxyResponse {
    type V = ResponseView;

    open spec fn view(&self) -> ResponseView {
        ResponseView {
            status: self.status,
            headers: lines_of(self.headers@),
            body: text_of(self.body),
        }
    }
}

impl ProxyResponse {
    /// Puts a response together from its three parts.
    pub fn new(status: u16, headers: Vec<(String, String)>, body: Option<String>) -> (r: ProxyResponse)
        ensures
            r == (ProxyResponse { status, headers, body }),
    {
        ProxyResponse { status, headers, body }
    }
}

/// Why an exchange gave no response.
#[derive(Clone, Debug, PartialEq, Eq)]
pub enum ProxyError {
    /// The method token names no method. Nothing was sent.
    InvalidMethod,
    /// The request was handed to the client and no complete response came
    /// back. Holds the client's own words.
    TransportError(String),
}

/// A [`ProxyError`] as mathematics.
pub enum ErrorView {
    InvalidMethod,
    TransportError(Seq<char>),
}

impl View for ProxyError {
    type V = ErrorView;

    open spec fn view(&self) -> ErrorView {
        match self {
            ProxyError::InvalidMethod => ErrorView::InvalidMethod,
            ProxyError::TransportError(text) => ErrorView::TransportError(text@),
        }
    }
}

impl ErrorView {
    /// The text shown to the caller.
    pub open spec fn message(self) -> Seq<char> {
        match self {
            ErrorView::InvalidMethod => "Invalid HTTP method"@,
            ErrorView::TransportError(text) => text,
        }
    }
}

impl ProxyError {
    /// The text shown to the caller: a fixed sentence for a bad method, the
    /// client's own words for a transport failure.
    pub fn message(&self) -> (r: String)
        ensures
            r@ == self@.message(),
    {
        match self {
            ProxyError::InvalidMethod => "Invalid HTTP method".to_owned(),
            ProxyError::TransportError(text) => text.clone(),
        }
    }
}

/// The outcome of a step, as mathematics.
pub open spec fn outcome<T: View>(r: Result<T, ProxyError>) -> Result<T::V, ErrorView> {
    match r {
        Ok(value) => Ok(value@),
        Err(error) => Err(error@),
    }
}

} // verus!

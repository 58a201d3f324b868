//! Request methods: the closed set that the bridge forwards.

use crate::message::ProxyError;
use reqwest::Method;
use vstd::prelude::*;

verus! {

/// The request methods that HTTP knows by name. Nothing else is forwarded.
#[derive(Clone, Copy, Debug, PartialEq, Eq, Hash)]
pub enum HttpMethod {
    Options,
    Get,
    Post,
    Put,
    Delete,
    Head,
    Trace,
    Connect,
    Patch,
    Query,
}

impl HttpMethod {
    /// The token that stands for the method in a request line.
    pub open spec fn name(self) -> Seq<char> {
        match self {
            HttpMethod::Options => "OPTIONS"@,
            HttpMethod::Get => "GET"@,
            HttpMethod::Post => "POST"@,
            HttpMethod::Put => "PUT"@,
            HttpMethod::Delete => "DELETE"@,
            HttpMethod::Head => "HEAD"@,
            HttpMethod::Trace => "TRACE"@,
            HttpMethod::Connect => "CONNECT"@,
            HttpMethod::Patch => "PATCH"@,
            HttpMethod::Query => "QUERY"@,
        }
    }

    /// The method's token.
    pub fn as_str(&self) -> (r: &'static str)
        ensures
            r@ == self.name(),
    {
        match self {
            HttpMethod::Options => "OPTIONS",
            HttpMethod::Get => "GET",
            HttpMethod::Post => "POST",
            HttpMethod::Put => "PUT",
            HttpMethod::Delete => "DELETE",
            HttpMethod::Head => "HEAD",
            HttpMethod::Trace => "TRACE",
            HttpMethod::Connect => "CONNECT",
            HttpMethod::Patch => "PATCH",
            HttpMethod::Query => "QUERY",
        }
    }
}

/// The method that `token` names, if it names one. Tokens are compared as
/// they stand: `get` names nothing.
pub open spec fn recognized(token: Seq<char>) -> Option<HttpMethod> {
    if token == "OPTIONS"@ {
        Some(HttpMethod::Options)
    } else if token == "GET"@ {
        Some(HttpMethod::Get)
    } else if token == "POST"@ {
        Some(HttpMethod::Post)
    } else if token == "PUT"@ {
        Some(HttpMethod::Put)
    } else if token == "DELETE"@ {
        Some(HttpMethod::Delete)
    } else if token == "HEAD"@ {
        Some(HttpMethod::Head)
    } else if token == "TRACE"@ {
        Some(HttpMethod::Trace)
    } else if token == "CONNECT"@ {
        Some(HttpMethod::Connect)
    } else if token == "PATCH"@ {
        Some(HttpMethod::Patch)
    } else if token == "QUERY"@ {
        Some(HttpMethod::Query)
    } else {
        None
    }
}

/// A token names a method exactly when it is that method's name: no two
/// methods share a name, and [`recognized`] misses none.
pub proof fn lemma_recognized_is_name(token: Seq<char>, method: HttpMethod)
    ensures
        recognized(token) == Some(method) <==> token == method.name(),
{
    reveal_strlit("OPTIONS");
    reveal_strlit("GET");
    reveal_strlit("POST");
    reveal_strlit("PUT");
    reveal_strlit("DELETE");
    reveal_strlit("HEAD");
    reveal_strlit("TRACE");
    reveal_strlit("CONNECT");
    reveal_strlit("PATCH");
    reveal_strlit("QUERY");
    assert("OPTIONS"@.len() == 7 && "CONNECT"@.len() == 7);
    assert("GET"@.len() == 3 && "PUT"@.len() == 3);
    assert("POST"@.len() == 4 && "HEAD"@.len() == 4);
    assert("DELETE"@.len() == 6);
    assert("TRACE"@.len() == 5 && "PATCH"@.len() == 5 && "QUERY"@.len() == 5);
    assert("GET"@[0] != "PUT"@[0]);
    assert("POST"@[0] != "HEAD"@[0]);
    assert("TRACE"@[0] != "PATCH"@[0]);
    assert("TRACE"@[0] != "QUERY"@[0]);
    assert("PATCH"@[0] != "QUERY"@[0]);
    assert("OPTIONS"@[0] != "CONNECT"@[0]);
}

/// Parses `token` with `reqwest::Method::from_bytes` and tells which of the
/// named methods came out.
///
/// The parser gives a named method for exactly that method's token, and an
/// extension method or an error for anything else; both of those are `None`
/// here. So the result is the method that the token names, if any.
#[verifier::external_body]
fn standard_method(token: &str) -> (r: Option<HttpMethod>)
    ensures
        r == recognized(token@),
{
    match Method::from_bytes(token.as_bytes()) {
        Ok(Method::OPTIONS) => Some(HttpMethod::Options),
        Ok(Method::GET) => Some(HttpMethod::Get),
        Ok(Method::POST) => Some(HttpMethod::Post),
        Ok(Method::PUT) => Some(HttpMethod::Put),
        Ok(Method::DELETE) => Some(HttpMethod::Delete),
        Ok(Method::HEAD) => Some(HttpMethod::Head),
        Ok(Method::TRACE) => Some(HttpMethod::Trace),
        Ok(Method::CONNECT) => Some(HttpMethod::Connect),
        Ok(Method::PATCH) => Some(HttpMethod::Patch),
        Ok(Method::QUERY) => Some(HttpMethod::Query),
        _ => None,
    }
}

/// Turns a method token into a method, or rejects it.
///
/// Only the named methods pass. A token that HTTP would admit as an
/// extension method is rejected like any other unknown token.
pub fn parse_method(token: &str) -> (r: Result<HttpMethod, ProxyError>)
    ensures
        match recognized(token@) {
            Some(m) => r == Ok::<HttpMethod, ProxyError>(m),
            None => r == Err::<HttpMethod, ProxyError>(ProxyError::InvalidMethod),
        },
        r is Ok <==> exists|m: HttpMethod| token@ == m.name(),
        r matches Ok(m) ==> m.name() == token@,
{
    proof {
        assert forall|m: HttpMethod| (recognized(token@) == Some(m)) == (token@ == #[trigger] m.name()) by {
            lemma_recognized_is_name(token@, m);
        }
        if recognized(token@) is Some {
            assert(token@ == recognized(token@).unwrap().name());
        }
    }
    match standard_method(token) {
        Some(m) => Ok(m),
        None => Err(ProxyError::InvalidMethod),
    }
}

} // verus!

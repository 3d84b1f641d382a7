//! What the front-end asks for, and what the bridge decides to send.

use vstd::prelude::*;
use vstd::string::*;

use crate::headers::Headers;
use crate::method::Verb;

verus! {

/// An optional text as an optional sequence of characters.
pub open spec fn optional_text(text: Option<String>) -> Option<Seq<char>> {
    match text {
        Some(text) => Some(text@),
        None => None,
    }
}

/// Optional headers as an optional mapping from name to value.
pub open spec fn optional_headers(headers: Option<Headers>) -> Option<Map<Seq<char>, Seq<char>>> {
    match headers {
        Some(headers) => Some(headers@),
        None => None,
    }
}

/// A request as the front-end describes it. The URL and the method are taken
/// as they come; headers and body may be absent.
#[derive(Clone, Debug, PartialEq, Eq)]
pub struct HttpRequest {
    url: String,
    method: String,
    headers: Option<Headers>,
    body: Option<String>,
}

/// An `HttpRequest` as mathematics: texts as sequences of characters, the
/// headers as a mapping from name to value.
pub struct HttpRequestView {
    pub url: Seq<char>,
    pub method: Seq<char>,
    pub headers: Option<Map<Seq<char>, Seq<char>>>,
    pub body: Option<Seq<char>>,
}

impl View for HttpRequest {
    type V = HttpRequestView;

    closed spec fn view(&self) -> HttpRequestView {
        HttpRequestView {
            url: self.url@,
            method: self.method@,
            headers: optional_headers(self.headers),
            body: optional_text(self.body),
        }
    }
}

/// The request description that four parts make up.
pub open spec fn request_of(
    url: Seq<char>,
    method: Seq<char>,
    headers: Option<Map<Seq<char>, Seq<char>>>,
    body: Option<Seq<char>>,
) -> HttpRequestView {
    HttpRequestView { url, method, headers, body }
}

impl HttpRequest {
    /// A request description of these four parts, none of them examined.
    pub fn new(
        url: String,
        method: String,
        headers: Option<Headers>,
        body: Option<String>,
    ) -> (request: HttpRequest)
        ensures
            request@ == request_of(url@, method@, optional_headers(headers), optional_text(body)),
    {
        HttpRequest { url, method, headers, body }
    }

    /// The target URL, as given.
    pub fn url(&self) -> (url: &String)
        ensures
            url@ == self@.url,
    {
        &self.url
    }

    /// The method string, as given.
    pub fn method(&self) -> (method: &String)
        ensures
            method@ == self@.method,
    {
        &self.method
    }

    /// The headers, if the request has any.
    pub fn headers(&self) -> (headers: Option<&Headers>)
        ensures
            headers is Some <==> self@.headers is Some,
            headers is Some ==> self@.headers == Some(headers.unwrap()@),
    {
        self.headers.as_ref()
    }

    /// The body, if the request has one.
    pub fn body(&self) -> (body: Option<&String>)
        ensures
            body is Some <==> self@.body is Some,
            body is Some ==> self@.body == Some(body.unwrap()@),
    {
        self.body.as_ref()
    }

    /// Gives up the request for its four parts: URL, method, headers, body.
    pub fn into_parts(self) -> (parts: (String, String, Option<Headers>, Option<String>))
        ensures
            parts.0@ == self@.url,
            parts.1@ == self@.method,
            optional_headers(parts.2) == self@.headers,
            optional_text(parts.3) == self@.body,
    {
        (self.url, self.method, self.headers, self.body)
    }
}

/// What is to be sent for a request that passed validation.
#[derive(Clone, Debug, PartialEq, Eq)]
pub struct OutgoingCall {
    verb: Verb,
    url: String,
    headers: Headers,
    body: Option<String>,
}

/// An `OutgoingCall` as mathematics.
pub struct OutgoingCallView {
    pub verb: Verb,
    pub url: Seq<char>,
    pub headers: Map<Seq<char>, Seq<char>>,
    pub body: Option<Seq<char>>,
}

impl OutgoingCallView {
    /// The bytes-as-text that the call carries: the body, or nothing.
    pub open spec fn payload(self) -> Seq<char> {
        match self.body {
            Some(body) => body,
            None => Seq::empty(),
        }
    }
}

impl View for OutgoingCall {
    type V = OutgoingCallView;

    closed spec fn view(&self) -> OutgoingCallView {
        OutgoingCallView {
            verb: self.verb,
            url: self.url@,
            headers: self.headers@,
            body: optional_text(self.body),
        }
    }
}

/// The call that four parts make up.
pub open spec fn call_of(
    verb: Verb,
    url: Seq<char>,
    headers: Map<Seq<char>, Seq<char>>,
    body: Option<Seq<char>>,
) -> OutgoingCallView {
    OutgoingCallView { verb, url, headers, body }
}

impl OutgoingCall {
    /// The call with this verb, target, headers and body.
    pub fn new(verb: Verb, url: String, headers: Headers, body: Option<String>) -> (call:
        OutgoingCall)
        ensures
            call@ == call_of(verb, url@, headers@, optional_text(body)),
    {
        OutgoingCall { verb, url, headers, body }
    }

    /// The verb to dispatch with.
    pub fn verb(&self) -> (verb: Verb)
        ensures
            verb == self@.verb,
    {
        self.verb
    }

    /// The target URL.
    pub fn url(&self) -> (url: &String)
        ensures
            url@ == self@.url,
    {
        &self.url
    }

    /// The headers to apply, each once.
    pub fn headers(&self) -> (headers: &Headers)
        ensures
            headers@ == self@.headers,
    {
        &self.headers
    }

    /// The body to attach, if there is one.
    pub fn body(&self) -> (body: Option<&String>)
        ensures
            body is Some <==> self@.body is Some,
            body is Some ==> self@.body == Some(body.unwrap()@),
    {
        self.body.as_ref()
    }

    /// Gives up the call for its four parts: verb, URL, headers, body.
    pub fn into_parts(self) -> (parts: (Verb, String, Headers, Option<String>))
        ensures
            parts.0 == self@.verb,
            parts.1@ == self@.url,
            parts.2@ == self@.headers,
            optional_text(parts.3) == self@.body,
    {
        (self.verb, self.url, self.headers, self.body)
    }

    /// The text that goes out as the payload: the body where there is one,
    /// the empty text where there is none.
    pub fn payload(&self) -> (payload: &str)
        ensures
            payload@ == self@.payload(),
    {
        match &self.body {
            Some(body) => body.as_str(),
            None => {
                proof {
                    reveal_strlit("");
                    assert(""@ =~= Seq::<char>::empty());
                }
                ""
            },
        }
    }
}

} // verus!

//! What the bridge hands back when an exchange succeeds.

use vstd::prelude::*;

verus! {

/// A status code counts as success when it lies in 200..=299.
pub open spec fn is_success(status: u16) -> bool {
    200 <= status <= 299
}

/// Whether `status` lies in the success range.
pub fn status_is_success(status: u16) -> (ok: bool)
    ensures
        ok == is_success(status),
{
    200 <= status && status <= 299
}

/// The response to one request: status code, success flag and body text.
/// The flag is never at odds with the status.
#[derive(Debug, PartialEq, Eq)]
pub struct HttpResponse {
    status: u16,
    ok: bool,
    body: String,
}

/// An `HttpResponse` with its body as a sequence of characters.
pub struct HttpResponseView {
    pub status: u16,
    pub ok: bool,
    pub body: Seq<char>,
}

/// The response that a status and a body text make up.
pub open spec fn response_of(status: u16, body: Seq<char>) -> HttpResponseView {
    HttpResponseView { status, ok: is_success(status), body }
}

impl View for HttpResponse {
    type V = HttpResponseView;

    closed spec fn view(&self) -> HttpResponseView {
        HttpResponseView { status: self.status, ok: self.ok, body: self.body@ }
    }
}

impl Clone for HttpResponse {
    fn clone(&self) -> (copy: HttpResponse)
        ensures
            copy@ == self@,
    {
        proof {
            use_type_invariant(self);
        }
        HttpResponse { status: self.status, ok: self.ok, body: self.body.clone() }
    }
}

impl HttpResponse {
    #[verifier::type_invariant]
    spec fn flag_follows_status(&self) -> bool {
        self.ok == is_success(self.status)
    }

    /// The response with this status and body; the flag is derived.
    pub fn new(status: u16, body: String) -> (response: HttpResponse)
        ensures
            response@ == response_of(status, body@),
    {
        HttpResponse { status, ok: status_is_success(status), body }
    }

    /// The status code.
    pub fn status(&self) -> (status: u16)
        ensures
            status == self@.status,
    {
        self.status
    }

    /// True exactly when the status lies in 200..=299.
    pub fn ok(&self) -> (ok: bool)
        ensures
            ok == self@.ok,
            ok == is_success(self@.status),
    {
        proof {
            use_type_invariant(self);
        }
        self.ok
    }

    /// The body text, whole.
    pub fn body(&self) -> (body: &String)
        ensures
            body@ == self@.body,
    {
        &self.body
    }

    /// Gives up the response for its three parts: status, flag, body.
    pub fn into_parts(self) -> (parts: (u16, bool, String))
        ensures
            parts.0 == self@.status,
            parts.1 == self@.ok,
            parts.1 == is_success(parts.0),
            parts.2@ == self@.body,
    {
        proof {
            use_type_invariant(&self);
        }
        (self.status, self.ok, self.body)
    }
}

} // verus!

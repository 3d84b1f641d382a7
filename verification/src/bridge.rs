//! The bridge itself: validation before anything is sent, and the reading of
//! what the transport reports afterwards.

use vstd::prelude::*;

use crate::error::{detail_text, message_text, BridgeError, BridgeErrorView};
use crate::headers::{
    header_map, lemma_header_map_names, lemma_header_map_values,
    lemma_header_order_is_irrelevant, names_distinct, Headers,
};
use crate::method::{resolved_verb, uppercased, Verb};
use crate::request::{
    call_of, request_of, HttpRequest, HttpRequestView, OutgoingCall, OutgoingCallView,
};
use crate::response::{response_of, HttpResponse, HttpResponseView};

verus! {

/// How the transport fared with one call.
#[derive(Clone, Debug, PartialEq, Eq)]
pub enum TransportOutcome {
    /// No response was obtained; `cause` is the transport's account.
    DispatchFailed { cause: String },
    /// A response arrived, but reading its body failed.
    BodyUnreadable { cause: String },
    /// A response arrived and its body was read to the end.
    Completed { status: u16, body: String },
}

/// A `TransportOutcome` with its texts as sequences of characters.
pub enum TransportOutcomeView {
    DispatchFailed { cause: Seq<char> },
    BodyUnreadable { cause: Seq<char> },
    Completed { status: u16, body: Seq<char> },
}

impl View for TransportOutcome {
    type V = TransportOutcomeView;

    open spec fn view(&self) -> TransportOutcomeView {
        match self {
            TransportOutcome::DispatchFailed { cause } => TransportOutcomeView::DispatchFailed {
                cause: cause@,
            },
            TransportOutcome::BodyUnreadable { cause } => TransportOutcomeView::BodyUnreadable {
                cause: cause@,
            },
            TransportOutcome::Completed { status, body } => TransportOutcomeView::Completed {
                status: *status,
                body: body@,
            },
        }
    }
}

/// The error for a method string that names no verb.
pub open spec fn refusal_of(method: Seq<char>) -> BridgeErrorView {
    BridgeErrorView::UnsupportedMethod { method }
}

/// The headers that go out: those of the request, or none.
pub open spec fn headers_or_none(headers: Option<Map<Seq<char>, Seq<char>>>) -> Map<
    Seq<char>,
    Seq<char>,
> {
    match headers {
        Some(headers) => headers,
        None => Map::empty(),
    }
}

/// What is sent for a request: nothing, where its method names no verb;
/// otherwise one call with the resolved verb, the URL untouched, every header
/// of the request and no other, and the body as given.
pub open spec fn planned_call(request: HttpRequestView) -> Result<
    OutgoingCallView,
    BridgeErrorView,
> {
    match resolved_verb(request.method) {
        Some(verb) => Ok(
            call_of(verb, request.url, headers_or_none(request.headers), request.body),
        ),
        None => Err(refusal_of(request.method)),
    }
}

/// What the caller gets for an outcome of the transport: the response with
/// its flag, or the error that tells a failed dispatch from an unreadable
/// body.
pub open spec fn concluded(outcome: TransportOutcomeView) -> Result<
    HttpResponseView,
    BridgeErrorView,
> {
    match outcome {
        TransportOutcomeView::DispatchFailed { cause } => Err(
            BridgeErrorView::DispatchFailure { cause },
        ),
        TransportOutcomeView::BodyUnreadable { cause } => Err(
            BridgeErrorView::BodyReadFailure { cause },
        ),
        TransportOutcomeView::Completed { status, body } => Ok(response_of(status, body)),
    }
}

/// A planning result, seen through the views of its two sides.
pub open spec fn plan_view(plan: Result<OutgoingCall, BridgeError>) -> Result<
    OutgoingCallView,
    BridgeErrorView,
> {
    match plan {
        Ok(call) => Ok(call@),
        Err(error) => Err(error@),
    }
}

/// A final result, seen through the views of its two sides.
pub open spec fn result_view(result: Result<HttpResponse, BridgeError>) -> Result<
    HttpResponseView,
    BridgeErrorView,
> {
    match result {
        Ok(response) => Ok(response@),
        Err(error) => Err(error@),
    }
}

/// Whether `result` can come of `request` over a transport that may answer
/// the call `c` with the outcome `o` wherever `answers(c, o)` holds.
pub open spec fn exchange_admits(
    request: HttpRequestView,
    answers: spec_fn(OutgoingCallView, TransportOutcomeView) -> bool,
    result: Result<HttpResponseView, BridgeErrorView>,
) -> bool {
    match planned_call(request) {
        Ok(call) => exists|outcome: TransportOutcomeView| #[trigger]
            answers(call, outcome) && result == concluded(outcome),
        Err(refusal) => result == Err::<HttpResponseView, BridgeErrorView>(refusal),
    }
}

/// What an executable transport may answer, over views.
pub open spec fn answers_of<T: FnOnce(OutgoingCall) -> TransportOutcome>(
    transport: T,
) -> spec_fn(OutgoingCallView, TransportOutcomeView) -> bool {
    |c: OutgoingCallView, o: TransportOutcomeView|
        exists|call: OutgoingCall, outcome: TransportOutcome|
            call@ == c && outcome@ == o && #[trigger] call_ensures(transport, (call,), outcome)
}

/// Validates a request and says what to send. The method is resolved before
/// anything else happens; a request whose method names no verb yields no call.
pub fn prepare(request: HttpRequest) -> (plan: Result<OutgoingCall, BridgeError>)
    ensures
        plan_view(plan) == planned_call(request@),
{
    let (url, method, headers, body) = request.into_parts();
    match Verb::parse(method.as_str()) {
        Some(verb) => {
            let headers = match headers {
                Some(headers) => headers,
                None => Headers::new(),
            };
            Ok(OutgoingCall::new(verb, url, headers, body))
        },
        None => Err(BridgeError::UnsupportedMethod { method }),
    }
}

/// Turns the transport's outcome into the caller's result: a response with
/// its success flag, or the error that tells a failed dispatch from an
/// unreadable body.
pub fn conclude(outcome: TransportOutcome) -> (result: Result<HttpResponse, BridgeError>)
    ensures
        result_view(result) == concluded(outcome@),
{
    match outcome {
        TransportOutcome::DispatchFailed { cause } => Err(BridgeError::DispatchFailure { cause }),
        TransportOutcome::BodyUnreadable { cause } => Err(BridgeError::BodyReadFailure { cause }),
        TransportOutcome::Completed { status, body } => Ok(HttpResponse::new(status, body)),
    }
}

/// One whole exchange over a transport given as a function. The transport is
/// called once with the planned call, or not at all where the method is
/// unsupported.
pub fn execute<T: FnOnce(OutgoingCall) -> TransportOutcome>(
    request: HttpRequest,
    transport: T,
) -> (result: Result<HttpResponse, BridgeError>)
    requires
        forall|call: OutgoingCall| call_requires(transport, (call,)),
    ensures
        exchange_admits(request@, answers_of(transport), result_view(result)),
{
    match prepare(request) {
        Ok(call) => {
            let ghost sent = call;
            let outcome = transport(call);
            proof {
                assert(call_ensures(transport, (sent,), outcome));
                assert(answers_of(transport)(sent@, outcome@));
            }
            conclude(outcome)
        },
        Err(refusal) => Err(refusal),
    }
}

/// The case in which the method is written does not change what is sent: two
/// requests that differ in their method strings only, and whose method
/// strings have one upper-case form, are either both refused or sent as the
/// same call.
pub proof fn lemma_case_does_not_change_the_call(first: HttpRequestView, second: HttpRequestView)
    requires
        first.url == second.url,
        first.headers == second.headers,
        first.body == second.body,
    ensures
        uppercased(first.method) == uppercased(second.method) ==> (planned_call(first) is Ok
            <==> planned_call(second) is Ok),
        uppercased(first.method) == uppercased(second.method) && planned_call(first) is Ok
            ==> planned_call(first) == planned_call(second),
{
}

/// A method that names no verb is refused before anything is sent: no call is
/// planned, and whatever transport stands ready, the one result is the error
/// that bears the method as it was given, reported in a message that ends
/// with it. A method that names a verb is never refused.
pub proof fn lemma_unsupported_method_sends_nothing(
    request: HttpRequestView,
    answers: spec_fn(OutgoingCallView, TransportOutcomeView) -> bool,
    result: Result<HttpResponseView, BridgeErrorView>,
)
    ensures
        resolved_verb(request.method) is Some <==> planned_call(request) is Ok,
        resolved_verb(request.method) is None ==> planned_call(request) == Err::<
            OutgoingCallView,
            BridgeErrorView,
        >(refusal_of(request.method)),
        resolved_verb(request.method) is None ==> (exchange_admits(request, answers, result)
            <==> result == Err::<HttpResponseView, BridgeErrorView>(refusal_of(request.method))),
        message_text(refusal_of(request.method)) == "Unsupported HTTP method: "@ + request.method,
{
}

/// The call carries the request's headers, each once and no other, however
/// they were listed: for a request whose headers are those of `listed`, a
/// list without repeated names, the call gives every listed name its listed
/// value and knows no further name; and the same request with its headers
/// listed in another order is sent as the same call.
pub proof fn lemma_call_carries_every_header(
    request: HttpRequestView,
    call: OutgoingCallView,
    listed: Seq<(Seq<char>, Seq<char>)>,
    reordered: Seq<(Seq<char>, Seq<char>)>,
)
    requires
        planned_call(request) == Ok::<OutgoingCallView, BridgeErrorView>(call),
        request.headers == Some(header_map(listed)),
        names_distinct(listed),
        names_distinct(reordered),
        forall|entry: (Seq<char>, Seq<char>)| listed.contains(entry) <==> reordered.contains(entry),
    ensures
        forall|i: int|
            0 <= i < listed.len() ==> call.headers.contains_key(#[trigger] listed[i].0)
                && call.headers[listed[i].0] == listed[i].1,
        forall|name: Seq<char>| #[trigger]
            call.headers.contains_key(name) ==> exists|i: int|
                0 <= i < listed.len() && #[trigger] listed[i].0 == name,
        planned_call(
            request_of(request.url, request.method, Some(header_map(reordered)), request.body),
        ) == planned_call(request),
{
    lemma_header_map_names(listed);
    lemma_header_map_values(listed);
    lemma_header_order_is_irrelevant(listed, reordered);
}

/// The URL and the body go out untouched: the payload is the body, and where
/// the request has no body the payload is empty, whatever the verb. A request
/// without headers is sent without headers.
pub proof fn lemma_payload_is_the_body(request: HttpRequestView, call: OutgoingCallView)
    requires
        planned_call(request) == Ok::<OutgoingCallView, BridgeErrorView>(call),
    ensures
        call.url == request.url,
        call.body == request.body,
        request.body is Some ==> call.payload() == request.body->0,
        request.body is None ==> call.payload() == Seq::<char>::empty(),
        request.headers is None ==> call.headers == Map::<Seq<char>, Seq<char>>::empty(),
{
}

/// An outcome is answered with exactly one response or exactly one error:
/// a response where the exchange was completed, with the status and body as
/// reported and the flag set exactly for a status in 200..=299; otherwise the
/// error of the step that failed, with the transport's own account.
pub proof fn lemma_one_response_or_one_error(outcome: TransportOutcomeView)
    ensures
        concluded(outcome) is Ok <==> outcome is Completed,
        outcome is Completed ==> concluded(outcome)->Ok_0.status == outcome->status,
        outcome is Completed ==> concluded(outcome)->Ok_0.body == outcome->body,
        outcome is Completed ==> (concluded(outcome)->Ok_0.ok <==> 200 <= outcome->status <= 299),
        outcome is DispatchFailed ==> concluded(outcome)->Err_0 is DispatchFailure,
        outcome is DispatchFailed ==> detail_text(concluded(outcome)->Err_0)
            == outcome->DispatchFailed_cause,
        outcome is BodyUnreadable ==> concluded(outcome)->Err_0 is BodyReadFailure,
        outcome is BodyUnreadable ==> detail_text(concluded(outcome)->Err_0)
            == outcome->BodyUnreadable_cause,
{
}

/// Repeating an exchange repeats its result: over a transport that answers
/// each call in one way only, the same request cannot come to two different
/// results.
pub proof fn lemma_exchange_is_repeatable(
    request: HttpRequestView,
    answers: spec_fn(OutgoingCallView, TransportOutcomeView) -> bool,
    first: Result<HttpResponseView, BridgeErrorView>,
    second: Result<HttpResponseView, BridgeErrorView>,
)
    requires
        forall|call: OutgoingCallView, a: TransportOutcomeView, b: TransportOutcomeView|
            #[trigger] answers(call, a) && #[trigger] answers(call, b) ==> a == b,
        exchange_admits(request, answers, first),
        exchange_admits(request, answers, second),
    ensures
        first == second,
{
}

} // verus!

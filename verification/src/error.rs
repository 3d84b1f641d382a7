//! The three ways an exchange can fail, and the text each is reported with.

use vstd::prelude::*;
use vstd::string::*;

verus! {

/// Why the bridge returned no response.
#[derive(Clone, Debug, PartialEq, Eq)]
pub enum BridgeError {
    /// The method string names none of the six verbs. Nothing was sent.
    UnsupportedMethod { method: String },
    /// The transport could not complete the exchange.
    DispatchFailure { cause: String },
    /// A response arrived, but its body could not be read to the end.
    BodyReadFailure { cause: String },
}

/// A `BridgeError` with its texts as sequences of characters.
pub enum BridgeErrorView {
    UnsupportedMethod { method: Seq<char> },
    DispatchFailure { cause: Seq<char> },
    BodyReadFailure { cause: Seq<char> },
}

impl View for BridgeError {
    type V = BridgeErrorView;

    open spec fn view(&self) -> BridgeErrorView {
        match self {
            BridgeError::UnsupportedMethod { method } => BridgeErrorView::UnsupportedMethod {
                method: method@,
            },
            BridgeError::DispatchFailure { cause } => BridgeErrorView::DispatchFailure {
                cause: cause@,
            },
            BridgeError::BodyReadFailure { cause } => BridgeErrorView::BodyReadFailure {
                cause: cause@,
            },
        }
    }
}

/// The text that an error carries: the rejected method as it was given, or
/// the transport's own account of what went wrong.
pub open spec fn detail_text(error: BridgeErrorView) -> Seq<char> {
    match error {
        BridgeErrorView::UnsupportedMethod { method } => method,
        BridgeErrorView::DispatchFailure { cause } => cause,
        BridgeErrorView::BodyReadFailure { cause } => cause,
    }
}

/// The fixed words that a message opens with; they tell the kind of error.
pub open spec fn opening_text(error: BridgeErrorView) -> Seq<char> {
    match error {
        BridgeErrorView::UnsupportedMethod { .. } => "Unsupported HTTP method: "@,
        BridgeErrorView::DispatchFailure { .. } => "Request failed: "@,
        BridgeErrorView::BodyReadFailure { .. } => "Failed to read response body: "@,
    }
}

/// The text an error is reported with: the opening of its kind, then its
/// detail, unchanged.
pub open spec fn message_text(error: BridgeErrorView) -> Seq<char> {
    opening_text(error) + detail_text(error)
}

impl BridgeError {
    /// The error as the text that is handed to the caller.
    pub fn message(&self) -> (text: String)
        ensures
            text@ == message_text(self@),
    {
        match self {
            BridgeError::UnsupportedMethod { method } => {
                let mut text = String::from_str("Unsupported HTTP method: ");
                text.append(method.as_str());
                text
            },
            BridgeError::DispatchFailure { cause } => {
                let mut text = String::from_str("Request failed: ");
                text.append(cause.as_str());
                text
            },
            BridgeError::BodyReadFailure { cause } => {
                let mut text = String::from_str("Failed to read response body: ");
                text.append(cause.as_str());
                text
            },
        }
    }
}

/// Two texts that open alike and are equal as wholes end alike.
proof fn lemma_same_opening_same_rest(opening: Seq<char>, first: Seq<char>, second: Seq<char>)
    requires
        opening + first == opening + second,
    ensures
        first == second,
{
    let n: int = opening.len() as int;
    assert((opening + first).subrange(n, n + first.len()) =~= first);
    assert((opening + second).subrange(n, n + second.len()) =~= second);
    assert((opening + first).len() == n + first.len());
    assert((opening + second).len() == n + second.len());
}

/// The first character of a message tells the kind of the error.
proof fn lemma_message_opens_by_kind(error: BridgeErrorView)
    ensures
        message_text(error).len() > 0,
        error is UnsupportedMethod ==> message_text(error)[0] == 'U',
        error is DispatchFailure ==> message_text(error)[0] == 'R',
        error is BodyReadFailure ==> message_text(error)[0] == 'F',
{
    reveal_strlit("Unsupported HTTP method: ");
    reveal_strlit("Request failed: ");
    reveal_strlit("Failed to read response body: ");
    assert(opening_text(error).len() > 0);
    assert(message_text(error)[0] == opening_text(error)[0]);
}

/// The message alone tells which error occurred, and with what text: two
/// errors that are reported alike are the same error.
pub proof fn lemma_message_identifies_error(first: BridgeErrorView, second: BridgeErrorView)
    requires
        message_text(first) == message_text(second),
    ensures
        first == second,
{
    lemma_message_opens_by_kind(first);
    lemma_message_opens_by_kind(second);
    assert(opening_text(first) == opening_text(second));
    lemma_same_opening_same_rest(opening_text(first), detail_text(first), detail_text(second));
}

/// The message of every error ends with the error's own text, unchanged: the
/// method as it was given, or the cause as the transport worded it.
pub proof fn lemma_message_ends_with_detail(error: BridgeErrorView)
    ensures
        message_text(error).len() == opening_text(error).len() + detail_text(error).len(),
        message_text(error).subrange(
            opening_text(error).len() as int,
            message_text(error).len() as int,
        ) == detail_text(error),
{
    assert(message_text(error).subrange(
        opening_text(error).len() as int,
        message_text(error).len() as int,
    ) =~= detail_text(error));
}

} // verus!

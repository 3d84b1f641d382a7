//! The six protocol verbs and how a method string selects one.

use vstd::prelude::*;
use vstd::string::*;

verus! {

/// A protocol verb the bridge can dispatch.
#[derive(Clone, Copy, Debug, PartialEq, Eq, Structural)]
pub enum Verb {
    Get,
    Post,
    Put,
    Delete,
    Head,
    Patch,
}

/// The table of verbs: the verb whose canonical, upper-case name is `name`,
/// if there is one.
pub open spec fn verb_named(name: Seq<char>) -> Option<Verb> {
    if name == "GET"@ {
        Some(Verb::Get)
    } else if name == "POST"@ {
        Some(Verb::Post)
    } else if name == "PUT"@ {
        Some(Verb::Put)
    } else if name == "DELETE"@ {
        Some(Verb::Delete)
    } else if name == "HEAD"@ {
        Some(Verb::Head)
    } else if name == "PATCH"@ {
        Some(Verb::Patch)
    } else {
        None
    }
}

/// The upper-case form that `str::to_uppercase` gives for a text.
pub uninterp spec fn uppercased(text: Seq<char>) -> Seq<char>;

/// The verb that a method string selects: the one that the table holds under
/// the string's upper-case form.
pub open spec fn resolved_verb(method: Seq<char>) -> Option<Verb> {
    verb_named(uppercased(method))
}

/// Calls `str::to_uppercase`, which gives the upper-case form of a text by
/// the rules of Unicode. The contract gives that form its name and claims
/// nothing else of it: it is a function of the text alone.
#[verifier::external_body]
fn to_upper(text: &str) -> (upper: String)
    ensures
        upper@ == uppercased(text@),
{
    text.to_uppercase()
}

impl Verb {
    /// The verb's canonical name, in upper case.
    pub open spec fn canonical_name(self) -> Seq<char> {
        match self {
            Verb::Get => "GET"@,
            Verb::Post => "POST"@,
            Verb::Put => "PUT"@,
            Verb::Delete => "DELETE"@,
            Verb::Head => "HEAD"@,
            Verb::Patch => "PATCH"@,
        }
    }

    /// The verb's canonical name, in upper case.
    pub fn name(&self) -> (name: &'static str)
        ensures
            name@ == self.canonical_name(),
    {
        match self {
            Verb::Get => "GET",
            Verb::Post => "POST",
            Verb::Put => "PUT",
            Verb::Delete => "DELETE",
            Verb::Head => "HEAD",
            Verb::Patch => "PATCH",
        }
    }

    /// Looks a name up in the table of verbs. The match is exact: only the
    /// six canonical names are found.
    pub fn from_canonical(name: &str) -> (verb: Option<Verb>)
        ensures
            verb == verb_named(name@),
    {
        let given = String::from_str(name);
        if given == String::from_str("GET") {
            Some(Verb::Get)
        } else if given == String::from_str("POST") {
            Some(Verb::Post)
        } else if given == String::from_str("PUT") {
            Some(Verb::Put)
        } else if given == String::from_str("DELETE") {
            Some(Verb::Delete)
        } else if given == String::from_str("HEAD") {
            Some(Verb::Head)
        } else if given == String::from_str("PATCH") {
            Some(Verb::Patch)
        } else {
            None
        }
    }

    /// Resolves a method string, whatever its case: the string is brought to
    /// upper case and looked up in the table.
    pub fn parse(method: &str) -> (verb: Option<Verb>)
        ensures
            verb == resolved_verb(method@),
    {
        let upper = to_upper(method);
        Verb::from_canonical(upper.as_str())
    }
}

/// The table holds each verb under its canonical name and under no other.
pub proof fn lemma_table_holds_each_verb_once(verb: Verb, name: Seq<char>)
    ensures
        verb_named(verb.canonical_name()) == Some(verb),
        verb_named(name) == Some(verb) <==> name == verb.canonical_name(),
{
    reveal_strlit("GET");
    reveal_strlit("POST");
    reveal_strlit("PUT");
    reveal_strlit("DELETE");
    reveal_strlit("HEAD");
    reveal_strlit("PATCH");
    assert("GET"@.len() == 3 && "PUT"@.len() == 3 && "GET"@[0] != "PUT"@[0]);
    assert("POST"@.len() == 4 && "HEAD"@.len() == 4 && "POST"@[0] != "HEAD"@[0]);
    assert("DELETE"@.len() == 6 && "PATCH"@.len() == 5);
}

/// The selected verb does not depend on the case in which the method is
/// written: two method strings with one upper-case form select the same
/// verb, or both none; and a string whose upper-case form is a verb's
/// canonical name selects that verb.
pub proof fn lemma_resolution_ignores_case(first: Seq<char>, second: Seq<char>, verb: Verb)
    ensures
        uppercased(first) == uppercased(second) ==> resolved_verb(first) == resolved_verb(second),
        uppercased(first) == verb.canonical_name() ==> resolved_verb(first) == Some(verb),
        resolved_verb(first) == Some(verb) ==> uppercased(first) == verb.canonical_name(),
{
    lemma_table_holds_each_verb_once(verb, uppercased(first));
}

} // verus!

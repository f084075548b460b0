//! The one way a resolution fails: the editor asked for a server that this
//! extension does not provide.

use vstd::prelude::*;
use vstd::string::StringExecFns;

verus! {

/// The text that opens every report of an unknown server; the identifier
/// follows it directly.
pub open spec fn message_prefix() -> Seq<char> {
    "unknown language server: "@
}

/// The report shown for an unknown `identifier`.
pub open spec fn unknown_server_message(identifier: Seq<char>) -> Seq<char> {
    message_prefix() + identifier
}

/// The editor asked for a language server that is not provided here.
#[derive(Clone, Debug, PartialEq, Eq)]
pub struct UnknownServerError {
    /// The identifier as the editor gave it.
    pub identifier: String,
}

impl View for UnknownServerError {
    type V = Seq<char>;

    open spec fn view(&self) -> Seq<char> {
        self.identifier@
    }
}

impl UnknownServerError {
    /// Records `identifier` as the server that was asked for.
    pub fn new(identifier: &str) -> (error: UnknownServerError)
        ensures
            error@ == identifier@,
    {
        UnknownServerError { identifier: String::from_str(identifier) }
    }

    /// The report for the user, ready to display.
    pub fn message(&self) -> (text: String)
        ensures
            text@ == unknown_server_message(self@),
    {
        let mut text = String::from_str("unknown language server: ");
        text.append(self.identifier.as_str());
        text
    }
}

/// A report starts with the fixed prefix and ends with the identifier,
/// character for character.
pub proof fn message_carries_identifier(identifier: Seq<char>)
    ensures
        unknown_server_message(identifier).len() == message_prefix().len() + identifier.len(),
        unknown_server_message(identifier).subrange(0, message_prefix().len() as int)
            == message_prefix(),
        unknown_server_message(identifier).subrange(
            message_prefix().len() as int,
            unknown_server_message(identifier).len() as int,
        ) == identifier,
{
    let message = unknown_server_message(identifier);
    let split = message_prefix().len() as int;
    assert(message.subrange(0, split) =~= message_prefix());
    assert(message.subrange(split, message.len() as int) =~= identifier);
}

/// Reports of different identifiers differ.
pub proof fn message_determines_identifier(first: Seq<char>, second: Seq<char>)
    requires
        unknown_server_message(first) == unknown_server_message(second),
    ensures
        first == second,
{
    message_carries_identifier(first);
    message_carries_identifier(second);
}

} // verus!

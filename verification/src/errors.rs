//! The error kinds the client surfaces to the interactive loop.

use vstd::prelude::*;
use vstd::string::StringExecFns;

verus! {

/// Everything that can go wrong during one operator-initiated
/// operation. None of these crashes the process; each is displayed and
/// the operator may re-attempt.
#[derive(Debug)]
pub enum ClientError {
    /// Network or HTTP failure, including a non-success HTTP status;
    /// carries the response body or transport detail verbatim.
    Transport(String),
    /// The response body does not match the expected shape; carries
    /// the parse-failure detail verbatim.
    Malformed(String),
    /// The schema declares a method kind that is neither `view` nor
    /// `call`; carries the unrecognized kind.
    UnsupportedKind(String),
}

/// The display text of an error.
pub open spec fn message_of(e: ClientError) -> Seq<char> {
    match e {
        ClientError::Transport(t) => "api error: "@ + t@,
        ClientError::Malformed(t) => t@,
        ClientError::UnsupportedKind(_) => "unknown method type"@,
    }
}

impl ClientError {
    /// Renders the error for display, matching `message_of`.
    pub fn message(&self) -> (r: String)
        ensures
            r@ == message_of(*self),
    {
        match self {
            ClientError::Transport(t) => {
                let mut s: String = "api error: ".to_owned();
                s.append(t.as_str());
                s
            },
            ClientError::Malformed(t) => t.clone(),
            ClientError::UnsupportedKind(_) => "unknown method type".to_owned(),
        }
    }
}

} // verus!

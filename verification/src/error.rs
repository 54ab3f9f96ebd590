use vstd::prelude::*;

verus! {

/// The closed error taxonomy shared by both backends and the gateway.
///
/// Every failure a backend can surface is one of these four kinds; each kind
/// answers both "what transport status should the caller see" (`status`) and
/// "what message is safe to expose" (`to_body`).
#[derive(Debug, Clone, PartialEq)]
pub enum Error {
    /// A remote dependency responded but signaled failure: carries the
    /// dependency's own status and response text verbatim.
    Application { status_code: u16, text: String },
    /// The transport call to a remote dependency failed before a response was
    /// obtained; the raw transport error text is never exposed.
    Network,
    /// The embedded backend's store operation failed.
    Storage { text: String },
    /// Any other failure.
    Unclassified { text: String },
}

/// The serializable shape of every error: a transport status code and a
/// message that is safe to expose for the error's kind.
#[derive(Debug, Clone, PartialEq)]
pub struct ErrorBody {
    pub status_code: u16,
    pub message: String,
}

/// The status code reported for every failure that carries no status of its own.
pub const SERVER_FAILURE_STATUS: u16 = 500;

impl Error {
    /// The transport status a caller of the gateway sees for this error.
    pub open spec fn spec_status(&self) -> u16 {
        match self {
            Error::Application { status_code, .. } => *status_code,
            _ => SERVER_FAILURE_STATUS,
        }
    }

    /// The message exposed for this error: the dependency's response text
    /// verbatim for `Application`, the store's own text for `Storage` and
    /// `Unclassified`, and a fixed generic string for `Network` (raw
    /// transport error text never reaches a caller).
    pub open spec fn spec_message(&self) -> Seq<char> {
        match self {
            Error::Application { text, .. } => text@,
            Error::Network => "network error"@,
            Error::Storage { text } => text@,
            Error::Unclassified { text } => text@,
        }
    }

    pub fn status(&self) -> (code: u16)
        ensures
            code == self.spec_status(),
    {
        match self {
            Error::Application { status_code, .. } => *status_code,
            Error::Network => SERVER_FAILURE_STATUS,
            Error::Storage { .. } => SERVER_FAILURE_STATUS,
            Error::Unclassified { .. } => SERVER_FAILURE_STATUS,
        }
    }

    pub fn to_body(&self) -> (b: ErrorBody)
        ensures
            b.status_code == self.spec_status(),
            b.message@ == self.spec_message(),
    {
        let message = match self {
            Error::Application { text, .. } => text.clone(),
            Error::Network => "network error".to_owned(),
            Error::Storage { text } => text.clone(),
            Error::Unclassified { text } => text.clone(),
        };
        ErrorBody { status_code: self.status(), message }
    }
}

/// Law: a transport-level failure is presented with the generic server-side
/// failure status and the fixed generic message — never the raw transport
/// error text.
pub proof fn lemma_network_error_presentation()
    ensures
        Error::Network.spec_status() == SERVER_FAILURE_STATUS,
        Error::Network.spec_message() == "network error"@,
{
}

} // verus!

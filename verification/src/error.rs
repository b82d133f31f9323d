//! The error taxonomy of the publisher. Every component operation returns a
//! success value or exactly one of these errors, never a partial result.

use vstd::prelude::*;

verus! {

/// Why a unit of publish work failed.
#[derive(Debug, PartialEq, Eq)]
pub enum PublishError {
    /// A coordinate has neither an explicit repository nor a usable default,
    /// or an item has zero sources or zero targets. Detected before any
    /// network call.
    Configuration { message: String },
    /// Connection, TLS or timeout failure reaching a registry.
    Transport { message: String },
    /// A non-success HTTP status from a registry. `message` is the response
    /// body when it is valid text, else nothing.
    Registry { status: u16, message: Option<String> },
    /// Malformed manifest or config-blob JSON, or mandatory fields missing.
    Parse { message: String },
    /// A fetched blob's recomputed digest disagrees with the digest its
    /// referencing manifest declared.
    DigestMismatch { declared: String, computed: String },
}

impl Clone for PublishError {
    fn clone(&self) -> (r: Self)
        ensures
            r == *self,
    {
        match self {
            PublishError::Configuration { message } => PublishError::Configuration {
                message: message.clone(),
            },
            PublishError::Transport { message } => PublishError::Transport {
                message: message.clone(),
            },
            PublishError::Registry { status, message } => PublishError::Registry {
                status: *status,
                message: message.clone(),
            },
            PublishError::Parse { message } => PublishError::Parse { message: message.clone() },
            PublishError::DigestMismatch { declared, computed } => PublishError::DigestMismatch {
                declared: declared.clone(),
                computed: computed.clone(),
            },
        }
    }
}

impl PublishError {
    /// Describes the error for the operator.
    pub fn message(&self) -> (r: String)
        ensures
            r@ == spec_error_message(self),
    {
        match self {
            PublishError::Configuration { message } => message.clone(),
            PublishError::Transport { message } => message.clone(),
            PublishError::Registry { status, message } => {
                match message {
                    Some(m) => m.clone(),
                    None => {
                        let mut r: String = "failed to retrieve error for ".to_owned();
                        let dec = crate::text::u64_to_dec(*status as u64);
                        r.append(dec.as_str());
                        r
                    },
                }
            },
            PublishError::Parse { message } => message.clone(),
            PublishError::DigestMismatch { declared, computed } => {
                let mut r: String =
                    "config digest does not match, blob was supposedly '".to_owned();
                r.append(declared.as_str());
                r.append("', but was calculated as '");
                r.append(computed.as_str());
                r.append("'");
                r
            },
        }
    }
}

/// The operator-facing description of an error.
pub open spec fn spec_error_message(e: &PublishError) -> Seq<char> {
    match e {
        PublishError::Configuration { message } => message@,
        PublishError::Transport { message } => message@,
        PublishError::Registry { status, message } => match message {
            Some(m) => m@,
            None => "failed to retrieve error for "@ + crate::text::spec_dec(*status as nat),
        },
        PublishError::Parse { message } => message@,
        PublishError::DigestMismatch { declared, computed } => {
            "config digest does not match, blob was supposedly '"@ + declared@
                + "', but was calculated as '"@ + computed@ + "'"@
        },
    }
}

} // verus!

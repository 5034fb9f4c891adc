use vstd::prelude::*;
use crate::text::joined;

verus! {

/// Why a lifecycle request failed.
#[derive(Debug, Clone)]
pub enum LifecycleError {
    /// The container engine could not be reached; carries the engine client's message.
    Connection(String),
    /// The logical image identifier has no known concrete image; carries the identifier.
    UnsupportedImage(String),
    /// An engine step failed; carries the engine's message unchanged.
    Engine(String),
    /// The engine started the container but reported no usable network binding.
    EndpointMissing,
    /// The engine answered a step with a reply of the wrong shape.
    UnexpectedReply,
}

pub open spec fn unsupported_prefix() -> Seq<char> {
    "unsupported image: "@
}

pub open spec fn endpoint_missing_text() -> Seq<char> {
    "Error fetching container network configuration"@
}

pub open spec fn unexpected_reply_text() -> Seq<char> {
    "unexpected reply from the container engine"@
}

impl LifecycleError {
    /// The human-readable text delivered to the caller.
    pub open spec fn text(&self) -> Seq<char> {
        match self {
            LifecycleError::Connection(m) => m@,
            LifecycleError::UnsupportedImage(id) => unsupported_prefix() + id@,
            LifecycleError::Engine(m) => m@,
            LifecycleError::EndpointMissing => endpoint_missing_text(),
            LifecycleError::UnexpectedReply => unexpected_reply_text(),
        }
    }

    /// Renders the error as the message handed back to the caller.
    pub fn describe(&self) -> (r: String)
        ensures
            r@ == self.text(),
    {
        proof {
            reveal_strlit("unsupported image: ");
            reveal_strlit("Error fetching container network configuration");
            reveal_strlit("unexpected reply from the container engine");
        }
        match self {
            LifecycleError::Connection(m) => m.clone(),
            LifecycleError::UnsupportedImage(id) => joined("unsupported image: ", id.as_str()),
            LifecycleError::Engine(m) => m.clone(),
            LifecycleError::EndpointMissing => {
                String::from_str("Error fetching container network configuration")
            },
            LifecycleError::UnexpectedReply => {
                String::from_str("unexpected reply from the container engine")
            },
        }
    }
}

} // verus!

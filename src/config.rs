//! Settings of the relay, fixed when the process starts.

use vstd::prelude::*;

verus! {

/// What the relay was started with.
#[derive(Clone, Debug)]
pub struct RelayConfig {
    /// Whether `POST /chat/{id}` demands a bearer token.
    pub require_auth: bool,
    /// The secret that a bearer token must equal, if one was configured.
    pub bearer_token: Option<String>,
    /// The raw text of the default chat identifier, if one was configured.
    pub default_chat_id: Option<String>,
}

impl RelayConfig {
    pub fn new(
        require_auth: bool,
        bearer_token: Option<String>,
        default_chat_id: Option<String>,
    ) -> (r: RelayConfig)
        ensures
            r.require_auth == require_auth,
            r.bearer_token == bearer_token,
            r.default_chat_id == default_chat_id,
    {
        RelayConfig { require_auth, bearer_token, default_chat_id }
    }
}

/// The characters of an optional string, if it is there.
pub open spec fn text_view(s: Option<String>) -> Option<Seq<char>> {
    match s {
        Some(t) => Some(t@),
        None => None,
    }
}

/// The characters of an optional string slice, if it is there.
pub open spec fn str_view(s: Option<&str>) -> Option<Seq<char>> {
    match s {
        Some(t) => Some(t@),
        None => None,
    }
}

} // verus!

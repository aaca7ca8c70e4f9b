//! Bearer-token authorization of webhook requests.

use vstd::prelude::*;
use crate::config::{RelayConfig, str_view, text_view};

verus! {

/// The verdict on a request's credentials.
#[derive(Clone, Copy, Debug, PartialEq, Eq, Structural)]
pub enum AuthOutcome {
    /// The request may proceed.
    Granted,
    /// The request carried no bearer token, or one that differs from the secret.
    Denied,
    /// Authorization is required but no secret was configured.
    SecretMissing,
}

/// `Bearer ` followed by a space: the scheme prefix of an `Authorization` header.
pub open spec fn bearer_scheme() -> Seq<char> {
    seq!['B', 'e', 'a', 'r', 'e', 'r', ' ']
}

/// The token that a header value carries after the bearer scheme, if it has it.
pub open spec fn bearer_credential(h: Seq<char>) -> Option<Seq<char>> {
    let k = bearer_scheme().len() as int;
    if h.len() >= k && h.subrange(0, k) == bearer_scheme() {
        Some(h.subrange(k, h.len() as int))
    } else {
        None
    }
}

/// The verdict on a request with the given `Authorization` header.
pub open spec fn auth_spec(
    require: bool,
    secret: Option<Seq<char>>,
    header: Option<Seq<char>>,
) -> AuthOutcome {
    if !require {
        AuthOutcome::Granted
    } else if secret is None {
        AuthOutcome::SecretMissing
    } else if header is Some && bearer_credential(header->0) == Some(secret->0) {
        AuthOutcome::Granted
    } else {
        AuthOutcome::Denied
    }
}

/// The verdict that `config` gives a request with the given `Authorization` header.
pub open spec fn config_auth_spec(config: RelayConfig, header: Option<Seq<char>>) -> AuthOutcome {
    auth_spec(config.require_auth, text_view(config.bearer_token), header)
}

/// Whether two strings hold the same characters.
pub fn same_text(a: &str, b: &str) -> (r: bool)
    ensures
        r == (a@ == b@),
{
    let n = a.unicode_len();
    if n != b.unicode_len() {
        return false;
    }
    let mut i: usize = 0;
    while i < n
        invariant
            n == a@.len(),
            n == b@.len(),
            i <= n,
            a@.subrange(0, i as int) == b@.subrange(0, i as int),
        decreases n - i,
    {
        if a.get_char(i) != b.get_char(i) {
            return false;
        }
        assert(a@.subrange(0, i + 1) =~= a@.subrange(0, i as int).push(a@[i as int]));
        assert(b@.subrange(0, i + 1) =~= b@.subrange(0, i as int).push(b@[i as int]));
        i = i + 1;
    }
    assert(a@ =~= a@.subrange(0, n as int));
    assert(b@ =~= b@.subrange(0, n as int));
    true
}

/// The token of an `Authorization` header that uses the bearer scheme.
pub fn bearer_credential_of(header: &str) -> (r: Option<&str>)
    ensures
        str_view(r) == bearer_credential(header@),
{
    let n = header.unicode_len();
    let scheme = "Bearer ";
    proof {
        reveal_strlit("Bearer ");
    }
    assert(scheme@ =~= bearer_scheme());
    if n < 7 {
        return None;
    }
    let mut i: usize = 0;
    while i < 7
        invariant
            n == header@.len(),
            7 <= n,
            i <= 7,
            scheme@ == bearer_scheme(),
            header@.subrange(0, i as int) == scheme@.subrange(0, i as int),
        decreases 7 - i,
    {
        if header.get_char(i) != scheme.get_char(i) {
            assert(header@.subrange(0, 7)[i as int] != bearer_scheme()[i as int]);
            return None;
        }
        assert(header@.subrange(0, i + 1) =~= header@.subrange(0, i as int).push(header@[i as int]));
        assert(scheme@.subrange(0, i + 1) =~= scheme@.subrange(0, i as int).push(scheme@[i as int]));
        i = i + 1;
    }
    assert(scheme@.subrange(0, 7) =~= scheme@);
    Some(header.substring_char(7, n))
}

/// Decides whether a request with the given `Authorization` header may proceed.
pub fn authorize(config: &RelayConfig, header: Option<&str>) -> (r: AuthOutcome)
    ensures
        r == config_auth_spec(*config, str_view(header)),
{
    if !config.require_auth {
        return AuthOutcome::Granted;
    }
    let secret: &str = match &config.bearer_token {
        Some(s) => s.as_str(),
        None => {
            return AuthOutcome::SecretMissing;
        },
    };
    let h: &str = match header {
        Some(h) => h,
        None => {
            return AuthOutcome::Denied;
        },
    };
    match bearer_credential_of(h) {
        Some(token) => {
            if same_text(token, secret) {
                AuthOutcome::Granted
            } else {
                AuthOutcome::Denied
            }
        },
        None => AuthOutcome::Denied,
    }
}

} // verus!

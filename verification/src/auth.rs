//! Auth guard: the bearer credential check that gates every archive request.

use vstd::prelude::*;

verus! {

/// The scheme prefix that every accepted credential starts with.
pub open spec fn bearer_prefix() -> Seq<char> {
    "Bearer "@
}

/// Whether `header`, the raw value of an authorization header, presents
/// `secret`: it is the scheme prefix followed by exactly the secret.
pub open spec fn credential_accepted(header: Seq<char>, secret: Seq<char>) -> bool {
    header == bearer_prefix() + secret
}

/// Whether a request whose authorization header is `header` (`None` when the
/// header is absent) may enter the pipeline guarded by `secret`.
pub open spec fn admits(header: Option<Seq<char>>, secret: Seq<char>) -> bool {
    match header {
        Some(value) => credential_accepted(value, secret),
        None => false,
    }
}

/// A credential is accepted exactly when it starts with the scheme prefix
/// and what follows the prefix is the secret.
pub proof fn lemma_accepted_is_prefix_then_secret(header: Seq<char>, secret: Seq<char>)
    ensures
        credential_accepted(header, secret) <==> (bearer_prefix().is_prefix_of(header)
            && header.skip(bearer_prefix().len() as int) == secret),
{
    let prefix = bearer_prefix();
    if credential_accepted(header, secret) {
        assert(header.subrange(0, prefix.len() as int) =~= prefix);
        assert(header.skip(prefix.len() as int) =~= secret);
    }
    if prefix.is_prefix_of(header) && header.skip(prefix.len() as int) == secret {
        assert(header =~= prefix + secret);
    }
}

/// Marker of an authenticated caller. It carries the header value that was
/// accepted and no identity.
#[derive(Clone, Debug, PartialEq, Eq)]
pub struct BearerToken(pub String);

impl View for BearerToken {
    type V = Seq<char>;

    open spec fn view(&self) -> Seq<char> {
        self.0@
    }
}

/// Checks a raw authorization header value against the configured secret.
pub fn is_valid(token: &str, valid: &str) -> (ok: bool)
    ensures
        ok == credential_accepted(token@, valid@),
{
    let expected = "Bearer ".to_owned().concat(valid);
    expected == token.to_owned()
}

/// The guard itself: a missing header, a missing prefix and a wrong secret
/// are all refused alike; an accepted header is kept in the token.
pub fn authenticate(header: Option<&str>, secret: &str) -> (token: Option<BearerToken>)
    ensures
        token is Some <==> admits(header.deep_view(), secret@),
        token matches Some(t) ==> header.deep_view() == Some(t@),
{
    match header {
        None => None,
        Some(value) => {
            if is_valid(value, secret) {
                Some(BearerToken(value.to_owned()))
            } else {
                None
            }
        },
    }
}

} // verus!

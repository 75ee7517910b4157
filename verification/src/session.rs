//! The session's credential: at most one resolved bearer token, kept until
//! the remote side refuses it.

use vstd::prelude::*;
use secrecy::ExposeSecret;
use crate::credential::CredentialError;

verus! {

/// A bearer token inside secrecy's `SecretString`, which wipes the text
/// from memory when it is dropped and prints as redacted.
///
/// Trusted: the verifier sees nothing of this struct. secrecy bounds the
/// content of its box by a trait of its own, so the box cannot be declared
/// to the verifier as a type and is held here instead.
#[verifier::external_body]
pub struct SealedToken {
    secret: secrecy::SecretString,
}

/// The text that a sealed token holds.
pub uninterp spec fn sealed_text(token: SealedToken) -> Seq<char>;

/// Calls secrecy's `SecretString::from`, which moves the text into the box.
///
/// Trusted: the box holds the text that was given.
#[verifier::external_body]
fn seal(token: String) -> (sealed: SealedToken)
    ensures
        sealed_text(sealed) == token@,
{
    SealedToken { secret: secrecy::SecretString::from(token) }
}

/// Calls secrecy's `ExposeSecret::expose_secret` and copies the text out.
///
/// Trusted: the copy is the text that the box holds.
#[verifier::external_body]
fn expose(sealed: &SealedToken) -> (token: String)
    ensures
        token@ == sealed_text(*sealed),
{
    sealed.secret.expose_secret().to_string()
}

/// The session's credential slot: empty, or one bearer token.
pub struct SessionCache {
    slot: Option<SealedToken>,
}

impl View for SessionCache {
    type V = Option<Seq<char>>;

    /// The token that the cache holds, if it holds one.
    closed spec fn view(&self) -> Option<Seq<char>> {
        match self.slot {
            Some(sealed) => Some(sealed_text(sealed)),
            None => None,
        }
    }
}

/// What the cache holds after `get_or_resolve`, given what it held before
/// and what the resolver returned: a token that was held stays; into an
/// empty cache goes the token that was resolved, if one was.
pub open spec fn cache_after_resolution(
    before: Option<Seq<char>>,
    resolved: Result<String, CredentialError>,
) -> Option<Seq<char>> {
    match before {
        Some(token) => Some(token),
        None => match resolved {
            Ok(token) => Some(token@),
            Err(_) => None,
        },
    }
}

impl SessionCache {
    /// An empty cache.
    pub fn new() -> (cache: SessionCache)
        ensures
            cache@ is None,
    {
        SessionCache { slot: None }
    }

    /// Whether the cache holds a token.
    pub fn is_populated(&self) -> (populated: bool)
        ensures
            populated == (self@ is Some),
    {
        self.slot.is_some()
    }

    /// A copy of the token that the cache holds. Where the cache is empty,
    /// `resolver` is called, and the token that it returns is kept and
    /// handed out; its error is handed on, and the cache stays empty.
    ///
    /// What `resolver` returns counts only where the cache was empty: with
    /// a token in the cache the result is that token, whatever `resolver`
    /// would do.
    pub fn get_or_resolve<F: FnOnce() -> Result<String, CredentialError>>(
        &mut self,
        resolver: F,
    ) -> (r: Result<String, CredentialError>)
        requires
            call_requires(resolver, ()),
        ensures
            match old(self)@ {
                Some(token) => r matches Ok(copy) && copy@ == token,
                None => call_ensures(resolver, (), r),
            },
            final(self)@ == cache_after_resolution(old(self)@, r),
    {
        match &self.slot {
            Some(sealed) => Ok(expose(sealed)),
            None => {
                match resolver() {
                    Ok(token) => {
                        let copy = token.clone();
                        self.slot = Some(seal(token));
                        Ok(copy)
                    },
                    Err(error) => Err(error),
                }
            },
        }
    }

    /// Empties the cache, so that the next request resolves the credential
    /// anew. An empty cache stays empty.
    pub fn invalidate(&mut self)
        ensures
            final(self)@ is None,
    {
        self.slot = None;
    }
}

} // verus!

//! The session context: the opaque credential and the rotating anti-forgery
//! token that authenticated requests carry.

use vstd::prelude::*;

verus! {

/// The name of the header that carries the anti-forgery token, both on
/// requests and on responses that rotate it.
pub fn xcsrf_header_name() -> (r: &'static str)
    ensures
        r@ == "x-csrf-token"@,
{
    "x-csrf-token"
}

/// The name of the header that carries base64-encoded challenge metadata on
/// a challenge-required 403.
pub fn challenge_metadata_header_name() -> (r: &'static str)
    ensures
        r@ == "rblx-challenge-metadata"@,
{
    "rblx-challenge-metadata"
}

/// Owns the session credential and the current anti-forgery token.
///
/// The credential is set once and never changed; the token rotates whenever
/// the remote service rejects it and hands back a fresh one.  The credential
/// contents are not validated locally: validity is determined only by the
/// remote service's response.
pub struct SessionContext {
    credential: String,
    xcsrf: String,
}

/// Spec-level mirror of [`SessionContext`].
pub struct SessionModel {
    pub credential: Seq<char>,
    pub xcsrf: Seq<char>,
}

impl View for SessionContext {
    type V = SessionModel;

    closed spec fn view(&self) -> SessionModel {
        SessionModel { credential: self.credential@, xcsrf: self.xcsrf@ }
    }
}

/// The transport header value carrying the session credential.
pub open spec fn spec_credential_header(credential: Seq<char>) -> Seq<char> {
    ".ROBLOSECURITY="@ + credential
}

impl SessionContext {
    /// A fresh session with an empty anti-forgery token; the first mutating
    /// call earns a real one through the token-refresh cycle.
    pub fn new(credential: String) -> (s: Self)
        ensures
            s@.credential == credential@,
            s@.xcsrf == Seq::<char>::empty(),
    {
        SessionContext { credential, xcsrf: String::new() }
    }

    /// The current anti-forgery token.
    pub fn xcsrf(&self) -> (t: String)
        ensures
            t@ == self@.xcsrf,
    {
        self.xcsrf.clone()
    }

    /// Replaces the anti-forgery token; visible to every subsequent read.
    pub fn set_xcsrf(&mut self, token: String)
        ensures
            final(self)@.xcsrf == token@,
            final(self)@.credential == old(self)@.credential,
    {
        self.xcsrf = token;
    }

    /// Formats the credential into the cookie header value the remote
    /// service expects.
    pub fn cookie_string(&self) -> (h: String)
        ensures
            h@ == spec_credential_header(self@.credential),
    {
        let mut h = String::from_str(".ROBLOSECURITY=");
        h.append(self.credential.as_str());
        h
    }
}

} // verus!

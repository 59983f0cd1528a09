//! Credential and session lifecycle.
//!
//! The remote authentication exchange happens outside this crate; the
//! host layer hands its reply in as an [`AuthReply`]. Everything decided
//! about that reply — sorting a raw failure message into the error
//! taxonomy, establishing a session, and the deliberate boolean coercion
//! of `verify` — is verified here.

use crate::errors::AuthenticationError;
use crate::errors::RusteerError;
use crate::quality::DownloadQuality;
use crate::text::contains_seq;
use crate::text::str_contains;
use vstd::prelude::*;

verus! {

/// How a session is operated.
///
/// An ephemeral session is created for one call and discarded: no shared
/// mutable state, safe for unlimited independent calls. A persistent
/// session is constructed once and shared; the host layer serializes
/// access so at most one operation is in flight against it at a time.
#[derive(Clone, Copy, Debug, PartialEq, Eq, Structural)]
pub enum SessionMode {
    Ephemeral,
    Persistent,
}

/// The remote service's reply to an authentication attempt, as the host
/// layer hands it in: granted, or refused with the raw failure message.
pub enum AuthReply {
    Granted,
    Refused(String),
}

impl View for AuthReply {
    type V = AuthReplyView;

    open spec fn view(&self) -> AuthReplyView {
        match self {
            AuthReply::Granted => AuthReplyView::Granted,
            AuthReply::Refused(m) => AuthReplyView::Refused(m@),
        }
    }
}

/// Mathematical view of an [`AuthReply`].
pub enum AuthReplyView {
    Granted,
    Refused(Seq<char>),
}

/// A raw failure message that means the credential itself was rejected,
/// as opposed to a transport or server fault.
pub open spec fn is_credential_failure(message: Seq<char>) -> bool {
    contains_seq(message, "Bad credentials"@) || contains_seq(message, "401"@)
}

/// Whether a raw authentication failure message reports a rejected
/// credential rather than a transport fault.
pub fn credential_failure(message: &str) -> (r: bool)
    ensures
        r == is_credential_failure(message@),
{
    str_contains(message, "Bad credentials") || str_contains(message, "401")
}

/// Sort a raw authentication failure message into the error taxonomy:
/// a message that speaks of bad credentials becomes a credential
/// failure, everything else a transport failure carrying the message.
pub fn classify_auth_failure(message: String) -> (e: AuthenticationError)
    ensures
        is_credential_failure(message@) ==> e == AuthenticationError::InvalidCredentials,
        !is_credential_failure(message@) ==> (e matches AuthenticationError::Transport(m)
            && m@ == message@),
{
    if credential_failure(message.as_str()) {
        AuthenticationError::InvalidCredentials
    } else {
        AuthenticationError::Transport(message)
    }
}

/// An authenticated session: the credential context it was derived from,
/// its operating mode, and the caller's current quality preference.
pub struct Session {
    pub credential: String,
    pub mode: SessionMode,
    pub quality: DownloadQuality,
}

impl Session {
    /// Establish a session from the service's reply to an authentication
    /// attempt. A session exists exactly when the reply granted access;
    /// a refusal is sorted into the error taxonomy instead.
    pub fn authenticate(credential: String, reply: AuthReply, mode: SessionMode, quality: DownloadQuality) -> (r:
        Result<Session, AuthenticationError>)
        ensures
            reply@ is Granted <==> r is Ok,
            r matches Ok(s) ==> s.credential@ == credential@ && s.mode == mode && s.quality
                == quality,
            reply@ matches AuthReplyView::Refused(m) ==> (if is_credential_failure(m) {
                r == Err::<Session, AuthenticationError>(AuthenticationError::InvalidCredentials)
            } else {
                r is Err && r->Err_0 is Transport && r->Err_0->Transport_0@ == m
            }),
    {
        match reply {
            AuthReply::Granted => Ok(Session { credential, mode, quality }),
            AuthReply::Refused(message) => Err(classify_auth_failure(message)),
        }
    }

    /// Change the session's quality preference; nothing else moves.
    pub fn set_quality(&mut self, quality: DownloadQuality)
        ensures
            final(self).quality == quality,
            final(self).credential == old(self).credential,
            final(self).mode == old(self).mode,
    {
        self.quality = quality;
    }
}

/// The failure classes that credential verification coerces to `false`
/// rather than an error: exactly the invalid- and expired-credential
/// classes, and no other.
pub open spec fn is_credential_class(e: AuthenticationError) -> bool {
    e is InvalidCredentials || e is ExpiredCredentials
}

/// Coerce an authentication outcome for a login flow: success is `true`,
/// an invalid or expired credential is `false`, and any other failure
/// class stays an error. This is the taxonomy-level statement of the
/// `verify` asymmetry.
pub fn verify_outcome(outcome: Result<(), AuthenticationError>) -> (r: Result<
    bool,
    AuthenticationError,
>)
    ensures
        outcome is Ok ==> r == Ok::<bool, AuthenticationError>(true),
        outcome matches Err(e) ==> (if is_credential_class(e) {
            r == Ok::<bool, AuthenticationError>(false)
        } else {
            r == Err::<bool, AuthenticationError>(e)
        }),
{
    match outcome {
        Ok(()) => Ok(true),
        Err(AuthenticationError::InvalidCredentials) => Ok(false),
        Err(AuthenticationError::ExpiredCredentials) => Ok(false),
        Err(AuthenticationError::Transport(m)) => Err(AuthenticationError::Transport(m)),
    }
}

/// The distinguished soft-fail entry point for a login flow: a refusal
/// whose cause is a bad credential becomes `Ok(false)`, not an error;
/// any other failure class is surfaced as an error. This asymmetry is a
/// narrow contract for credential verification alone and is not the
/// engine's general error mapping.
pub fn verify_credential(reply: AuthReply) -> (r: Result<bool, RusteerError>)
    ensures
        reply@ is Granted ==> r == Ok::<bool, RusteerError>(true),
        reply@ matches AuthReplyView::Refused(m) ==> (if is_credential_failure(m) {
            r == Ok::<bool, RusteerError>(false)
        } else {
            r is Err && r->Err_0->DeezerError_0@ == m
        }),
{
    match reply {
        AuthReply::Granted => Ok(true),
        AuthReply::Refused(message) => {
            if credential_failure(message.as_str()) {
                Ok(false)
            } else {
                Err(RusteerError::DeezerError(message))
            }
        },
    }
}

} // verus!

//! Session management for the remote collaboration server.
//!
//! A session is created either from a pre-issued private access token or
//! from a username and password pair:
//! - `Session` -> `SessionWithToken` -> `LoggedSession`
//! - `Session` -> `SessionWithCredentials` -> `LoggedSession`
//!
//! A [`LoggedSession`] built from credentials can re-derive a fresh token
//! with [`LoggedSession::relogin`] when the old one is rejected; one built
//! from a static token keeps it, and `relogin` is a no-op success there.

use vstd::prelude::*;
use vstd::string::StringExecFns;

use crate::http::{http_get_auth, http_post_json, json_str_field, spec_json_str_field,
    HttpFailure, HttpResponseParts};
use crate::strutil::{json_escape_into, spec_json_escape};

verus! {

/// Errors of the authentication lifecycle.
#[derive(Debug)]
pub enum AuthError {
    /// A network failure; the payload describes it.
    Transport(String),
    /// The exchange did not yield a usable credential or identity; the
    /// payload says what was missing or refused.
    Rejected(String),
}

/// The Authorization header value carrying a bearer token.
pub open spec fn spec_bearer(token: Seq<char>) -> Seq<char> {
    "Bearer "@ + token
}

pub(crate) fn bearer_value(token: &str) -> (r: String)
    ensures
        r@ == spec_bearer(token@),
{
    let mut s = String::from_str("Bearer ");
    s.append(token);
    s
}

/// The JSON body of a login exchange.
pub open spec fn spec_login_body(user: Seq<char>, password: Seq<char>) -> Seq<char> {
    "{\"login_id\":\""@ + spec_json_escape(user) + "\",\"password\":\""@ + spec_json_escape(
        password,
    ) + "\"}"@
}

pub fn build_login_body(user: &str, password: &str) -> (r: String)
    ensures
        r@ == spec_login_body(user@, password@),
{
    let mut out = String::from_str("{\"login_id\":\"");
    json_escape_into(&mut out, user);
    out.append("\",\"password\":\"");
    json_escape_into(&mut out, password);
    out.append("\"}");
    assert(out@ =~= spec_login_body(user@, password@));
    out
}

/// The authentication error an HTTP exchange failure means: a transport
/// failure stays a transport failure with its description, and a rejection
/// status is a refused login.
pub fn auth_error_of_failure(failure: HttpFailure) -> (r: AuthError)
    ensures
        failure matches HttpFailure::Transport(m) ==> (r matches AuthError::Transport(m2) && m2
            == m),
        failure matches HttpFailure::Status(_) ==> r matches AuthError::Rejected(_),
{
    match failure {
        HttpFailure::Transport(m) => AuthError::Transport(m),
        HttpFailure::Status(_code) => AuthError::Rejected(
            String::from_str("Login authentication failed"),
        ),
    }
}

/// Trait implementing the functions necessary to establish a session
/// (getting an authenticating token).
pub trait BaseSession {
    /// Get the session token.
    fn token(&self) -> Result<&str, AuthError>;

    /// Get the session base URL.
    fn base_uri(&self) -> &str;

    /// Login to the remote instance.
    fn login(&mut self) -> Result<LoggedSession, AuthError>;
}

/// Base session without authentication management.
pub struct Session {
    /// Base URL of the remote server.
    pub base_uri: String,
}

/// A session authenticated with a private access token.
pub struct SessionWithToken {
    /// Base URL of the remote server.
    pub base_uri: String,
    /// Private access token for the current user on the `base_uri` instance.
    pub token: String,
}

/// A session authenticated with a login and password.
pub struct SessionWithCredentials {
    /// Base URL of the remote server.
    pub base_uri: String,
    /// User login.
    pub user: String,
    /// User password.
    pub password: String,
}

/// A session once logged in.
pub struct LoggedSession {
    /// Base URL of the remote server.
    pub base_uri: String,
    /// The live bearer credential, replaced as a whole by a successful
    /// re-login.
    pub token: String,
    /// The server's internal user id.
    pub user_id: String,
    /// The login kept for re-login; `None` for a static-token session.
    pub user: Option<String>,
    /// The password kept for re-login; `None` for a static-token session.
    pub password: Option<String>,
    /// How many re-login exchanges have replaced the token.
    pub relogins: Ghost<nat>,
    /// How many status sends were attempted through this session.
    pub sends: Ghost<nat>,
}

impl LoggedSession {
    /// A session holds credentials for re-login either completely or not at
    /// all.
    pub open spec fn wf(&self) -> bool {
        self.user is Some <==> self.password is Some
    }

    /// The session can re-derive a fresh token by itself.
    pub open spec fn spec_credentialed(&self) -> bool {
        self.user is Some && self.password is Some
    }

    /// Everything but the token and the re-login counter is kept.
    pub open spec fn same_identity_as(&self, other: &LoggedSession) -> bool {
        &&& self.base_uri == other.base_uri
        &&& self.user_id == other.user_id
        &&& self.user == other.user
        &&& self.password == other.password
        &&& self.sends == other.sends
    }
}

impl Session {
    /// Create a new empty [`Session`] to the `base_uri` remote server.
    pub fn new(base_uri: &str) -> (r: Self)
        ensures
            r.base_uri@ == base_uri@,
    {
        Session { base_uri: base_uri.to_owned() }
    }

    /// Add an existing token to the current [`Session`].
    pub fn with_token(&mut self, token: &str) -> (r: SessionWithToken)
        ensures
            r.base_uri == old(self).base_uri,
            r.token@ == token@,
            *final(self) == *old(self),
    {
        SessionWithToken { base_uri: self.base_uri.clone(), token: token.to_owned() }
    }

    /// Add login credentials to the current [`Session`].
    pub fn with_credentials(&mut self, user_login: &str, password: &str) -> (r:
        SessionWithCredentials)
        ensures
            r.base_uri == old(self).base_uri,
            r.user@ == user_login@,
            r.password@ == password@,
            *final(self) == *old(self),
    {
        SessionWithCredentials {
            base_uri: self.base_uri.clone(),
            user: user_login.to_owned(),
            password: password.to_owned(),
        }
    }
}

impl SessionWithToken {
    /// The token this session was built with.
    pub fn token(&self) -> (r: Result<&str, AuthError>)
        ensures
            r matches Ok(t) && t@ == self.token@,
    {
        Ok(self.token.as_str())
    }

    /// The base URL this session was built with.
    pub fn base_uri(&self) -> (r: &str)
        ensures
            r@ == self.base_uri@,
    {
        self.base_uri.as_str()
    }

    /// Resolve the user id behind the static token through the identity
    /// endpoint and produce a [`LoggedSession`].  The token is assumed valid
    /// and is carried over unchanged; no credentials are stored, so the
    /// resulting session cannot re-login.
    ///
    /// Fails with [`AuthError::Rejected`] when the server refuses the token
    /// or its answer carries no usable id, and with [`AuthError::Transport`]
    /// on any network failure.
    pub fn login(&mut self) -> (r: Result<LoggedSession, AuthError>)
        ensures
            *final(self) == *old(self),
            r matches Ok(s) ==> {
                &&& s.base_uri == old(self).base_uri
                &&& s.token == old(self).token
                &&& s.user is None
                &&& s.password is None
                &&& s.relogins@ == 0
                &&& s.sends@ == 0
                &&& s.wf()
                &&& !s.spec_credentialed()
            },
    {
        let uri = self.base_uri.clone().concat("/api/v4/users/me");
        let auth = bearer_value(self.token.as_str());
        match http_get_auth(uri.as_str(), auth.as_str()) {
            Ok((_status, body)) => self.login_outcome(body.as_str()),
            Err(f) => Err(auth_error_of_failure(f)),
        }
    }

    /// The logged session an identity answer yields: the answer body's `id`
    /// field becomes the user id and the static token is carried over
    /// unchanged; a body without a usable id is a rejection.
    pub fn login_outcome(&self, body: &str) -> (r: Result<LoggedSession, AuthError>)
        ensures
            r is Ok <==> spec_json_str_field(body@, "id"@) is Some,
            spec_json_str_field(body@, "id"@) is Some ==> (r matches Ok(s) && {
                &&& s.base_uri == self.base_uri
                &&& s.token == self.token
                &&& s.user_id@ == spec_json_str_field(body@, "id"@)->Some_0
                &&& s.user is None
                &&& s.password is None
                &&& s.relogins@ == 0
                &&& s.sends@ == 0
                &&& s.wf()
                &&& !s.spec_credentialed()
            }),
            spec_json_str_field(body@, "id"@) is None ==> r matches Err(AuthError::Rejected(_)),
    {
        match json_str_field(body, "id") {
            Some(user_id) => Ok(
                LoggedSession {
                    base_uri: self.base_uri.clone(),
                    token: self.token.clone(),
                    user_id,
                    user: None,
                    password: None,
                    relogins: Ghost(0),
                    sends: Ghost(0),
                },
            ),
            None => Err(
                AuthError::Rejected(String::from_str("identity answer carries no usable id")),
            ),
        }
    }
}

impl SessionWithCredentials {
    /// A not-yet-logged-in credential session has no token.
    pub fn token(&self) -> (r: Result<&str, AuthError>)
        ensures
            r is Err,
    {
        Err(AuthError::Rejected(String::from_str("No token available, did login succeed ?")))
    }

    /// The base URL this session was built with.
    pub fn base_uri(&self) -> (r: &str)
        ensures
            r@ == self.base_uri@,
    {
        self.base_uri.as_str()
    }

    /// Perform the login exchange: submit the credentials, take the bearer
    /// credential from the answer's `Token` header and the user id from its
    /// body, and produce a [`LoggedSession`] that keeps the credentials for
    /// later re-login.
    ///
    /// Fails with [`AuthError::Rejected`] when the exchange yields no usable
    /// credential (refused login, missing token header or missing id), and
    /// with [`AuthError::Transport`] on any network failure.
    pub fn login(&mut self) -> (r: Result<LoggedSession, AuthError>)
        ensures
            *final(self) == *old(self),
            r matches Ok(s) ==> {
                &&& s.base_uri == old(self).base_uri
                &&& s.user == Some(old(self).user)
                &&& s.password == Some(old(self).password)
                &&& s.relogins@ == 0
                &&& s.sends@ == 0
                &&& s.wf()
                &&& s.spec_credentialed()
            },
    {
        let uri = self.base_uri.clone().concat("/api/v4/users/login");
        let body = build_login_body(self.user.as_str(), self.password.as_str());
        match http_post_json(uri.as_str(), body.as_str(), "Token") {
            Ok(parts) => self.login_outcome(parts),
            Err(f) => Err(auth_error_of_failure(f)),
        }
    }

    /// The logged session a login answer yields: the `Token` header becomes
    /// the bearer token and the body's `id` field the user id, with the
    /// credentials kept for later re-login; an answer without the header or
    /// without a usable id is a rejection.
    pub fn login_outcome(&self, parts: HttpResponseParts) -> (r: Result<LoggedSession, AuthError>)
        ensures
            r is Ok <==> (parts.header is Some && spec_json_str_field(parts.body@, "id"@)
                is Some),
            (parts.header is Some && spec_json_str_field(parts.body@, "id"@) is Some) ==> (
            r matches Ok(s) && {
                &&& s.base_uri == self.base_uri
                &&& s.token == parts.header->Some_0
                &&& s.user_id@ == spec_json_str_field(parts.body@, "id"@)->Some_0
                &&& s.user == Some(self.user)
                &&& s.password == Some(self.password)
                &&& s.relogins@ == 0
                &&& s.sends@ == 0
                &&& s.wf()
                &&& s.spec_credentialed()
            }),
            r is Err ==> r matches Err(AuthError::Rejected(_)),
    {
        match parts.header {
            Some(token) => match json_str_field(parts.body.as_str(), "id") {
                Some(user_id) => Ok(
                    LoggedSession {
                        base_uri: self.base_uri.clone(),
                        token,
                        user_id,
                        user: Some(self.user.clone()),
                        password: Some(self.password.clone()),
                        relogins: Ghost(0),
                        sends: Ghost(0),
                    },
                ),
                None => Err(
                    AuthError::Rejected(String::from_str("login answer carries no usable id")),
                ),
            },
            None => Err(AuthError::Rejected(String::from_str("Login authentication failed"))),
        }
    }
}

impl BaseSession for SessionWithToken {
    fn token(&self) -> Result<&str, AuthError> {
        SessionWithToken::token(self)
    }

    fn base_uri(&self) -> &str {
        SessionWithToken::base_uri(self)
    }

    fn login(&mut self) -> Result<LoggedSession, AuthError> {
        SessionWithToken::login(self)
    }
}

impl BaseSession for SessionWithCredentials {
    fn token(&self) -> Result<&str, AuthError> {
        SessionWithCredentials::token(self)
    }

    fn base_uri(&self) -> &str {
        SessionWithCredentials::base_uri(self)
    }

    fn login(&mut self) -> Result<LoggedSession, AuthError> {
        SessionWithCredentials::login(self)
    }
}

impl LoggedSession {
    /// A session around an already-issued token, as the identity exchange
    /// hands it back: no credentials are stored, so re-login is a no-op.
    pub fn from_token(base_uri: String, token: String, user_id: String) -> (r: LoggedSession)
        ensures
            r.base_uri == base_uri,
            r.token == token,
            r.user_id == user_id,
            r.user is None,
            r.password is None,
            r.relogins@ == 0,
            r.sends@ == 0,
            r.wf(),
            !r.spec_credentialed(),
    {
        LoggedSession {
            base_uri,
            token,
            user_id,
            user: None,
            password: None,
            relogins: Ghost(0),
            sends: Ghost(0),
        }
    }

    /// Re-login, for a short-lived session token obtained via a login and
    /// password exchange.  Without stored credentials (a static-token
    /// session) this is a no-op success: a static token cannot be
    /// refreshed, so a rejection of it stays with the caller.  With stored
    /// credentials, the login exchange is repeated and, on success, the
    /// stored token is replaced as a whole; on failure nothing changes.
    pub fn relogin(&mut self) -> (r: Result<(), AuthError>)
        requires
            old(self).wf(),
        ensures
            final(self).wf(),
            final(self).same_identity_as(old(self)),
            final(self).relogins@ <= old(self).relogins@ + 1,
            !old(self).spec_credentialed() ==> r is Ok && *final(self) == *old(self),
            r is Err ==> *final(self) == *old(self),
            r is Ok && old(self).spec_credentialed() ==> final(self).relogins@ == old(
                self,
            ).relogins@ + 1,
    {
        let (user, password) = match (&self.user, &self.password) {
            (Some(u), Some(p)) => (u.clone(), p.clone()),
            _ => {
                // No login/password: bail out without doing anything.
                return Ok(());
            },
        };
        let uri = self.base_uri.clone().concat("/api/v4/users/login");
        let body = build_login_body(user.as_str(), password.as_str());
        match http_post_json(uri.as_str(), body.as_str(), "Token") {
            Ok(parts) => self.relogin_outcome(parts),
            Err(f) => Err(auth_error_of_failure(f)),
        }
    }

    /// Install the answer of a re-login exchange: a `Token` header replaces
    /// the stored token as a whole — no old token remains observable — and
    /// the re-login is counted; an answer without one is a rejection that
    /// changes nothing.
    pub fn relogin_outcome(&mut self, parts: HttpResponseParts) -> (r: Result<(), AuthError>)
        requires
            old(self).wf(),
        ensures
            final(self).wf(),
            final(self).same_identity_as(old(self)),
            parts.header is Some ==> (r is Ok && final(self).token == parts.header->Some_0
                && final(self).relogins@ == old(self).relogins@ + 1),
            parts.header is None ==> (r matches Err(AuthError::Rejected(_)) && *final(self)
                == *old(self)),
    {
        match parts.header {
            Some(token) => {
                self.token = token;
                proof {
                    self.relogins@ = self.relogins@ + 1;
                }
                Ok(())
            },
            None => Err(AuthError::Rejected(String::from_str("Login authentication failed"))),
        }
    }
}

} // verus!

//! The custom-status payload and its send, with at most one re-login and
//! one resend on an expired session.

use vstd::prelude::*;
use vstd::string::StringExecFns;

use crate::clock::{format_today_at, local_seconds_of_day};
use crate::http::{http_put_json, HttpFailure};
use crate::session::LoggedSession;
use crate::strutil::{json_escape_into, spec_json_escape, str_eq};
use crate::utils::{parse_from_hmstr, spec_parse_hm, view_opt_str};

verus! {

/// Errors specific to sending a custom status.
#[derive(Debug)]
pub enum MMSError {
    /// The HTTP exchange failed: a rejection status or a transport failure.
    HTTPRequestError(HttpFailure),
    /// The re-login attempted after an expired-session rejection failed.
    LoginError(crate::session::AuthError),
}

/// The wire representation of a custom status update: text, icon, and an
/// optional expiry with its duration kind.
#[derive(Debug)]
pub struct MMStatus {
    /// Custom status text description.
    pub text: String,
    /// Custom status emoji name.
    pub emoji: String,
    /// Custom status duration kind; set exactly when an expiry is set.
    pub duration: Option<String>,
    /// Custom status expiration, as the RFC 3339 text sent on the wire.
    pub expires_at: Option<String>,
}

impl Clone for MMStatus {
    /// A clone holds the very same status.
    fn clone(&self) -> (r: Self)
        ensures
            r == *self,
    {
        MMStatus {
            text: self.text.clone(),
            emoji: self.emoji.clone(),
            duration: match &self.duration {
                Some(d) => Some(d.clone()),
                None => None,
            },
            expires_at: match &self.expires_at {
                Some(e) => Some(e.clone()),
                None => None,
            },
        }
    }
}

impl PartialEq for MMStatus {
    fn eq(&self, other: &MMStatus) -> (r: bool) {
        let dur_eq = match (&self.duration, &other.duration) {
            (Some(a), Some(b)) => str_eq(a.as_str(), b.as_str()),
            (None, None) => true,
            _ => false,
        };
        let exp_eq = match (&self.expires_at, &other.expires_at) {
            (Some(a), Some(b)) => str_eq(a.as_str(), b.as_str()),
            (None, None) => true,
            _ => false,
        };
        dur_eq && exp_eq && str_eq(self.text.as_str(), other.text.as_str()) && str_eq(
            self.emoji.as_str(),
            other.emoji.as_str(),
        )
    }
}

impl vstd::std_specs::cmp::PartialEqSpecImpl for MMStatus {
    open spec fn obeys_eq_spec() -> bool {
        true
    }

    open spec fn eq_spec(&self, other: &MMStatus) -> bool {
        &&& self.text@ == other.text@
        &&& self.emoji@ == other.emoji@
        &&& match (self.duration, other.duration) {
            (Some(a), Some(b)) => a@ == b@,
            (None, None) => true,
            _ => false,
        }
        &&& match (self.expires_at, other.expires_at) {
            (Some(a), Some(b)) => a@ == b@,
            (None, None) => true,
            _ => false,
        }
    }
}

/// The JSON document sent for a status: the text and emoji always, the
/// duration kind and the expiry only when set.
pub open spec fn spec_status_json(s: MMStatus) -> Seq<char> {
    "{\"text\":\""@ + spec_json_escape(s.text@) + "\",\"emoji\":\""@ + spec_json_escape(s.emoji@)
        + "\""@ + (match s.duration {
        Some(d) => ",\"duration\":\""@ + spec_json_escape(d@) + "\""@,
        None => Seq::empty(),
    }) + (match s.expires_at {
        Some(e) => ",\"expires_at\":\""@ + spec_json_escape(e@) + "\""@,
        None => Seq::empty(),
    }) + "}"@
}

impl MMStatus {
    /// Create an `MMStatus` carrying `text` and `emoji`, with no expiry.
    pub fn new(text: String, emoji: String) -> (r: MMStatus)
        ensures
            r.text == text,
            r.emoji == emoji,
            r.duration is None,
            r.expires_at is None,
    {
        MMStatus { text, emoji, duration: None, expires_at: None }
    }

    /// Add an expiration time, parsed from "hh:mm", to the status, reading
    /// the clock for the current local time of day; see
    /// [`MMStatus::expires_at_when`].
    pub fn expires_at(&mut self, time_str: &Option<String>)
        ensures
            final(self).text == old(self).text,
            final(self).emoji == old(self).emoji,
            spec_parse_hm(view_opt_str(*time_str)) is None ==> *final(self) == *old(self),
            *final(self) != *old(self) ==> (final(self).duration matches Some(d) && d@
                == "date_and_time"@ && final(self).expires_at is Some),
    {
        let now = local_seconds_of_day();
        self.expires_at_when(time_str, now);
    }

    /// Add an expiration time, parsed from "hh:mm", to the status, given
    /// the current local time of day in seconds since midnight.
    ///
    /// The expiry is set only when the named time is strictly in the future
    /// on the current day; a time already past is silently dropped, never
    /// rolled over to the next day.  When the expiry is set, the duration
    /// kind is set beside it.
    pub fn expires_at_when(&mut self, time_str: &Option<String>, now_seconds_of_day: u32)
        requires
            now_seconds_of_day < 86400,
        ensures
            final(self).text == old(self).text,
            final(self).emoji == old(self).emoji,
            match spec_parse_hm(view_opt_str(*time_str)) {
                None => *final(self) == *old(self),
                Some(t) => {
                    if now_seconds_of_day < t.spec_seconds() {
                        (*final(self) == *old(self)) || (final(self).duration matches Some(d) && d@
                            == "date_and_time"@ && final(self).expires_at is Some)
                    } else {
                        *final(self) == *old(self)
                    }
                },
            },
            *final(self) != *old(self) ==> (final(self).duration matches Some(d) && d@
                == "date_and_time"@ && final(self).expires_at is Some),
    {
        // Do not set the expiry time if it lies in the past.
        if let Some(expiry) = parse_from_hmstr(time_str) {
            if now_seconds_of_day < expiry.seconds() {
                let instant = format_today_at(expiry.hh, expiry.mm);
                self.apply_expiry(instant);
            }
        }
    }

    /// Install a computed expiry instant: when one is at hand it becomes the
    /// expiry, with the duration kind set beside it; without one — the named
    /// wall-clock time does not exist today in the local time zone — nothing
    /// changes.
    pub fn apply_expiry(&mut self, instant: Option<String>)
        ensures
            final(self).text == old(self).text,
            final(self).emoji == old(self).emoji,
            instant matches Some(i) ==> (final(self).expires_at == Some(i)
                && (final(self).duration matches Some(d) && d@ == "date_and_time"@)),
            instant is None ==> *final(self) == *old(self),
    {
        match instant {
            Some(i) => {
                self.expires_at = Some(i);
                self.duration = Some(String::from_str("date_and_time"));
            },
            None => {},
        }
    }

    /// The JSON document that will be sent for this status.  This function
    /// is essentially used for debugging or testing.
    pub fn to_json(&self) -> (r: String)
        ensures
            r@ == spec_status_json(*self),
    {
        let mut out = String::from_str("{\"text\":\"");
        json_escape_into(&mut out, self.text.as_str());
        out.append("\",\"emoji\":\"");
        json_escape_into(&mut out, self.emoji.as_str());
        out.append("\"");
        if let Some(d) = &self.duration {
            out.append(",\"duration\":\"");
            json_escape_into(&mut out, d.as_str());
            out.append("\"");
        }
        if let Some(e) = &self.expires_at {
            out.append(",\"expires_at\":\"");
            json_escape_into(&mut out, e.as_str());
            out.append("\"");
        }
        out.append("}");
        assert(out@ =~= spec_status_json(*self));
        out
    }

    /// Send this status once with the session's current token, counting the
    /// attempt.
    fn put_once(&self, session: &mut LoggedSession) -> (r: Result<u16, HttpFailure>)
        ensures
            final(session).sends@ == old(session).sends@ + 1,
            final(session).base_uri == old(session).base_uri,
            final(session).token == old(session).token,
            final(session).user_id == old(session).user_id,
            final(session).user == old(session).user,
            final(session).password == old(session).password,
            final(session).relogins == old(session).relogins,
            r matches Ok(st) ==> st < 400,
            r matches Err(HttpFailure::Status(st)) ==> 400 <= st,
    {
        let uri = session.base_uri.clone().concat("/api/v4/users/me/status/custom");
        let auth = crate::session::bearer_value(session.token.as_str());
        let body = self.to_json();
        let r = http_put_json(uri.as_str(), auth.as_str(), body.as_str());
        proof {
            session.sends@ = session.sends@ + 1;
        }
        r
    }

    /// Send this status, re-logging in and resending exactly once when the
    /// server signals an expired or invalid session (a 401 rejection).
    ///
    /// The retry budget is one re-login and one resend per call: at most two
    /// send attempts and one re-login happen, and at least one send always
    /// does.  On any other rejection or transport failure the error is
    /// propagated at once; when the re-login itself fails, its error is
    /// propagated instead of the original rejection.  A session without
    /// stored credentials keeps its token, and the second rejection is
    /// handed to the caller.
    pub fn send(&self, session: &mut LoggedSession) -> (r: Result<u16, MMSError>)
        requires
            old(session).wf(),
        ensures
            final(session).wf(),
            final(session).base_uri == old(session).base_uri,
            final(session).user_id == old(session).user_id,
            final(session).user == old(session).user,
            final(session).password == old(session).password,
            old(session).sends@ + 1 <= final(session).sends@ <= old(session).sends@ + 2,
            final(session).relogins@ <= old(session).relogins@ + 1,
            final(session).relogins@ == old(session).relogins@ + 1 ==> final(session).sends@ == old(
                session,
            ).sends@ + 2,
            final(session).sends@ == old(session).sends@ + 1 ==> final(session).relogins@ == old(
                session,
            ).relogins@,
            r matches Err(MMSError::LoginError(_)) ==> final(session).sends@ == old(session).sends@
                + 1,
            !old(session).spec_credentialed() ==> final(session).token == old(session).token
                && final(session).relogins@ == old(session).relogins@,
            r matches Ok(st) ==> st < 400,
    {
        let first = self.put_once(session);
        self.send_followup(first, session)
    }

    /// Settle one send from the outcome of its first attempt: a success is
    /// handed back as is and nothing else happens; a rejection other than an
    /// expired session (a 401), or a transport failure, is handed back at
    /// once, with no re-login and no resend; a 401 leads to one re-login —
    /// whose failure is handed back as the login error, with no resend — and
    /// then to exactly one resend, whose outcome is returned without any
    /// further retry.
    pub fn send_followup(&self, first: Result<u16, HttpFailure>, session: &mut LoggedSession) -> (r:
        Result<u16, MMSError>)
        requires
            old(session).wf(),
            first matches Ok(st) ==> st < 400,
        ensures
            final(session).wf(),
            final(session).base_uri == old(session).base_uri,
            final(session).user_id == old(session).user_id,
            final(session).user == old(session).user,
            final(session).password == old(session).password,
            first matches Ok(st) ==> (r == Ok::<u16, MMSError>(st) && *final(session) == *old(
                session,
            )),
            first is Err && first->Err_0 is Status && first->Err_0->Status_0 != 401 ==> (
            *final(session) == *old(session) && (r matches Err(MMSError::HTTPRequestError(
                HttpFailure::Status(c2),
            )) && c2 == first->Err_0->Status_0)),
            first is Err && first->Err_0 is Transport ==> (*final(session) == *old(session) && (
            r matches Err(MMSError::HTTPRequestError(HttpFailure::Transport(m2))) && m2
                == first->Err_0->Transport_0)),
            first is Err && first->Err_0 is Status && first->Err_0->Status_0 == 401 ==> {
                &&& final(session).relogins@ <= old(session).relogins@ + 1
                &&& final(session).sends@ <= old(session).sends@ + 1
                &&& (r matches Err(MMSError::LoginError(_)) ==> *final(session) == *old(session))
                &&& (!(r matches Err(MMSError::LoginError(_))) ==> final(session).sends@ == old(
                    session,
                ).sends@ + 1)
                &&& (!old(session).spec_credentialed() ==> final(session).token == old(
                    session,
                ).token && final(session).relogins@ == old(session).relogins@)
            },
            r matches Ok(st) ==> st < 400,
    {
        match first {
            Ok(status) => Ok(status),
            Err(HttpFailure::Status(code)) => {
                if code == 401 {
                    // Re-login and retry, exactly once.
                    match session.relogin() {
                        Ok(()) => match self.put_once(session) {
                            Ok(status) => Ok(status),
                            Err(f) => Err(MMSError::HTTPRequestError(f)),
                        },
                        Err(e) => Err(MMSError::LoginError(e)),
                    }
                } else {
                    Err(MMSError::HTTPRequestError(HttpFailure::Status(code)))
                }
            },
            Err(f) => Err(MMSError::HTTPRequestError(f)),
        }
    }
}

/// The JSON document sent to set the base presence: the user id and the
/// presence name.
pub open spec fn spec_presence_json(user_id: Seq<char>, presence: Seq<char>) -> Seq<char> {
    "{\"user_id\":\""@ + spec_json_escape(user_id) + "\",\"status\":\""@ + spec_json_escape(
        presence,
    ) + "\"}"@
}

/// Build the presence document for the given user and presence name.
pub fn build_presence_body(user_id: &str, presence: &str) -> (r: String)
    ensures
        r@ == spec_presence_json(user_id@, presence@),
{
    let mut out = String::from_str("{\"user_id\":\"");
    json_escape_into(&mut out, user_id);
    out.append("\",\"status\":\"");
    json_escape_into(&mut out, presence);
    out.append("\"}");
    assert(out@ =~= spec_presence_json(user_id@, presence@));
    out
}

} // verus!

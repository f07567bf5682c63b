//! Automate a collaboration-server presence status from the visible wifi
//! network: a verified session-and-reconciliation engine.
//!
//! The crate decides, for each newly observed location, whether the remote
//! status must be pushed, skipped, or force-resynced, keeps the persisted
//! location record consistent with what was actually sent, and manages the
//! authentication lifecycle (token or credential login, one re-login on an
//! expired session).

use vstd::prelude::*;

pub mod clock;
pub mod config;
pub mod http;
pub mod micscan;
pub mod offtime;
pub mod secret;
pub mod session;
pub mod shutdown;
pub mod state;
pub mod status;
pub mod strutil;
pub mod utils;
pub mod wifiscan;

use crate::config::SecretType;
use crate::session::{AuthError, LoggedSession, Session};
use crate::state::{Location, LocationView};
use crate::status::MMStatus;
use crate::strutil::{contains_str, spec_contains};
use vstd::string::StrSliceExecFns;

verus! {

/// Create a [`LoggedSession`] according to `secret_type`: a password logs
/// in through the login exchange and keeps the credentials for re-login, a
/// token is used as it stands.
pub fn create_session(mm_url: &str, secret_type: SecretType, mm_user: &str, mm_secret: &str) -> (r:
    Result<LoggedSession, AuthError>)
    ensures
        r matches Ok(s) ==> {
            &&& s.wf()
            &&& s.base_uri@ == mm_url@
            &&& (s.spec_credentialed() <==> secret_type == SecretType::Password)
            &&& (secret_type == SecretType::Password ==> (s.user matches Some(u) && u@ == mm_user@)
                && (s.password matches Some(p) && p@ == mm_secret@))
            &&& (secret_type == SecretType::Token ==> s.token@ == mm_secret@)
            &&& s.relogins@ == 0
            &&& s.sends@ == 0
        },
{
    let mut session = Session::new(mm_url);
    match secret_type {
        SecretType::Password => {
            let mut with_credentials = session.with_credentials(mm_user, mm_secret);
            with_credentials.login()
        },
        SecretType::Token => {
            let mut with_token = session.with_token(mm_secret);
            with_token.login()
        },
    }
}

/// A status entry matches the scan when its location is keyed by a
/// non-empty wifi substring that occurs in some visible SSID.  The empty
/// substring is reserved for off time and never matches a scan.
pub open spec fn spec_entry_matches(loc: LocationView, ssids: Seq<Seq<char>>) -> bool {
    &&& loc matches LocationView::Known(w)
    &&& w.len() > 0
    &&& exists|j: int| 0 <= j < ssids.len() && spec_contains(#[trigger] ssids[j], w)
}

/// Search the prepared statuses for the first whose wifi substring occurs
/// in one of the visible SSIDs; the empty substring, reserved for off time,
/// is never matched.
pub fn find_known_location(status_list: &Vec<(Location, MMStatus)>, ssids: &Vec<String>) -> (r:
    Option<usize>)
    ensures
        r matches Some(i) ==> {
            &&& i < status_list@.len()
            &&& spec_entry_matches(status_list@[i as int].0@, ssids.deep_view())
            &&& forall|k: int| 0 <= k < i ==> !spec_entry_matches(
                (#[trigger] status_list@[k]).0@,
                ssids.deep_view(),
            )
        },
        r is None ==> forall|k: int| 0 <= k < status_list@.len() ==> !spec_entry_matches(
            (#[trigger] status_list@[k]).0@,
            ssids.deep_view(),
        ),
{
    let ghost sv = ssids.deep_view();
    let n = status_list.len();
    let m = ssids.len();
    let mut i: usize = 0;
    while i < n
        invariant
            i <= n,
            n == status_list@.len(),
            m == ssids@.len(),
            sv == ssids.deep_view(),
            forall|k: int| 0 <= k < i ==> !spec_entry_matches((#[trigger] status_list@[k]).0@, sv),
        decreases n - i,
    {
        let entry_matches: bool = match &status_list[i].0 {
            Location::Unknown => false,
            Location::Known(w) => {
                if w.as_str().unicode_len() == 0 {
                    false
                } else {
                    let mut j: usize = 0;
                    let mut found = false;
                    while j < m && !found
                        invariant
                            j <= m,
                            m == sv.len(),
                            sv == ssids.deep_view(),
                            found ==> exists|j2: int|
                                0 <= j2 < sv.len() && spec_contains(#[trigger] sv[j2], w@),
                            !found ==> forall|j2: int|
                                0 <= j2 < j ==> !spec_contains(#[trigger] sv[j2], w@),
                        decreases m - j,
                    {
                        assert(ssids.deep_view()[j as int] == ssids@[j as int]@);
                        if contains_str(ssids[j].as_str(), w.as_str()) {
                            found = true;
                        }
                        j += 1;
                    }
                    found
                }
            },
        };
        if entry_matches {
            return Some(i);
        }
        i += 1;
    }
    None
}

} // verus!

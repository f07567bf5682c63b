//! Persistent state for the current location, and the reconciliation
//! decision that keeps the remote status consistent with it.
//!
//! A [`State`] holds the last pushed location and the epoch second of its
//! last change.  It is encoded to a single text record (see
//! [`State::encode`]) which the caller writes to the state file, and decoded
//! back by [`State::new`]; a missing or undecodable file yields the default
//! record (unknown location, timestamp zero).

use vstd::prelude::*;
use vstd::string::StrSliceExecFns;
use vstd::string::StringExecFns;

use crate::session::LoggedSession;
use crate::status::{MMSError, MMStatus};
use crate::strutil::{
    dec_digits, find_char, is_dec_digit, lemma_dec_digits_are_digits, lemma_find_at,
    lemma_parse_dec_round_trip, parse_u64_dec, spec_find, spec_parse_u64, str_eq, u64_to_dec,
};

verus! {

/// If more than MAX_SECS_BEFORE_FORCE_UPDATE seconds have elapsed since the
/// stored record last changed, the remote status is pushed again even for an
/// unchanged location, to correct any drift introduced on the server side.
pub const MAX_SECS_BEFORE_FORCE_UPDATE: u64 = 60 * 60;

/// Wifi locations.
#[derive(Debug)]
pub enum Location {
    /// Known location based on a wifi ssid substring match.  The empty
    /// substring is reserved for the off-duty pseudo-location.
    Known(String),
    /// Unknown location: no known network is currently visible.
    Unknown,
}

/// Mathematical value of a [`Location`].
pub enum LocationView {
    Known(Seq<char>),
    Unknown,
}

impl View for Location {
    type V = LocationView;

    open spec fn view(&self) -> LocationView {
        match self {
            Location::Known(s) => LocationView::Known(s@),
            Location::Unknown => LocationView::Unknown,
        }
    }
}

impl PartialEq for Location {
    fn eq(&self, other: &Location) -> (r: bool) {
        match (self, other) {
            (Location::Known(a), Location::Known(b)) => str_eq(a.as_str(), b.as_str()),
            (Location::Unknown, Location::Unknown) => true,
            _ => false,
        }
    }
}

impl vstd::std_specs::cmp::PartialEqSpecImpl for Location {
    open spec fn obeys_eq_spec() -> bool {
        true
    }

    open spec fn eq_spec(&self, other: &Location) -> bool {
        self@ == other@
    }
}

impl Clone for Location {
    /// A clone holds the very same location.
    fn clone(&self) -> (r: Self)
        ensures
            r == *self,
    {
        match self {
            Location::Known(s) => Location::Known(s.clone()),
            Location::Unknown => Location::Unknown,
        }
    }
}

/// Cache for the application state: remembers where the single state record
/// is kept, as a path handed over by the caller.
#[derive(Debug)]
pub struct Cache {
    path: String,
}

impl View for Cache {
    type V = Seq<char>;

    closed spec fn view(&self) -> Seq<char> {
        self.path@
    }
}

impl Cache {
    /// Create a cache at location `path`.
    pub fn new(path: String) -> (r: Self)
        ensures
            r@ == path@,
    {
        Cache { path }
    }

    /// The path of the state file.
    pub fn path(&self) -> (r: &str)
        ensures
            r@ == self@,
    {
        self.path.as_str()
    }
}

/// State containing at least location info.
#[derive(Debug)]
pub struct State {
    /// The last location a push succeeded for.
    pub location: Location,
    /// Epoch second at which `location` last changed.
    pub lastchange_timestamp: i64,
}

/// Mathematical value of a [`State`].
pub struct StateView {
    pub location: LocationView,
    pub lastchange_timestamp: int,
}

impl View for State {
    type V = StateView;

    open spec fn view(&self) -> StateView {
        StateView { location: self.location@, lastchange_timestamp: self.lastchange_timestamp as int }
    }
}

/// The record used when no state file exists or its content is undecodable.
pub open spec fn spec_default_state() -> StateView {
    StateView { location: LocationView::Unknown, lastchange_timestamp: 0 }
}

/// A well-formed record never has a timestamp before the epoch.
pub open spec fn spec_state_wf(s: StateView) -> bool {
    0 <= s.lastchange_timestamp <= i64::MAX
}

/// Text encoding of a record: the timestamp in decimal, a line feed, then
/// `u` for the unknown location or `k` followed by the known substring.
/// The substring is the last field and runs to the end, so it needs no
/// escaping.
pub open spec fn spec_encode_state(s: StateView) -> Seq<char>
    recommends
        spec_state_wf(s),
{
    dec_digits(s.lastchange_timestamp as nat) + seq!['\n'] + match s.location {
        LocationView::Unknown => seq!['u'],
        LocationView::Known(name) => seq!['k'] + name,
    }
}

/// What a text record decodes to, if anything.
pub open spec fn spec_decode_state(c: Seq<char>) -> Option<StateView> {
    match spec_find(c, '\n') {
        None => None,
        Some(i) => match spec_parse_u64(c.take(i)) {
            None => None,
            Some(ts) => {
                if ts <= i64::MAX as u64 {
                    let rest = c.skip(i + 1);
                    if rest.len() == 1 && rest[0] == 'u' {
                        Some(
                            StateView {
                                location: LocationView::Unknown,
                                lastchange_timestamp: ts as int,
                            },
                        )
                    } else if rest.len() >= 1 && rest[0] == 'k' {
                        Some(
                            StateView {
                                location: LocationView::Known(rest.drop_first()),
                                lastchange_timestamp: ts as int,
                            },
                        )
                    } else {
                        None
                    }
                } else {
                    None
                }
            },
        },
    }
}

/// The record a load yields for given file contents: the decoded record,
/// or the default one when the file is absent or undecodable.
pub open spec fn spec_load_state(c: Option<Seq<char>>) -> StateView {
    match c {
        None => spec_default_state(),
        Some(cc) => match spec_decode_state(cc) {
            Some(s) => s,
            None => spec_default_state(),
        },
    }
}

/// Storing a record and loading it back yields the same record.
pub proof fn lemma_state_round_trip(s: StateView)
    requires
        spec_state_wf(s),
    ensures
        spec_decode_state(spec_encode_state(s)) == Some(s),
{
    let ts = s.lastchange_timestamp as nat;
    let digits = dec_digits(ts);
    let enc = spec_encode_state(s);
    lemma_dec_digits_are_digits(ts);
    let dl = digits.len() as int;
    assert(enc[dl] == '\n');
    assert forall|j: int| 0 <= j < dl implies enc[j] != '\n' by {
        assert(enc[j] == digits[j]);
        assert(is_dec_digit(digits[j]));
    }
    lemma_find_at(enc, '\n', dl);
    assert(enc.take(dl) =~= digits);
    lemma_parse_dec_round_trip(s.lastchange_timestamp as u64);
    let rest = enc.skip(dl + 1);
    match s.location {
        LocationView::Unknown => {
            assert(rest =~= seq!['u']);
        },
        LocationView::Known(name) => {
            assert(rest =~= seq!['k'] + name);
            assert(rest[0] == 'k');
            assert(rest.drop_first() =~= name);
        },
    }
}

impl State {
    /// Build a state from the contents of the state file: `None` when the
    /// file is absent, `Some` of its text otherwise.  An absent or
    /// undecodable record yields the default state, never an error.
    pub fn new(contents: Option<&str>) -> (r: State)
        ensures
            r@ == spec_load_state(
                match contents {
                    Some(c) => Some(c@),
                    None => None,
                },
            ),
            spec_state_wf(r@),
    {
        let default_state = State { location: Location::Unknown, lastchange_timestamp: 0 };
        let c = match contents {
            Some(c) => c,
            None => {
                return default_state;
            },
        };
        let n = c.unicode_len();
        let nl = match find_char(c, '\n') {
            Some(i) => i,
            None => {
                return default_state;
            },
        };
        proof {
            crate::strutil::lemma_find_props(c@, '\n');
        }
        let ts64 = match parse_u64_dec(c.substring_char(0, nl)) {
            Some(v) => v,
            None => {
                assert(c@.subrange(0, nl as int) =~= c@.take(nl as int));
                return default_state;
            },
        };
        assert(c@.subrange(0, nl as int) =~= c@.take(nl as int));
        if ts64 > i64::MAX as u64 {
            return default_state;
        }
        let ts = ts64 as i64;
        let restlen = n - nl - 1;
        let ghost rest = c@.skip(nl + 1);
        if restlen == 0 {
            return default_state;
        }
        let tag = c.get_char(nl + 1);
        assert(tag == rest[0]);
        if tag == 'u' && restlen == 1 {
            State { location: Location::Unknown, lastchange_timestamp: ts }
        } else if tag == 'k' {
            let name = c.substring_char(nl + 2, n).to_owned();
            assert(name@ =~= rest.drop_first());
            State { location: Location::Known(name), lastchange_timestamp: ts }
        } else {
            default_state
        }
    }

    /// The text record to persist for this state.
    pub fn encode(&self) -> (r: String)
        requires
            spec_state_wf(self@),
        ensures
            r@ == spec_encode_state(self@),
    {
        let mut out = u64_to_dec(self.lastchange_timestamp as u64);
        out.append("\n");
        proof {
            reveal_strlit("\n");
        }
        match &self.location {
            Location::Unknown => {
                out.append("u");
                proof {
                    reveal_strlit("u");
                }
                assert(out@ =~= spec_encode_state(self@));
            },
            Location::Known(name) => {
                out.append("k");
                proof {
                    reveal_strlit("k");
                }
                out.append(name.as_str());
                assert(out@ =~= spec_encode_state(self@));
            },
        }
        out
    }

    /// Update the state with `location` changed at `now`, and return the
    /// text record the caller must persist.  The in-memory state is only
    /// authoritative once that write has succeeded.
    pub fn set_location(&mut self, location: Location, now: i64) -> (r: String)
        requires
            0 <= now,
        ensures
            final(self).location@ == location@,
            final(self)@.lastchange_timestamp == now as int,
            spec_state_wf(final(self)@),
            r@ == spec_encode_state(final(self)@),
    {
        self.location = location;
        self.lastchange_timestamp = now;
        self.encode()
    }
}

// ---------------------------------------------------------------------------
// The reconciliation decision
// ---------------------------------------------------------------------------

/// The reconciliation decision: push when the candidate is a known location
/// and is not an unchanged location seen recently enough.  For an unchanged
/// location, the push is skipped exactly when the elapsed time lies strictly
/// above twice the polling interval and at most at the force-update window:
/// a very recent change is re-sent to guard against a push that silently
/// failed, and a stale one is re-sent to correct out-of-band drift.
pub open spec fn spec_should_push(
    candidate: LocationView,
    stored: StateView,
    now: int,
    delay_between_polling: int,
) -> bool {
    &&& candidate != LocationView::Unknown
    &&& (candidate == stored.location ==> !(2 * delay_between_polling < now
        - stored.lastchange_timestamp <= MAX_SECS_BEFORE_FORCE_UPDATE as int))
}

impl State {
    /// Decide whether a newly observed `candidate` location must be pushed
    /// to the remote server, given this stored record.
    pub fn should_push(&self, candidate: &Location, now: i64, delay_between_polling: u64) -> (r:
        bool)
        requires
            spec_state_wf(self@),
            self@.lastchange_timestamp <= now as int,
            delay_between_polling <= u32::MAX as u64,
        ensures
            r == spec_should_push(candidate@, self@, now as int, delay_between_polling as int),
    {
        match candidate {
            Location::Unknown => false,
            Location::Known(_) => {
                if *candidate == self.location {
                    let elapsed = (now - self.lastchange_timestamp) as u64;
                    !(2 * delay_between_polling < elapsed && elapsed
                        <= MAX_SECS_BEFORE_FORCE_UPDATE)
                } else {
                    true
                }
            },
        }
    }
}

/// How a poll cycle changes the stored record: a successful push records
/// the pushed location and the push time; anything else leaves the record
/// untouched.
pub open spec fn spec_apply_push(
    stored: StateView,
    candidate: LocationView,
    now: int,
    pushed: bool,
) -> StateView {
    if pushed {
        StateView { location: candidate, lastchange_timestamp: now }
    } else {
        stored
    }
}

impl State {
    /// Update the remote status for a newly observed location, and keep this
    /// record consistent with what was actually sent.
    ///
    /// When the decision (see [`spec_should_push`]) is to skip, nothing at
    /// all happens: no send, no change.  Otherwise the status is sent
    /// through `session`; only when the send succeeds is the record updated
    /// to the new location at `now`, and its text encoding returned for the
    /// caller to persist.  A failed push leaves the record untouched, so the
    /// next poll cycle retries naturally.
    pub fn update_status(
        &mut self,
        current_location: Location,
        status: Option<&MMStatus>,
        session: &mut LoggedSession,
        now: i64,
        delay_between_polling: u64,
    ) -> (r: Result<Option<String>, MMSError>)
        requires
            spec_state_wf(old(self)@),
            0 <= now,
            old(self)@.lastchange_timestamp <= now as int,
            delay_between_polling <= u32::MAX as u64,
            old(session).wf(),
            spec_should_push(
                current_location@,
                old(self)@,
                now as int,
                delay_between_polling as int,
            ) ==> status is Some,
        ensures
            spec_state_wf(final(self)@),
            final(session).wf(),
            final(self)@ == spec_apply_push(
                old(self)@,
                current_location@,
                now as int,
                spec_should_push(
                    current_location@,
                    old(self)@,
                    now as int,
                    delay_between_polling as int,
                ) && r is Ok,
            ),
            !spec_should_push(
                current_location@,
                old(self)@,
                now as int,
                delay_between_polling as int,
            ) ==> (r matches Ok(None) && *final(session) == *old(session)),
            final(session).base_uri == old(session).base_uri,
            final(session).user_id == old(session).user_id,
            final(session).user == old(session).user,
            final(session).password == old(session).password,
            final(session).sends@ <= old(session).sends@ + 2,
            final(session).relogins@ <= old(session).relogins@ + 1,
            spec_should_push(
                current_location@,
                old(self)@,
                now as int,
                delay_between_polling as int,
            ) ==> final(session).sends@ >= old(session).sends@ + 1,
            r matches Ok(Some(content)) ==> content@ == spec_encode_state(final(self)@),
            r matches Ok(None) ==> !spec_should_push(
                current_location@,
                old(self)@,
                now as int,
                delay_between_polling as int,
            ),
            r is Err ==> *final(self) == *old(self),
    {
        if !self.should_push(&current_location, now, delay_between_polling) {
            return Ok(None);
        }
        match status {
            Some(st) => match st.send(session) {
                Ok(_code) => {
                    let content = self.set_location(current_location, now);
                    Ok(Some(content))
                },
                Err(e) => Err(e),
            },
            None => {
                // excluded by the precondition: a push always has a status
                assert(false);
                Ok(None)
            },
        }
    }
}

// ---------------------------------------------------------------------------
// Laws of the decision
// ---------------------------------------------------------------------------

/// One poll cycle as the record sees it: what location was offered, when,
/// and whether the push went through.
pub struct PushEvent {
    pub candidate: LocationView,
    pub now: int,
    pub pushed: bool,
}

/// The record left after a sequence of poll cycles.
pub open spec fn spec_run_pushes(init: StateView, events: Seq<PushEvent>) -> StateView
    decreases events.len(),
{
    if events.len() == 0 {
        init
    } else {
        spec_apply_push(
            spec_run_pushes(init, events.drop_last()),
            events.last().candidate,
            events.last().now,
            events.last().pushed,
        )
    }
}

/// The index of the last successful push in a sequence of poll cycles.
pub open spec fn spec_last_push(events: Seq<PushEvent>) -> Option<int>
    decreases events.len(),
{
    if events.len() == 0 {
        None
    } else if events.last().pushed {
        Some(events.len() - 1)
    } else {
        spec_last_push(events.drop_last())
    }
}

/// After any sequence of poll cycles, the stored record holds exactly the
/// location of the last successful push, recorded at that push's time — a
/// failed or skipped push never reaches it; with no successful push at all
/// the record is still the initial one.
pub proof fn lemma_record_matches_last_push(init: StateView, events: Seq<PushEvent>)
    ensures
        match spec_last_push(events) {
            None => spec_run_pushes(init, events) == init,
            Some(i) => {
                &&& 0 <= i < events.len()
                &&& events[i].pushed
                &&& spec_run_pushes(init, events).location == events[i].candidate
                &&& spec_run_pushes(init, events).lastchange_timestamp == events[i].now
            },
        },
    decreases events.len(),
{
    if events.len() > 0 && !events.last().pushed {
        lemma_record_matches_last_push(init, events.drop_last());
    }
}

/// An unknown candidate never pushes, whatever the stored state, the time,
/// and the polling interval.
pub proof fn lemma_unknown_never_pushes(stored: StateView, now: int, delay_between_polling: int)
    ensures
        !spec_should_push(LocationView::Unknown, stored, now, delay_between_polling),
{
}

/// The skip decision is idempotent: with an unchanged candidate and an
/// elapsed time strictly between twice the polling interval and the
/// force-update window, the decision is skip — and since a skip changes
/// nothing, deciding again with the same inputs skips again.
pub proof fn lemma_skip_idempotent(
    candidate: LocationView,
    stored: StateView,
    now: int,
    delay_between_polling: int,
)
    requires
        candidate == stored.location,
        2 * delay_between_polling < now - stored.lastchange_timestamp,
        now - stored.lastchange_timestamp <= MAX_SECS_BEFORE_FORCE_UPDATE as int,
    ensures
        !spec_should_push(candidate, stored, now, delay_between_polling),
{
}

} // verus!
